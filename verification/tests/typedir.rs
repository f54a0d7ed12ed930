use largo::conf::ProfileName;
use largo::dirs::{
    CachedirTagFile, HomeDir, LargoConfigDir, LargoConfigFile, ProfileTargetDir,
    ProjectConfigFile, RootDir, SrcDir, SrcFile, StartFile, TargetDir,
};
use largo::typedir::{AsPath, Extend, PathBuf as P, PathRef as R};

const ROOT: &str = "/my/root/path";
const SRC: &str = "src";
const MAIN_RS: &str = "main.rs";
const TARGET: &str = "target";

#[test]
fn pathbuf_builds_correct_paths() {
    let root = RootDir::at(ROOT);
    assert_eq!(root.to_path_string(), ROOT);
    let src: P<SrcDir> = root.extend(());
    assert_eq!(src.to_path_string(), format!("{}/{}", ROOT, SRC));
    let main_rs: P<SrcFile> = src.extend(MAIN_RS);
    assert_eq!(
        main_rs.to_path_string(),
        format!("{}/{}/{}", ROOT, SRC, MAIN_RS)
    );
}

#[test]
fn pathref_builds_correct_paths_explicit_drop() {
    let root = RootDir::at(ROOT);
    assert_eq!(root.to_path_string(), ROOT);
    let src: R<SrcDir, _> = root.extend(());
    assert_eq!(src.to_path_string(), format!("{}/{}", ROOT, SRC));
    let main_rs: R<SrcFile, _> = src.extend(MAIN_RS);
    assert_eq!(
        main_rs.to_path_string(),
        format!("{}/{}/{}", ROOT, SRC, MAIN_RS)
    );
    let src = main_rs.release();
    assert_eq!(src.to_path_string(), format!("{}/{}", ROOT, SRC));
    let root = src.release();
    assert_eq!(root.to_path_string(), ROOT);
}

#[test]
fn pathref_builds_correct_paths_pathref_macro() {
    let root = RootDir::at(ROOT);
    assert_eq!(root.to_path_string(), ROOT);
    let root = {
        let src: R<SrcDir, _> = root.extend(());
        assert_eq!(src.to_path_string(), format!("{}/{}", ROOT, SRC));
        let src = {
            let main_rs: R<SrcFile, _> = src.extend(MAIN_RS);
            assert_eq!(
                main_rs.to_path_string(),
                format!("{}/{}/{}", ROOT, SRC, MAIN_RS)
            );
            main_rs.release()
        };
        assert_eq!(src.to_path_string(), format!("{}/{}", ROOT, SRC));
        src.release()
    };
    assert_eq!(root.to_path_string(), ROOT);
}

#[test]
fn simple_parametric_paths_work() {
    let root = RootDir::at(ROOT);
    let target: P<TargetDir> = root.extend(());
    let profile: P<ProfileTargetDir> = target.extend(ProfileName::new("someprofile"));
    assert_eq!(
        profile.to_path_string(),
        format!("{}/{}/{}", ROOT, TARGET, "someprofile")
    );
}

#[test]
fn every_fixed_link_appends_its_segment() {
    let manifest: P<ProjectConfigFile> = RootDir::at("/p").extend(());
    assert_eq!(manifest.to_path_string(), "/p/largo.toml");
    let tag: P<CachedirTagFile> = {
        let target: P<TargetDir> = RootDir::at("/p").extend(());
        target.extend(())
    };
    assert_eq!(tag.to_path_string(), "/p/target/CACHEDIR.TAG");
    let config_dir: P<LargoConfigDir> = HomeDir::at("/home/me").extend(());
    let config: P<LargoConfigFile> = config_dir.extend(());
    assert_eq!(config.to_path_string(), "/home/me/.largo/config.toml");
}

#[test]
fn start_file_lies_in_the_profile_directory() {
    let target: P<TargetDir> = RootDir::at("proj").extend(());
    let profile: P<ProfileTargetDir> = target.extend(ProfileName::new("dev"));
    let start: P<StartFile> = profile.extend(());
    assert_eq!(start.to_path_string(), "proj/target/dev/_start.tex");
}

#[test]
fn clone_leaves_the_first_handle_usable() {
    let root = RootDir::at(ROOT);
    let src: P<SrcDir> = root.clone().extend(());
    assert_eq!(root.to_path_string(), ROOT);
    assert_eq!(src.to_path_string(), "/my/root/path/src");
}

#[test]
fn scoped_extensions_unwind_to_the_start_at_any_depth() {
    let root = RootDir::at(ROOT);
    let target: R<TargetDir, _> = root.extend(());
    let profile: R<ProfileTargetDir, _> = target.extend(ProfileName::new("dev"));
    let start: R<StartFile, _> = profile.extend(());
    assert_eq!(start.to_path_string(), "/my/root/path/target/dev/_start.tex");
    let root = start.release().release().release();
    assert_eq!(root.to_path_string(), ROOT);
}

#[test]
fn scoped_extension_cut_short_unwinds_too() {
    fn visit(root: P<RootDir>, fail: bool) -> Result<P<RootDir>, String> {
        let src: R<SrcDir, _> = root.extend(());
        if fail {
            return Err(src.release().to_path_string());
        }
        let file: R<SrcFile, _> = src.extend("a.tex");
        Ok(file.release().release())
    }
    assert_eq!(visit(RootDir::at(ROOT), true).err(), Some(ROOT.to_string()));
    assert_eq!(visit(RootDir::at(ROOT), false).unwrap().to_path_string(), ROOT);
}

#[test]
fn scoped_extension_of_an_extended_buffer_keeps_its_segments() {
    let src: P<SrcDir> = RootDir::at(ROOT).extend(());
    let file: R<SrcFile, _> = src.extend("x.sty");
    assert_eq!(file.to_path_string(), "/my/root/path/src/x.sty");
    let src = file.release();
    assert_eq!(src.to_path_string(), "/my/root/path/src");
}
