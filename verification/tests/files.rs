use largo::conf::ProfileName;
use largo::dirs::{
    parent, ContentString, NewProject, ProjectConfigFile, ProjectKind, RootDir, TargetDir,
    ToCreate,
};
use largo::files::packages::{
    BannerError, ClassTemplate, IdentBanner, PackageDate, PackageKind, PackageName,
    PackageTemplate, PackageTexFormat, ProvidesOptionalArg, TemplateData,
};
use largo::files::{
    has_cachedir_signature, plan_clean, CleanError, CleanPlan, CACHEDIR_TAG,
    CACHEDIR_TAG_SIGNATURE,
};
use largo::typedir::{Extend, PathBuf};
use largo::vars::LargoVars;

fn target() -> PathBuf<TargetDir> {
    RootDir::at("/p").extend(())
}

const DATE: PackageDate = PackageDate {
    year: 2024,
    month: 2,
    day: 29,
};

#[test]
fn clean_refuses_a_directory_without_the_signature() {
    match plan_clean(target(), true, Some("not a tag"), None) {
        Err(CleanError::InvalidSignature { dir }) => assert_eq!(dir, "/p/target"),
        other => panic!("expected a refusal, got {:?}", other),
    }
    match plan_clean(
        target(),
        true,
        Some("signature: 8a477f597d28d172789f06886806bc55"),
        Some(ProfileName::new("dev")),
    ) {
        Err(CleanError::InvalidSignature { dir }) => assert_eq!(dir, "/p/target"),
        other => panic!("expected a refusal, got {:?}", other),
    }
    assert!(matches!(
        plan_clean(target(), true, Some(""), None),
        Err(CleanError::InvalidSignature { .. })
    ));
    assert!(matches!(
        plan_clean(
            target(),
            true,
            Some("Signature: 8a477f597d28d172789f06886806bc5"),
            None
        ),
        Err(CleanError::InvalidSignature { .. })
    ));
}

#[test]
fn clean_refuses_a_directory_without_a_tag() {
    match plan_clean(target(), true, None, Some(ProfileName::new("dev"))) {
        Err(CleanError::MissingTag { dir }) => assert_eq!(dir, "/p/target"),
        other => panic!("expected a refusal, got {:?}", other),
    }
}

#[test]
fn clean_removes_a_directory_with_a_valid_tag() {
    match plan_clean(target(), true, Some(CACHEDIR_TAG), None) {
        Ok(CleanPlan::Remove(dir)) => assert_eq!(dir, "/p/target"),
        other => panic!("expected a removal, got {:?}", other),
    }
    match plan_clean(
        target(),
        true,
        Some(CACHEDIR_TAG_SIGNATURE),
        Some(ProfileName::new("release")),
    ) {
        Ok(CleanPlan::Remove(dir)) => assert_eq!(dir, "/p/target/release"),
        other => panic!("expected a removal, got {:?}", other),
    }
}

#[test]
fn clean_has_nothing_to_do_without_a_target_directory() {
    assert!(matches!(
        plan_clean(target(), false, None, None),
        Ok(CleanPlan::Nothing)
    ));
    assert!(matches!(
        plan_clean(target(), false, Some("junk"), Some(ProfileName::new("dev"))),
        Ok(CleanPlan::Nothing)
    ));
}

#[test]
fn the_tag_begins_with_its_signature() {
    assert!(has_cachedir_signature(CACHEDIR_TAG));
    assert!(has_cachedir_signature(CACHEDIR_TAG_SIGNATURE));
    assert!(!has_cachedir_signature(&CACHEDIR_TAG[1..]));
    assert_eq!(
        CACHEDIR_TAG,
        "Signature: 8a477f597d28d172789f06886806bc55\n# This file is a cache directory tag created by largo.\n# For information about cache directory tags, see:\n#\thttps://bford.info/cachedir/\n"
    );
}

#[test]
fn variables_become_definitions() {
    let target = target();
    let dir = target.extend(ProfileName::new("dev"));
    let vars = LargoVars {
        profile: ProfileName::new("dev"),
        bibliography: Some("lib.bib"),
        output_directory: &dir,
    };
    assert_eq!(
        vars.to_defs(),
        "\\def\\LargoProfile{dev}\\def\\LargoBibliography{lib.bib}\\def\\LargoOutputDirectory{/p/target/dev}"
    );
    let vars = LargoVars {
        profile: ProfileName::new("release"),
        bibliography: None,
        output_directory: &dir,
    };
    assert_eq!(
        vars.to_defs(),
        "\\def\\LargoProfile{release}\\def\\LargoOutputDirectory{/p/target/dev}"
    );
}

#[test]
fn a_package_template_names_the_format_and_the_package() {
    let name = PackageName::new("mypkg");
    assert_eq!(
        PackageTemplate::new(&name, DATE).render(),
        "\\NeedsTexFormat{LaTeX2e}\n\\ProvidesPackage{mypkg}[2024/2/29]\n"
    );
    assert_eq!(
        ClassTemplate::new(&name, DATE).render(),
        "\\NeedsTexFormat{LaTeX2e}\n\\ProvidesClass{mypkg}[2024/2/29]\n"
    );
}

#[test]
fn a_template_writes_its_banner_after_the_date() {
    let data = TemplateData {
        kind: PackageKind::Package,
        name: PackageName::new("p"),
        needs_format: PackageTexFormat::Latex2e,
        provides_options: Some(ProvidesOptionalArg {
            date: PackageDate {
                year: -44,
                month: 3,
                day: 15,
            },
            banner: Some(IdentBanner::new("v1.0 Ides".to_string()).unwrap()),
        }),
    };
    assert_eq!(
        data.render(),
        "\\NeedsTexFormat{LaTeX2e}\n\\ProvidesPackage{p}[-44/3/15 v1.0 Ides]\n"
    );
    let bare = TemplateData {
        kind: PackageKind::Class,
        name: PackageName::new("c"),
        needs_format: PackageTexFormat::Latex2e,
        provides_options: None,
    };
    assert_eq!(bare.render(), "\\NeedsTexFormat{LaTeX2e}\n\\ProvidesClass{c}\n");
}

#[test]
fn a_banner_must_not_hold_the_reserved_phrase() {
    assert_eq!(
        IdentBanner::new("My Standard LaTeX package".to_string()).err(),
        Some(BannerError::ReservedPhrase)
    );
    assert_eq!(
        IdentBanner::new("Standard LaTeX".to_string()).err(),
        Some(BannerError::ReservedPhrase)
    );
    assert_eq!(
        IdentBanner::new("Standard LaTe".to_string()).unwrap().as_str(),
        "Standard LaTe"
    );
    assert_eq!(
        IdentBanner::new("standard latex".to_string()).unwrap().as_str(),
        "standard latex"
    );
    assert_eq!(IdentBanner::new(String::new()).unwrap().as_str(), "");
    assert_eq!(PackageKind::Package.provides_macro(), "ProvidesPackage");
    assert_eq!(PackageKind::Class.provides_macro(), "ProvidesClass");
}

#[test]
fn the_kind_of_a_new_project_follows_the_switches() {
    assert_eq!(ProjectKind::from_flags(true, false, false), ProjectKind::Document);
    assert_eq!(ProjectKind::from_flags(true, true, true), ProjectKind::Document);
    assert_eq!(ProjectKind::from_flags(false, true, false), ProjectKind::Package);
    assert_eq!(ProjectKind::from_flags(false, true, true), ProjectKind::Package);
    assert_eq!(ProjectKind::from_flags(false, false, true), ProjectKind::Class);
}

#[test]
fn a_new_project_has_a_manifest_with_its_name_and_kind() {
    let package = NewProject {
        name: "pk",
        kind: ProjectKind::Package,
    }
    .project_toml();
    assert_eq!(package.project.name, "pk");
    assert!(package.package.is_some());
    assert!(package.class.is_none());
    assert!(package.profiles.is_none());
    assert_eq!(package.dependencies.len(), 0);
    let class = NewProject {
        name: "cl",
        kind: ProjectKind::Class,
    }
    .project_toml();
    assert!(class.package.is_none() && class.class.is_some());
    let doc = NewProject {
        name: "d",
        kind: ProjectKind::Document,
    }
    .project_toml();
    assert!(doc.package.is_none() && doc.class.is_none());
}

#[test]
fn a_new_project_is_made_step_by_step() {
    let new = NewProject {
        name: "pk",
        kind: ProjectKind::Package,
    };
    let steps = new.init(RootDir::at("/w/pk"), "[project]\n".to_string(), DATE);
    let seen: Vec<(String, Option<String>)> = steps
        .into_iter()
        .map(|s| {
            (
                s.path,
                match s.what {
                    ToCreate::Dir => None,
                    ToCreate::File(contents) => Some(contents),
                },
            )
        })
        .collect();
    assert_eq!(
        seen,
        vec![
            ("/w/pk/largo.toml".to_string(), Some("[project]\n".to_string())),
            ("/w/pk/.gitignore".to_string(), Some("/target\n".to_string())),
            ("/w/pk/src".to_string(), None),
            (
                "/w/pk/src/main.sty".to_string(),
                Some("\\NeedsTexFormat{LaTeX2e}\n\\ProvidesPackage{pk}[2024/2/29]\n".to_string())
            ),
            ("/w/pk/target".to_string(), None),
        ]
    );
    let doc = NewProject {
        name: "d",
        kind: ProjectKind::Document,
    };
    let steps = doc.init(RootDir::at("d"), String::new(), DATE);
    assert_eq!(steps[3].path, "d/src/main.tex");
    assert!(matches!(&steps[3].what, ToCreate::File(text) if text.contains("\\begin{document}")));
    let class = NewProject {
        name: "c",
        kind: ProjectKind::Class,
    };
    assert_eq!(class.init(RootDir::at("c"), String::new(), DATE)[3].path, "c/src/main.cls");
}

#[test]
fn the_root_is_sought_from_the_nearest_directory_to_the_top() {
    assert_eq!(
        RootDir::candidates("/home/me/paper/src"),
        vec!["/home/me/paper/src", "/home/me/paper", "/home/me", "/home", "/"]
    );
    assert_eq!(RootDir::candidates("/"), vec!["/"]);
    assert_eq!(RootDir::candidates("a/b"), vec!["a/b", "a"]);
    assert_eq!(RootDir::candidates("plain"), vec!["plain"]);
    assert_eq!(RootDir::candidates(""), vec![""]);
}

#[test]
fn the_parent_is_what_stands_before_the_last_separator() {
    assert_eq!(parent("/a/b"), Some("/a".to_string()));
    assert_eq!(parent("/a"), Some("/".to_string()));
    assert_eq!(parent("/"), None);
    assert_eq!(parent("a"), None);
    assert_eq!(parent(""), None);
    assert_eq!(parent("a/b/"), Some("a/b".to_string()));
    assert_eq!(parent("é/ü"), Some("é".to_string()));
}

#[test]
fn contents_are_tagged_with_their_file() {
    let manifest: PathBuf<ProjectConfigFile> = RootDir::at("/p").extend(());
    let contents = ContentString::new(&manifest, "[project]".to_string());
    assert_eq!(contents.as_str(), "[project]");
}
