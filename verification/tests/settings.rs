use largo::building::{
    choose_profile, get_engine, resolve, try_to_build, BuildBuilder, SettingsError, Verbosity,
};
use largo::conf::{
    BibEngine, Dependencies, Dependency, DependencyKind, DependencyName, LargoConfig,
    OutputFormat, Profile, ProfileName, Profiles, Project, ProjectConfig, ProjectConfigHead,
    ProjectSettings, SystemSettings, TexEngine, TexFormat,
};
use largo::dependencies::{get_dependency_paths, resolve_dependency_paths, resolve_path};
use largo::dirs::RootDir;
use largo::merge::Merge;
use largo::typedir::AsPath;

fn settings(
    output_format: Option<OutputFormat>,
    shell_escape: Option<bool>,
    synctex: Option<bool>,
) -> ProjectSettings {
    ProjectSettings {
        output_format,
        shell_escape,
        synctex,
    }
}

fn project<'c>(profiles: Option<Profiles<'c>>, dependencies: Dependencies<'c>) -> Project<'c> {
    Project {
        root: RootDir::at("/work/thesis"),
        config: ProjectConfig {
            project: ProjectConfigHead {
                name: "thesis",
                default_profile: None,
                project_settings: settings(Some(OutputFormat::Pdf), Some(false), None),
                system_settings: SystemSettings::default(),
            },
            package: None,
            class: None,
            profiles,
            dependencies,
        },
    }
}

fn path_dependency(path: &str, largo: bool) -> Dependency<'_> {
    Dependency {
        largo,
        kind: DependencyKind::Path { path },
    }
}

#[test]
fn profile_selection_is_single_use() {
    let mut profiles = Profiles::standard();
    let release = ProfileName::new("release");
    assert_eq!(profiles.select_profile(&release), Some(Profile::default()));
    assert_eq!(profiles.select_profile(&release), None);
    assert_eq!(
        profiles.select_profile(&ProfileName::new("dev")),
        Some(Profile::default())
    );
}

#[test]
fn second_selection_of_a_declared_profile_is_not_found() {
    let mut declared = Profiles::new();
    declared.insert(
        ProfileName::new("release"),
        Profile {
            project_settings: settings(None, Some(true), None),
        },
    );
    let name = ProfileName::new("release");
    let first = declared.select_profile(&name);
    assert_eq!(first.unwrap().project_settings.shell_escape, Some(true));
    assert!(declared.select_profile(&name).is_none());
}

#[test]
fn insert_replaces_and_returns_the_old_profile() {
    let mut profiles = Profiles::new();
    let a = Profile {
        project_settings: settings(None, Some(true), None),
    };
    let b = Profile {
        project_settings: settings(None, Some(false), None),
    };
    assert_eq!(profiles.insert(ProfileName::new("x"), a), None);
    assert_eq!(profiles.insert(ProfileName::new("x"), b), Some(a));
    assert_eq!(profiles.select_profile(&ProfileName::new("x")), Some(b));
}

#[test]
fn profile_name_falls_back_from_caller_to_project_to_tool() {
    let caller = Some(ProfileName::new("fast"));
    let project = Some(ProfileName::new("release"));
    let tool = ProfileName::new("dev");
    assert_eq!(choose_profile(caller, project, tool).as_str(), "fast");
    assert_eq!(choose_profile(None, project, tool).as_str(), "release");
    assert_eq!(choose_profile(None, None, tool).as_str(), "dev");
    assert_eq!(choose_profile(caller, None, tool).as_str(), "fast");
}

#[test]
fn resolve_layers_the_profile_over_the_project() {
    let conf = LargoConfig::default();
    let mut profiles = Profiles::new();
    profiles.insert(
        ProfileName::new("draft"),
        Profile {
            project_settings: settings(None, Some(true), Some(true)),
        },
    );
    let ctx = resolve(
        &conf,
        project(Some(profiles), Dependencies::new()),
        Some(ProfileName::new("draft")),
        Verbosity::Silent,
    )
    .unwrap();
    assert_eq!(
        ctx.project_settings,
        settings(Some(OutputFormat::Pdf), Some(true), Some(true))
    );
    assert_eq!(ctx.profile_name.as_str(), "draft");
    assert_eq!(ctx.project_name, "thesis");
    assert_eq!(ctx.tex_engine, TexEngine::Pdftex);
    assert_eq!(ctx.tex_format, TexFormat::Latex);
    assert_eq!(ctx.bib_engine, None);
    assert_eq!(ctx.root_dir.to_path_string(), "/work/thesis");
    assert_eq!(ctx.src_dir.to_path_string(), "/work/thesis/src");
    assert_eq!(ctx.target_dir.to_path_string(), "/work/thesis/target");
    assert_eq!(ctx.build_dir.to_path_string(), "/work/thesis/target/draft");
    assert_eq!(
        ctx.start_file.to_path_string(),
        "/work/thesis/target/draft/_start.tex"
    );
    assert!(ctx.dependency_paths.is_empty());
    assert_eq!(ctx.verbosity, Verbosity::Silent);
}

#[test]
fn resolve_uses_the_standard_profiles_of_a_project_that_declares_none() {
    let conf = LargoConfig::default();
    let ctx = resolve(
        &conf,
        project(None, Dependencies::new()),
        None,
        Verbosity::Noisy,
    )
    .unwrap();
    assert_eq!(ctx.profile_name.as_str(), "dev");
    assert_eq!(
        ctx.project_settings,
        settings(Some(OutputFormat::Pdf), Some(false), None)
    );
    assert_eq!(ctx.build_dir.to_path_string(), "/work/thesis/target/dev");
    assert_eq!(ctx.verbosity, Verbosity::Noisy);
}

#[test]
fn resolve_prefers_the_declared_profile_of_a_standard_name() {
    let conf = LargoConfig::default();
    let mut profiles = Profiles::new();
    profiles.insert(
        ProfileName::new("release"),
        Profile {
            project_settings: settings(Some(OutputFormat::Dvi), None, None),
        },
    );
    let ctx = resolve(
        &conf,
        project(Some(profiles), Dependencies::new()),
        Some(ProfileName::new("release")),
        Verbosity::Silent,
    )
    .unwrap();
    assert_eq!(
        ctx.project_settings,
        settings(Some(OutputFormat::Dvi), Some(false), None)
    );
}

#[test]
fn resolve_takes_the_default_profile_of_the_project_before_that_of_the_tool() {
    let conf = LargoConfig::default();
    let mut p = project(None, Dependencies::new());
    p.config.project.default_profile = Some(ProfileName::new("release"));
    let ctx = resolve(&conf, p, None, Verbosity::Silent).unwrap();
    assert_eq!(ctx.profile_name.as_str(), "release");
}

#[test]
fn resolve_fails_for_a_profile_that_does_not_exist() {
    let conf = LargoConfig::default();
    let out = resolve(
        &conf,
        project(None, Dependencies::new()),
        Some(ProfileName::new("nightly")),
        Verbosity::Silent,
    );
    match out {
        Err(SettingsError::ProfileNotFound(name)) => assert_eq!(name, "nightly"),
        other => panic!("expected a missing profile, got {:?}", other),
    }
}

#[test]
fn resolve_fails_for_an_engine_that_is_not_supported() {
    let conf = LargoConfig::default();
    let mut p = project(None, Dependencies::new());
    p.config.project.system_settings = SystemSettings {
        tex_format: None,
        tex_engine: Some(TexEngine::Luatex),
        bib_engine: Some(BibEngine::Biber),
    };
    match resolve(&conf, p, None, Verbosity::Silent) {
        Err(SettingsError::UnsupportedEngine { engine, format }) => {
            assert_eq!(engine, TexEngine::Luatex);
            assert_eq!(format, TexFormat::Latex);
        }
        other => panic!("expected an unsupported engine, got {:?}", other),
    }
}

#[test]
fn resolve_takes_engine_and_format_from_the_tool_where_the_project_is_silent() {
    let mut conf = LargoConfig::default();
    conf.default_tex_format = TexFormat::Tex;
    match resolve(
        &conf,
        project(None, Dependencies::new()),
        None,
        Verbosity::Silent,
    ) {
        Err(SettingsError::UnsupportedEngine { engine, format }) => {
            assert_eq!(engine, TexEngine::Pdftex);
            assert_eq!(format, TexFormat::Tex);
        }
        other => panic!("expected an unsupported engine, got {:?}", other),
    }
}

#[test]
fn resolve_reports_a_missing_profile_before_anything_else() {
    let conf = LargoConfig::default();
    let mut deps = Dependencies::new();
    deps.insert(DependencyName::new("a"), path_dependency("../a", true));
    let mut p = project(None, deps);
    p.config.project.system_settings.tex_engine = Some(TexEngine::Xetex);
    assert!(matches!(
        resolve(&conf, p, Some(ProfileName::new("none")), Verbosity::Silent),
        Err(SettingsError::ProfileNotFound(_))
    ));
}

#[test]
fn dependencies_come_in_the_order_of_their_names() {
    let mut deps = Dependencies::new();
    deps.insert(DependencyName::new("zeta"), path_dependency("/opt/zeta", false));
    deps.insert(DependencyName::new("alpha"), path_dependency("lib/alpha", false));
    deps.insert(DependencyName::new("mid"), path_dependency("../mid", false));
    assert_eq!(deps.len(), 3);
    assert_eq!(deps.name_at(0).as_str(), "alpha");
    assert_eq!(deps.name_at(2).as_str(), "zeta");
    assert_eq!(
        get_dependency_paths(&deps).unwrap(),
        vec!["lib/alpha", "../mid", "/opt/zeta"]
    );
    let root = RootDir::at("/work/thesis");
    assert_eq!(
        resolve_dependency_paths(&root, &deps).unwrap(),
        vec![
            "/work/thesis/lib/alpha",
            "/work/thesis/../mid",
            "/opt/zeta"
        ]
    );
}

#[test]
fn a_dependency_that_is_a_project_fails_loudly() {
    let mut deps = Dependencies::new();
    deps.insert(DependencyName::new("b"), path_dependency("b", true));
    deps.insert(DependencyName::new("a"), path_dependency("a", false));
    deps.insert(DependencyName::new("c"), path_dependency("c", true));
    match get_dependency_paths(&deps) {
        Err(SettingsError::UnsupportedDependency(name)) => assert_eq!(name, "b"),
        other => panic!("expected an unsupported dependency, got {:?}", other),
    }
    let conf = LargoConfig::default();
    assert!(matches!(
        resolve(&conf, project(None, deps), None, Verbosity::Silent),
        Err(SettingsError::UnsupportedDependency(_))
    ));
}

#[test]
fn inserting_a_dependency_twice_keeps_the_last() {
    let mut deps = Dependencies::new();
    assert!(deps
        .insert(DependencyName::new("a"), path_dependency("one", false))
        .is_none());
    let old = deps.insert(DependencyName::new("a"), path_dependency("two", false));
    assert!(matches!(
        old.unwrap().kind,
        DependencyKind::Path { path: "one" }
    ));
    assert_eq!(get_dependency_paths(&deps).unwrap(), vec!["two"]);
}

#[test]
fn paths_are_seen_from_the_root_unless_they_start_at_the_top() {
    assert_eq!(resolve_path("/r", "a/b"), "/r/a/b");
    assert_eq!(resolve_path("/r", "/a/b"), "/a/b");
    assert_eq!(resolve_path("/r", ""), "/r/");
}

#[test]
fn the_engine_gets_the_settings_as_arguments_and_environment() {
    let conf = LargoConfig::default();
    let mut profiles = Profiles::new();
    profiles.insert(
        ProfileName::new("draft"),
        Profile {
            project_settings: settings(None, Some(true), Some(true)),
        },
    );
    let mut deps = Dependencies::new();
    deps.insert(DependencyName::new("macros"), path_dependency("/tex/macros", false));
    deps.insert(DependencyName::new("figures"), path_dependency("figs", false));
    let runner = BuildBuilder::new(&conf, project(Some(profiles), deps))
        .with_profile(Some(ProfileName::new("draft")))
        .with_verbosity(Verbosity::Noisy)
        .try_finish()
        .unwrap();
    let cmd = runner.engine.inner_cmd();
    assert_eq!(cmd.program, "pdflatex");
    assert_eq!(
        cmd.args,
        vec![
            "-interaction",
            "nonstopmode",
            "-output-directory",
            "/work/thesis/target/draft",
            "-shell-escape",
            "-synctex",
            "1",
            "/work/thesis/target/draft/_start.tex",
        ]
    );
    assert_eq!(cmd.current_dir.as_deref(), Some("/work/thesis/src"));
    let envs: Vec<(&str, &str)> = cmd
        .envs
        .iter()
        .map(|e| (e.name.as_str(), e.value.as_str()))
        .collect();
    assert_eq!(
        envs,
        vec![
            ("max_print_line", "2147483647"),
            (
                "TEXINPUTS",
                "/work/thesis/src:/work/thesis/figs:/tex/macros:"
            ),
        ]
    );
    assert_eq!(runner.ctx.verbosity, Verbosity::Noisy);
}

#[test]
fn the_engine_is_told_no_shell_escape_when_the_project_forbids_it() {
    let conf = LargoConfig::default();
    let ctx = resolve(
        &conf,
        project(None, Dependencies::new()),
        Some(ProfileName::new("release")),
        Verbosity::Silent,
    )
    .unwrap();
    let engine = get_engine(&conf, &ctx);
    assert_eq!(
        engine.inner_cmd().args,
        vec![
            "-interaction",
            "nonstopmode",
            "-output-directory",
            "/work/thesis/target/release",
            "-no-shell-escape",
            "/work/thesis/target/release/_start.tex",
        ]
    );
    assert_eq!(engine.inner_cmd().envs[1].value, "/work/thesis/src:");
}

#[test]
fn the_command_line_build_maps_verbose_to_noisy() {
    let conf = LargoConfig::default();
    let quiet = try_to_build(&conf, project(None, Dependencies::new()), None, false).unwrap();
    assert_eq!(quiet.ctx.verbosity, Verbosity::Silent);
    assert_eq!(quiet.ctx.profile_name.as_str(), "dev");
    let loud = try_to_build(
        &conf,
        project(None, Dependencies::new()),
        Some("release"),
        true,
    )
    .unwrap();
    assert_eq!(loud.ctx.verbosity, Verbosity::Noisy);
    assert_eq!(loud.ctx.profile_name.as_str(), "release");
    assert!(matches!(
        try_to_build(&conf, project(None, Dependencies::new()), Some("x"), true),
        Err(SettingsError::ProfileNotFound(_))
    ));
}

#[test]
fn the_tool_chooses_a_program_for_every_engine_and_format() {
    let conf = LargoConfig::default();
    let table = [
        (TexEngine::Tex, TexFormat::Tex, "tex"),
        (TexEngine::Tex, TexFormat::Latex, "latex"),
        (TexEngine::Pdftex, TexFormat::Tex, "pdftex"),
        (TexEngine::Pdftex, TexFormat::Latex, "pdflatex"),
        (TexEngine::Xetex, TexFormat::Tex, "xetex"),
        (TexEngine::Xetex, TexFormat::Latex, "xelatex"),
        (TexEngine::Luatex, TexFormat::Tex, "luatex"),
        (TexEngine::Luatex, TexFormat::Latex, "lualatex"),
    ];
    for (engine, format, program) in table {
        assert_eq!(conf.choose_program(engine, format).as_str(), program);
    }
    assert_eq!(conf.build.execs.biber.as_str(), "biber");
    assert_eq!(conf.default_profile.as_str(), "dev");
}

#[test]
fn project_settings_merge_prefers_the_receiver() {
    let a = settings(None, Some(true), None);
    let b = settings(Some(OutputFormat::Ps), Some(false), Some(true));
    assert_eq!(a.merge(b), settings(Some(OutputFormat::Ps), Some(true), Some(true)));
}

#[test]
fn merge_laws_hold_on_settings() {
    let values = [
        settings(None, None, None),
        settings(Some(OutputFormat::Pdf), None, Some(false)),
        settings(None, Some(true), Some(true)),
        settings(Some(OutputFormat::Dvi), Some(false), Some(true)),
    ];
    for a in values {
        for b in values {
            let mut once = a;
            once.merge_left(b);
            let mut twice = once;
            twice.merge_left(b);
            assert_eq!(twice, once);
            let mut dual = b;
            dual.merge_right(a);
            assert_eq!(once, dual);
            let mut right = a;
            right.merge_right(b);
            assert_eq!(right.synctex, b.synctex.or(a.synctex));
            assert_eq!(right.shell_escape, b.shell_escape.or(a.shell_escape));
            assert_eq!(right.output_format, b.output_format.or(a.output_format));
        }
    }
}

#[test]
fn merging_profile_maps_goes_name_by_name() {
    let mut ours = Profiles::new();
    ours.insert(
        ProfileName::new("dev"),
        Profile {
            project_settings: settings(None, Some(true), None),
        },
    );
    ours.insert(
        ProfileName::new("mine"),
        Profile {
            project_settings: settings(Some(OutputFormat::Ps), None, None),
        },
    );
    let mut theirs = Profiles::new();
    theirs.insert(
        ProfileName::new("dev"),
        Profile {
            project_settings: settings(Some(OutputFormat::Dvi), Some(false), None),
        },
    );
    theirs.insert(ProfileName::new("release"), Profile::default());
    ours.merge_left(theirs);
    assert_eq!(
        ours.select_profile(&ProfileName::new("dev")),
        Some(Profile {
            project_settings: settings(Some(OutputFormat::Dvi), Some(true), None)
        })
    );
    assert_eq!(
        ours.select_profile(&ProfileName::new("mine")),
        Some(Profile {
            project_settings: settings(Some(OutputFormat::Ps), None, None)
        })
    );
    assert_eq!(
        ours.select_profile(&ProfileName::new("release")),
        Some(Profile::default())
    );
    assert_eq!(ours.select_profile(&ProfileName::new("other")), None);
}

#[test]
fn right_merge_of_profile_maps_lets_the_other_side_win() {
    let mut ours = Profiles::new();
    ours.insert(
        ProfileName::new("dev"),
        Profile {
            project_settings: settings(None, Some(true), Some(true)),
        },
    );
    let mut theirs = Profiles::new();
    theirs.insert(
        ProfileName::new("dev"),
        Profile {
            project_settings: settings(Some(OutputFormat::Dvi), Some(false), None),
        },
    );
    ours.merge_right(theirs);
    assert_eq!(
        ours.select_profile(&ProfileName::new("dev")),
        Some(Profile {
            project_settings: settings(Some(OutputFormat::Dvi), Some(false), Some(true))
        })
    );
}

#[test]
fn global_configurations_merge_field_by_field() {
    let mut base = LargoConfig::default();
    let mut other = LargoConfig::default();
    other.build.execs.pdflatex = largo::conf::Executable::new("/usr/bin/pdflatex");
    other.bib.bibliography = Some("refs.bib");
    other.default_tex_engine = TexEngine::Xetex;
    base.bib.bibliography = None;
    base.merge_right(other);
    assert_eq!(base.build.execs.pdflatex.as_str(), "/usr/bin/pdflatex");
    assert_eq!(base.bib.bibliography, Some("refs.bib"));
    assert_eq!(base.default_tex_engine, TexEngine::Xetex);
    let mut kept = LargoConfig::default();
    kept.bib.bibliography = Some("mine.bib");
    let mut under = LargoConfig::default();
    under.bib.bibliography = Some("theirs.bib");
    under.doc.reader = Some("evince");
    under.default_tex_format = TexFormat::Tex;
    kept.merge_left(under);
    assert_eq!(kept.bib.bibliography, Some("mine.bib"));
    assert_eq!(kept.doc.reader, Some("evince"));
    assert_eq!(kept.default_tex_format, TexFormat::Latex);
}
