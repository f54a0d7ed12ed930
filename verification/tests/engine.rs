use largo::building::{
    BuildBuilder, BuildError, BuildInfo, BuildPoll, BuildRunner, EngineEvent, LargoInfo, Request,
    Verbosity,
};
use largo::conf::{
    Dependencies, LargoConfig, ProfileName, Project, ProjectConfig, ProjectConfigHead,
    ProjectSettings, SystemSettings,
};
use largo::dirs::RootDir;
use largo::clam::Command;
use largo::engines::{classify, EngineInfo, Invocation};
use largo::filter::{filter_errors, Info};
use std::time::Duration;

fn runner<'c>(conf: &'c LargoConfig<'c>, verbosity: Verbosity) -> BuildRunner<'c> {
    let project = Project {
        root: RootDir::at("/doc"),
        config: ProjectConfig {
            project: ProjectConfigHead {
                name: "paper",
                default_profile: None,
                project_settings: ProjectSettings::default(),
                system_settings: SystemSettings::default(),
            },
            package: None,
            class: None,
            profiles: None,
            dependencies: Dependencies::new(),
        },
    };
    BuildBuilder::new(conf, project)
        .with_profile(Some(ProfileName::new("dev")))
        .with_verbosity(verbosity)
        .try_finish()
        .unwrap()
}

fn lines(text: &[&str]) -> Vec<String> {
    text.iter().map(|l| l.to_string()).collect()
}

fn describe(item: &Result<BuildInfo, BuildError>) -> String {
    match item {
        Ok(BuildInfo::LargoInfo(LargoInfo::Compiling {
            project,
            version,
            root,
        })) => format!("compiling {} {:?} {}", project, version, root),
        Ok(BuildInfo::LargoInfo(LargoInfo::Running { executable })) => {
            format!("running {}", executable)
        }
        Ok(BuildInfo::LargoInfo(LargoInfo::Finished {
            profile_name,
            duration,
        })) => format!("finished {} {}", profile_name.as_str(), duration.as_millis()),
        Ok(BuildInfo::EngineInfo(EngineInfo::Error { line, msg })) => {
            format!("error {} {}", line, msg)
        }
        Ok(BuildInfo::EngineLine(line)) => format!("line {}", line),
        Err(BuildError::Spawn(reason)) => format!("spawn failed {}", reason),
    }
}

#[test]
fn classifier_recognises_the_error_marker() {
    match classify("! Undefined control sequence.") {
        Some(EngineInfo::Error { line, msg }) => {
            assert_eq!(line, 0);
            assert_eq!(msg, "Undefined control sequence.");
        }
        None => panic!("the line reports an error"),
    }
    assert!(classify("This is pdfTeX, Version 3.14").is_none());
}

#[test]
fn classifier_wants_the_whole_marker_at_the_start() {
    assert!(classify("").is_none());
    assert!(classify("!").is_none());
    assert!(classify("!Missing space").is_none());
    assert!(classify(" ! Indented").is_none());
    assert!(classify("l.3 ! not at the start").is_none());
    match classify("! ") {
        Some(EngineInfo::Error { line: 0, msg }) => assert_eq!(msg, ""),
        other => panic!("an empty message is a message, got {:?}", other),
    }
    match classify("! Emergency stop: é ≠ e") {
        Some(EngineInfo::Error { line: 0, msg }) => assert_eq!(msg, "Emergency stop: é ≠ e"),
        other => panic!("got {:?}", other),
    }
}

#[test]
fn filter_keeps_the_errors_in_order() {
    let output = lines(&[
        "This is pdfTeX",
        "! First.",
        "l.1 \\foo",
        "! Second.",
        "",
    ]);
    let info: Info = filter_errors(&output);
    assert_eq!(info.len(), 2);
    assert!(matches!(info.get(0), EngineInfo::Error { line: 0, msg } if msg == "First."));
    assert!(matches!(info.get(1), EngineInfo::Error { line: 0, msg } if msg == "Second."));
    assert_eq!(filter_errors(&Vec::new()).len(), 0);
}

#[test]
fn info_collects_what_is_pushed() {
    let mut info = Info::new();
    assert_eq!(info.len(), 0);
    info.push(EngineInfo::Error {
        line: 7,
        msg: "x".to_string(),
    });
    assert_eq!(info.len(), 1);
    assert!(matches!(info.get(0), EngineInfo::Error { line: 7, .. }));
}

#[test]
fn a_build_reports_its_milestones_in_order() {
    let conf = LargoConfig::default();
    let build = runner(&conf, Verbosity::Silent);
    let items = build.run().collect(
        Ok(()),
        &lines(&["This is pdfTeX, Version 3.14", "(./main.tex)"]),
        Duration::from_millis(1500),
    );
    let seen: Vec<String> = items.iter().map(describe).collect();
    assert_eq!(
        seen,
        vec![
            "compiling paper None /doc",
            "running pdflatex",
            "finished dev 1500",
        ]
    );
}

#[test]
fn a_quiet_build_passes_on_the_errors_only() {
    let conf = LargoConfig::default();
    let build = runner(&conf, Verbosity::Silent);
    let items = build.run().collect(
        Ok(()),
        &lines(&["hello", "! Undefined control sequence.", "l.1", "! Too many }'s."]),
        Duration::from_secs(0),
    );
    let seen: Vec<String> = items.iter().map(describe).collect();
    assert_eq!(
        seen,
        vec![
            "compiling paper None /doc",
            "running pdflatex",
            "error 0 Undefined control sequence.",
            "error 0 Too many }'s.",
            "finished dev 0",
        ]
    );
}

#[test]
fn a_noisy_build_passes_on_every_line_as_it_is() {
    let conf = LargoConfig::default();
    let build = runner(&conf, Verbosity::Noisy);
    let items = build.run().collect(
        Ok(()),
        &lines(&["hello", "! Undefined control sequence."]),
        Duration::from_secs(2),
    );
    let seen: Vec<String> = items.iter().map(describe).collect();
    assert_eq!(
        seen,
        vec![
            "compiling paper None /doc",
            "running pdflatex",
            "line hello",
            "line ! Undefined control sequence.",
            "finished dev 2000",
        ]
    );
}

#[test]
fn a_build_whose_engine_cannot_start_ends_with_the_failure() {
    let conf = LargoConfig::default();
    let build = runner(&conf, Verbosity::Silent);
    let items = build.run().collect(
        Err("No such file or directory".to_string()),
        &lines(&["! never read"]),
        Duration::from_secs(9),
    );
    let seen: Vec<String> = items.iter().map(describe).collect();
    assert_eq!(
        seen,
        vec![
            "compiling paper None /doc",
            "spawn failed No such file or directory",
        ]
    );
}

#[test]
fn the_stream_asks_for_what_it_needs_step_by_step() {
    let conf = LargoConfig::default();
    let build = runner(&conf, Verbosity::Info(largo::building::LogLevel::Error));
    let mut stream = build.run();
    assert_eq!(stream.request(), Request::Nothing);
    assert!(matches!(
        stream.poll_next(EngineEvent::Nothing),
        BuildPoll::Ready(Some(Ok(BuildInfo::LargoInfo(LargoInfo::Compiling { .. }))))
    ));
    assert_eq!(stream.request(), Request::Spawn);
    assert!(matches!(
        stream.poll_next(EngineEvent::Nothing),
        BuildPoll::Pending
    ));
    assert_eq!(stream.request(), Request::Spawn);
    assert!(matches!(
        stream.poll_next(EngineEvent::Spawned),
        BuildPoll::Ready(Some(Ok(BuildInfo::LargoInfo(LargoInfo::Running { .. }))))
    ));
    assert_eq!(stream.request(), Request::Line);
    assert!(matches!(
        stream.poll_next(EngineEvent::Line("plain".to_string())),
        BuildPoll::Pending
    ));
    assert!(matches!(
        stream.poll_next(EngineEvent::Line("! Bad.".to_string())),
        BuildPoll::Ready(Some(Ok(BuildInfo::EngineInfo(EngineInfo::Error { .. }))))
    ));
    assert_eq!(stream.request(), Request::Line);
    assert!(matches!(
        stream.poll_next(EngineEvent::Closed),
        BuildPoll::Pending
    ));
    assert_eq!(stream.request(), Request::Elapsed);
    assert!(matches!(
        stream.poll_next(EngineEvent::Line("late".to_string())),
        BuildPoll::Pending
    ));
    match stream.poll_next(EngineEvent::Elapsed(Duration::from_millis(12))) {
        BuildPoll::Ready(Some(Ok(BuildInfo::LargoInfo(LargoInfo::Finished {
            profile_name,
            duration,
        })))) => {
            assert_eq!(profile_name.as_str(), "dev");
            assert_eq!(duration, Duration::from_millis(12));
        }
        other => panic!("expected the end of the build, got {:?}", other),
    }
    assert_eq!(stream.request(), Request::Nothing);
    assert!(matches!(
        stream.poll_next(EngineEvent::Nothing),
        BuildPoll::Ready(None)
    ));
    assert!(matches!(
        stream.poll_next(EngineEvent::Line("! after the end".to_string())),
        BuildPoll::Ready(None)
    ));
}

#[test]
fn nothing_follows_a_failure_to_start() {
    let conf = LargoConfig::default();
    let build = runner(&conf, Verbosity::Silent);
    let mut stream = build.run();
    stream.poll_next(EngineEvent::Nothing);
    match stream.poll_next(EngineEvent::SpawnFailed("denied".to_string())) {
        BuildPoll::Ready(Some(Err(BuildError::Spawn(reason)))) => assert_eq!(reason, "denied"),
        other => panic!("expected a failure, got {:?}", other),
    }
    assert_eq!(stream.request(), Request::Nothing);
    assert!(matches!(
        stream.poll_next(EngineEvent::Spawned),
        BuildPoll::Ready(None)
    ));
    assert!(matches!(
        stream.poll_next(EngineEvent::Nothing),
        BuildPoll::Ready(None)
    ));
}

#[test]
fn milestones_have_names() {
    let compiling = LargoInfo::Compiling {
        project: "p",
        version: None,
        root: "/".to_string(),
    };
    let running = LargoInfo::Running {
        executable: "pdflatex".to_string(),
    };
    let finished = LargoInfo::Finished {
        profile_name: ProfileName::new("dev"),
        duration: Duration::from_secs(1),
    };
    assert_eq!(compiling.info_name(), "Compiling");
    assert_eq!(running.info_name(), "Running");
    assert_eq!(finished.info_name(), "Finished");
    assert!(matches!(
        BuildInfo::from(running),
        BuildInfo::LargoInfo(LargoInfo::Running { .. })
    ));
    assert!(matches!(
        BuildInfo::from(EngineInfo::Error {
            line: 0,
            msg: String::new()
        }),
        BuildInfo::EngineInfo(_)
    ));
}

#[test]
fn the_start_file_defines_the_variables_and_reads_the_main_file() {
    let mut conf = LargoConfig::default();
    let build = runner(&conf, Verbosity::Silent);
    let mut text = String::from("% ");
    build.write_start_file(&mut text);
    assert_eq!(
        text,
        "% \\def\\LargoProfile{dev}\\def\\LargoOutputDirectory{/doc/target/dev}\\input{main.tex}"
    );
    conf.bib.bibliography = Some("refs.bib");
    let build = runner(&conf, Verbosity::Silent);
    let mut vars = String::new();
    build.write_largo_vars(&mut vars);
    assert_eq!(
        vars,
        "\\def\\LargoProfile{dev}\\def\\LargoOutputDirectory{/doc/target/dev}\\def\\LargoBibliography{refs.bib}"
    );
}

#[test]
fn an_invocation_collects_arguments_environment_and_directory() {
    let mut cmd = Invocation::new("tex");
    cmd.arg("-ini");
    cmd.env("A", "1");
    cmd.env("A", "2");
    cmd.current_dir("/tmp");
    cmd.arg("plain").args(&["a", "b"]);
    assert_eq!(cmd.program, "tex");
    assert_eq!(cmd.args, vec!["-ini", "plain", "a", "b"]);
    assert_eq!(cmd.envs.len(), 2);
    assert_eq!(cmd.envs[1].value, "2");
    assert_eq!(cmd.current_dir.as_deref(), Some("/tmp"));
}
