//! Builds: from configuration to the engine, and what a run reports.

use crate::conf::{
    BibEngine, LargoConfig, Profile, ProfileName, Profiles, Project, ProjectSettings, TexEngine,
    TexFormat, DEV_PROFILE, RELEASE_PROFILE,
};
use crate::dependencies::{
    first_unsupported, paths_of, resolve_dependency_paths, resolved_paths,
};
use crate::dirs::{
    ProfileTargetDir, RootDir, SrcDir, StartFile, TargetDir, SRC_DIR, START_FILE, TARGET_DIR,
};
use crate::engines::pdflatex::{
    pdflatex_arguments, search_path, PdflatexBuilder, MAX_PRINT_LINE, SYNCTEX_GZIPPED, TEXINPUTS,
    UNWRAPPED_LINE_LENGTH,
};
use crate::engines::{classified, classify, Engine, EngineInfo, EngineInfoView, InvocationView};
use crate::merge::Merge;
use crate::text::{decimal, texts};
use crate::typedir::{AsPath, Extend, PathBuf, SEPARATOR};
use std::time::Duration;
use vstd::prelude::*;
use vstd::string::StringExecFns;

verus! {

/// How grave a message of the engine must be to be passed on.
#[derive(Debug, Clone, Copy, PartialEq, Eq, Structural)]
pub enum LogLevel {
    Warning,
    Error,
}

impl Default for LogLevel {
    fn default() -> (out: Self)
        ensures
            out == LogLevel::Warning,
    {
        LogLevel::Warning
    }
}

/// How much of what the engine prints is passed on.
#[derive(Debug, Clone, Copy, PartialEq, Eq, Structural)]
pub enum Verbosity {
    /// Pass on nothing but what the engine's output is recognised to say.
    Silent,
    /// Pass on the engine's warnings and errors.
    Info(LogLevel),
    /// Pass on every line that the engine prints.
    Noisy,
}

impl Default for Verbosity {
    fn default() -> (out: Self)
        ensures
            out == Verbosity::Silent,
    {
        Verbosity::Silent
    }
}

/// Why the settings of a project cannot be resolved into a build.
#[derive(Debug)]
pub enum SettingsError {
    /// The project has no profile of this name.
    ProfileNotFound(String),
    /// No engine is supported for this pair of engine and format.
    UnsupportedEngine { engine: TexEngine, format: TexFormat },
    /// The dependency of this name is of a kind that no build can use yet.
    UnsupportedDependency(String),
}

/// The mathematical value of a [`SettingsError`].
pub enum SettingsErrorView {
    ProfileNotFound(Seq<char>),
    UnsupportedEngine { engine: TexEngine, format: TexFormat },
    UnsupportedDependency(Seq<char>),
}

impl View for SettingsError {
    type V = SettingsErrorView;

    open spec fn view(&self) -> SettingsErrorView {
        match self {
            SettingsError::ProfileNotFound(name) => SettingsErrorView::ProfileNotFound(name@),
            SettingsError::UnsupportedEngine { engine, format } => {
                SettingsErrorView::UnsupportedEngine { engine: *engine, format: *format }
            },
            SettingsError::UnsupportedDependency(name) => {
                SettingsErrorView::UnsupportedDependency(name@)
            },
        }
    }
}


/// The name of the profile to build: the one that the caller asks for, or
/// else the one that the project names, or else the one that the tool is
/// configured with.
pub open spec fn chosen_profile(
    requested: Option<Seq<char>>,
    project_default: Option<Seq<char>>,
    global_default: Seq<char>,
) -> Seq<char> {
    match requested {
        Some(name) => name,
        None => match project_default {
            Some(name) => name,
            None => global_default,
        },
    }
}

/// The view of an optional profile name.
pub open spec fn name_view(name: Option<ProfileName<'_>>) -> Option<Seq<char>> {
    match name {
        Some(name) => Some(name@),
        None => None,
    }
}

/// The name of the profile to build: the one that the caller asks for, or
/// else the one that the project names, or else the one that the tool is
/// configured with.
pub fn choose_profile<'a>(
    requested: Option<ProfileName<'a>>,
    project_default: Option<ProfileName<'a>>,
    global_default: ProfileName<'a>,
) -> (out: ProfileName<'a>)
    ensures
        out@ == chosen_profile(name_view(requested), name_view(project_default), global_default@),
{
    match requested {
        Some(name) => name,
        None => match project_default {
            Some(name) => name,
            None => global_default,
        },
    }
}

/// The profiles that a manifest declares.
pub open spec fn declared_profiles(profiles: Option<Profiles<'_>>) -> Map<Seq<char>, Profile> {
    match profiles {
        Some(profiles) => profiles@,
        None => Map::empty(),
    }
}

/// The profile that a project with the profiles `declared` has under `name`:
/// the declared one, or else, for the two standard names, the standard
/// profile, which overrides nothing.
pub open spec fn effective_profile(declared: Map<Seq<char>, Profile>, name: Seq<char>) -> Option<
    Profile,
> {
    if declared.contains_key(name) {
        Some(declared[name])
    } else if name == DEV_PROFILE@ || name == RELEASE_PROFILE@ {
        Some(Profile { project_settings: ProjectSettings::unset() })
    } else {
        None
    }
}

/// Everything that a build needs to know, with nothing left open.
#[derive(Debug)]
pub struct BuildCtx<'a> {
    pub root_dir: PathBuf<RootDir>,
    pub src_dir: PathBuf<SrcDir>,
    pub target_dir: PathBuf<TargetDir>,
    pub build_dir: PathBuf<ProfileTargetDir>,
    pub start_file: PathBuf<StartFile>,
    pub profile_name: ProfileName<'a>,
    pub project_name: &'a str,
    pub tex_format: TexFormat,
    pub tex_engine: TexEngine,
    pub bib_engine: Option<BibEngine>,
    pub project_settings: ProjectSettings,
    pub dependency_paths: Vec<String>,
    pub bibliography: Option<&'a str>,
    pub verbosity: Verbosity,
}

/// The mathematical value of a [`BuildCtx`].
pub struct BuildCtxView {
    pub root_dir: Seq<char>,
    pub src_dir: Seq<char>,
    pub target_dir: Seq<char>,
    pub build_dir: Seq<char>,
    pub start_file: Seq<char>,
    pub profile_name: Seq<char>,
    pub project_name: Seq<char>,
    pub tex_format: TexFormat,
    pub tex_engine: TexEngine,
    pub bib_engine: Option<BibEngine>,
    pub project_settings: ProjectSettings,
    pub dependency_paths: Seq<Seq<char>>,
    pub bibliography: Option<Seq<char>>,
    pub verbosity: Verbosity,
}

impl<'a> View for BuildCtx<'a> {
    type V = BuildCtxView;

    open spec fn view(&self) -> BuildCtxView {
        BuildCtxView {
            root_dir: self.root_dir@,
            src_dir: self.src_dir@,
            target_dir: self.target_dir@,
            build_dir: self.build_dir@,
            start_file: self.start_file@,
            profile_name: self.profile_name@,
            project_name: self.project_name@,
            tex_format: self.tex_format,
            tex_engine: self.tex_engine,
            bib_engine: self.bib_engine,
            project_settings: self.project_settings,
            dependency_paths: texts(self.dependency_paths@),
            bibliography: crate::vars::slice_text(self.bibliography),
            verbosity: self.verbosity,
        }
    }
}

/// The path `parent` extended by the segment `segment`.
pub open spec fn child_path(parent: Seq<char>, segment: Seq<char>) -> Seq<char> {
    parent + seq![SEPARATOR] + segment
}

/// Whether an engine can be built for the pair `engine` and `format`.
pub open spec fn engine_supported(engine: TexEngine, format: TexFormat) -> bool {
    engine == TexEngine::Pdftex && format == TexFormat::Latex
}

/// What resolving the settings of `project` under the configuration `conf`
/// gives, for a caller that asks for the profile `requested`.
///
/// The profile is chosen by name and must exist. Its settings override those
/// of the project. The engine and the format that the project leaves open
/// come from the configuration, and there must be an engine for the two.
/// The directories follow from the root of the project, and the directories of
/// the dependencies are seen from there.
pub open spec fn resolved(
    conf: &LargoConfig<'_>,
    project: Project<'_>,
    requested: Option<ProfileName<'_>>,
    verbosity: Verbosity,
) -> Result<BuildCtxView, SettingsErrorView> {
    resolved_for(conf, project, name_view(requested), verbosity)
}

/// What resolving gives for a caller that asks for the profile of the name
/// `requested`.
pub open spec fn resolved_for(
    conf: &LargoConfig<'_>,
    project: Project<'_>,
    requested: Option<Seq<char>>,
    verbosity: Verbosity,
) -> Result<BuildCtxView, SettingsErrorView> {
    let head = project.config.project;
    let name = chosen_profile(requested, name_view(head.default_profile), conf.default_profile@);
    let engine = match head.system_settings.tex_engine {
        Some(engine) => engine,
        None => conf.default_tex_engine,
    };
    let format = match head.system_settings.tex_format {
        Some(format) => format,
        None => conf.default_tex_format,
    };
    let deps = project.config.dependencies.values();
    let target_dir = child_path(project.root@, TARGET_DIR@);
    let build_dir = child_path(target_dir, name);
    match effective_profile(declared_profiles(project.config.profiles), name) {
        None => Err(SettingsErrorView::ProfileNotFound(name)),
        Some(profile) => if !engine_supported(engine, format) {
            Err(SettingsErrorView::UnsupportedEngine { engine, format })
        } else {
            match first_unsupported(deps) {
                Some(i) => Err(
                    SettingsErrorView::UnsupportedDependency(project.config.dependencies.names()[i]),
                ),
                None => Ok(
                    BuildCtxView {
                        root_dir: project.root@,
                        src_dir: child_path(project.root@, SRC_DIR@),
                        target_dir,
                        build_dir,
                        start_file: child_path(build_dir, START_FILE@),
                        profile_name: name,
                        project_name: head.name@,
                        tex_format: format,
                        tex_engine: engine,
                        bib_engine: head.system_settings.bib_engine,
                        project_settings: head.project_settings.merged_right(
                            profile.project_settings,
                        ),
                        dependency_paths: resolved_paths(project.root@, paths_of(deps)),
                        bibliography: crate::vars::slice_text(conf.bib.bibliography),
                        verbosity,
                    },
                ),
            }
        },
    }
}

/// Resolves the settings of `project` under the configuration `conf` into
/// everything that a build needs to know.
pub fn resolve<'a>(
    conf: &'a LargoConfig<'a>,
    project: Project<'a>,
    requested: Option<ProfileName<'a>>,
    verbosity: Verbosity,
) -> (out: Result<BuildCtx<'a>, SettingsError>)
    ensures
        match out {
            Ok(ctx) => resolved(conf, project, requested, verbosity) == Ok::<
                BuildCtxView,
                SettingsErrorView,
            >(ctx@),
            Err(err) => resolved(conf, project, requested, verbosity) == Err::<
                BuildCtxView,
                SettingsErrorView,
            >(err@),
        },
{
    let Project { root, config } = project;
    let head = config.project;
    let profile_name = choose_profile(requested, head.default_profile, conf.default_profile);
    let mut profiles = match config.profiles {
        Some(profiles) => profiles,
        None => Profiles::new(),
    };
    let ghost declared = profiles@;
    profiles.merge_left(Profiles::standard());
    let found = profiles.select_profile(&profile_name);
    proof {
        let standard = Map::<Seq<char>, Profile>::empty().insert(
            DEV_PROFILE@,
            Profile { project_settings: ProjectSettings::unset() },
        ).insert(RELEASE_PROFILE@, Profile { project_settings: ProjectSettings::unset() });
        let name = profile_name@;
        assert(standard.contains_key(name) <==> (name == DEV_PROFILE@ || name == RELEASE_PROFILE@));
        if declared.contains_key(name) && standard.contains_key(name) {
            assert(standard[name] == Profile { project_settings: ProjectSettings::unset() });
            assert(declared[name].project_settings.merged_left(ProjectSettings::unset())
                == declared[name].project_settings);
        }
    }
    let profile = match found {
        Some(profile) => profile,
        None => {
            return Err(SettingsError::ProfileNotFound(String::from_str(profile_name.as_str())));
        },
    };
    let tex_engine = match head.system_settings.tex_engine {
        Some(engine) => engine,
        None => conf.default_tex_engine,
    };
    let tex_format = match head.system_settings.tex_format {
        Some(format) => format,
        None => conf.default_tex_format,
    };
    match (tex_engine, tex_format) {
        (TexEngine::Pdftex, TexFormat::Latex) => (),
        (_, _) => {
            return Err(SettingsError::UnsupportedEngine { engine: tex_engine, format: tex_format });
        },
    }
    let dependency_paths = resolve_dependency_paths(&root, &config.dependencies)?;
    let mut project_settings = head.project_settings;
    project_settings.merge_right(profile.project_settings);
    let src_dir: PathBuf<SrcDir> = root.clone().extend(());
    let target_dir: PathBuf<TargetDir> = root.clone().extend(());
    let build_dir: PathBuf<ProfileTargetDir> = target_dir.clone().extend(profile_name);
    let start_file: PathBuf<StartFile> = build_dir.clone().extend(());
    Ok(
        BuildCtx {
            root_dir: root,
            src_dir,
            target_dir,
            build_dir,
            start_file,
            profile_name,
            project_name: head.name,
            tex_format,
            tex_engine,
            bib_engine: head.system_settings.bib_engine,
            project_settings,
            dependency_paths,
            bibliography: conf.bib.bibliography,
            verbosity,
        },
    )
}


/// The command that runs the engine for the build `ctx` with the program
/// `program`: in the source directory, without stopping to ask, writing to
/// the build directory, with shell escape and SyncTeX as the settings say,
/// and starting from the start file. The engine is told not to wrap lines,
/// and to search the source directory and then the dependencies.
pub open spec fn engine_command(program: Seq<char>, ctx: BuildCtxView) -> InvocationView {
    InvocationView {
        program,
        args: pdflatex_arguments(
            None,
            Some(ctx.build_dir),
            ctx.project_settings.shell_escape == Some(true),
            ctx.project_settings.shell_escape == Some(false),
            if ctx.project_settings.synctex == Some(true) {
                Some(SYNCTEX_GZIPPED as int)
            } else {
                None
            },
        ).push(ctx.start_file),
        envs: seq![
            (MAX_PRINT_LINE@, decimal(UNWRAPPED_LINE_LENGTH as int)),
            (TEXINPUTS@, search_path(seq![ctx.src_dir] + ctx.dependency_paths)),
        ],
        current_dir: Some(ctx.src_dir),
    }
}

/// The engine for the build `ctx`, run by the program that `conf` names.
pub fn get_engine(conf: &LargoConfig, ctx: &BuildCtx) -> (out: Engine)
    ensures
        out.command()@ == engine_command(conf.build.execs.pdflatex@, ctx@),
{
    let use_synctex = match ctx.project_settings.synctex {
        Some(use_synctex) => use_synctex,
        None => false,
    };
    let builder = PdflatexBuilder::new(conf).with_src_dir(ctx.src_dir.clone()).with_build_dir(
        ctx.build_dir.clone(),
    ).with_start_file(ctx.start_file.clone()).with_verbosity(&ctx.verbosity).with_synctex(
        use_synctex,
    ).with_shell_escape(ctx.project_settings.shell_escape).with_dependencies(&ctx.dependency_paths);
    let out = builder.finish();
    proof {
        assert(Seq::<Seq<char>>::empty().push(ctx.src_dir@) + texts(ctx.dependency_paths@)
            =~= seq![ctx.src_dir@] + texts(ctx.dependency_paths@));
        assert(Seq::<(Seq<char>, Seq<char>)>::empty().push(
            (MAX_PRINT_LINE@, decimal(UNWRAPPED_LINE_LENGTH as int)),
        ).push((TEXINPUTS@, search_path(seq![ctx.src_dir@] + texts(ctx.dependency_paths@))))
            =~= engine_command(conf.build.execs.pdflatex@, ctx@).envs);
    }
    out
}

/// Collects what a build is asked to do.
#[derive(Debug)]
pub struct BuildBuilder<'a> {
    conf: &'a LargoConfig<'a>,
    project: Project<'a>,
    verbosity: Verbosity,
    /// The profile to build, if the caller names one.
    profile: Option<ProfileName<'a>>,
}

impl<'a> BuildBuilder<'a> {
    /// The configuration of the tool.
    pub closed spec fn conf(&self) -> &'a LargoConfig<'a> {
        self.conf
    }

    /// The project to build.
    pub closed spec fn project(&self) -> Project<'a> {
        self.project
    }

    /// How much of the engine's output is passed on.
    pub closed spec fn verbosity(&self) -> Verbosity {
        self.verbosity
    }

    /// The profile that the caller asks for.
    pub closed spec fn profile(&self) -> Option<ProfileName<'a>> {
        self.profile
    }

    /// A build of `project` that passes on nothing but what is recognised,
    /// in the profile that the project or the tool names.
    pub fn new(conf: &'a LargoConfig<'a>, project: Project<'a>) -> (out: Self)
        ensures
            out.conf() == conf,
            out.project() == project,
            out.verbosity() == Verbosity::Silent,
            out.profile() is None,
    {
        BuildBuilder { conf, project, verbosity: Verbosity::Silent, profile: None }
    }

    /// Asks for the profile `name`, or for none.
    pub fn with_profile(self, name: Option<ProfileName<'a>>) -> (out: Self)
        ensures
            out.conf() == self.conf(),
            out.project() == self.project(),
            out.verbosity() == self.verbosity(),
            out.profile() == name,
    {
        let mut out = self;
        out.profile = name;
        out
    }

    /// Asks for the profile `name`, or for none.
    pub fn with_profile_name(self, name: &Option<ProfileName<'a>>) -> (out: Self)
        ensures
            out.conf() == self.conf(),
            out.project() == self.project(),
            out.verbosity() == self.verbosity(),
            out.profile() == *name,
    {
        self.with_profile(*name)
    }

    /// Sets how much of the engine's output is passed on.
    pub fn with_verbosity(self, verbosity: Verbosity) -> (out: Self)
        ensures
            out.conf() == self.conf(),
            out.project() == self.project(),
            out.verbosity() == verbosity,
            out.profile() == self.profile(),
    {
        let mut out = self;
        out.verbosity = verbosity;
        out
    }

    /// Resolves the settings into everything that the build needs to know.
    pub fn try_finish_unpack(self) -> (out: Result<BuildCtx<'a>, SettingsError>)
        ensures
            match out {
                Ok(ctx) => resolved(self.conf(), self.project(), self.profile(), self.verbosity())
                    == Ok::<BuildCtxView, SettingsErrorView>(ctx@),
                Err(err) => resolved(self.conf(), self.project(), self.profile(), self.verbosity())
                    == Err::<BuildCtxView, SettingsErrorView>(err@),
            },
    {
        resolve(self.conf, self.project, self.profile, self.verbosity)
    }

    /// Resolves the settings and builds the command of the engine.
    pub fn try_finish(self) -> (out: Result<BuildRunner<'a>, SettingsError>)
        ensures
            match out {
                Ok(runner) => resolved(
                    self.conf(),
                    self.project(),
                    self.profile(),
                    self.verbosity(),
                ) == Ok::<BuildCtxView, SettingsErrorView>(runner.ctx@)
                    && runner.engine.command()@ == engine_command(
                    self.conf().build.execs.pdflatex@,
                    runner.ctx@,
                ),
                Err(err) => resolved(self.conf(), self.project(), self.profile(), self.verbosity())
                    == Err::<BuildCtxView, SettingsErrorView>(err@),
            },
    {
        let conf = self.conf;
        let ctx = self.try_finish_unpack()?;
        let engine = get_engine(conf, &ctx);
        Ok(BuildRunner { ctx, engine })
    }
}

/// A build that is ready to run: what it needs to know, and its engine.
#[derive(Debug)]
pub struct BuildRunner<'c> {
    pub ctx: BuildCtx<'c>,
    pub engine: Engine,
}


impl<'c> LargoInfo<'c> {
    /// The word that names the kind of the milestone.
    pub open spec fn name(&self) -> Seq<char> {
        match self {
            LargoInfo::Compiling { .. } => "Compiling"@,
            LargoInfo::Running { .. } => "Running"@,
            LargoInfo::Finished { .. } => "Finished"@,
        }
    }

    /// The word that names the kind of the milestone.
    pub fn info_name(&self) -> (out: &'static str)
        ensures
            out@ == self.name(),
    {
        match self {
            LargoInfo::Compiling { .. } => "Compiling",
            LargoInfo::Running { .. } => "Running",
            LargoInfo::Finished { .. } => "Finished",
        }
    }
}

/// Builds `project` as the command line asks: in the profile `profile`, if it
/// names one, and passing on every line of the engine if `verbose`.
pub fn try_to_build<'c>(
    conf: &'c LargoConfig<'c>,
    project: Project<'c>,
    profile: Option<&'c str>,
    verbose: bool,
) -> (out: Result<BuildRunner<'c>, SettingsError>)
    ensures
        ({
            let requested = match profile {
                Some(name) => Some(name@),
                None => None,
            };
            let verbosity = if verbose {
                Verbosity::Noisy
            } else {
                Verbosity::Silent
            };
            match out {
                Ok(runner) => resolved_for(conf, project, requested, verbosity) == Ok::<
                    BuildCtxView,
                    SettingsErrorView,
                >(runner.ctx@) && runner.engine.command()@ == engine_command(
                    conf.build.execs.pdflatex@,
                    runner.ctx@,
                ),
                Err(err) => resolved_for(conf, project, requested, verbosity) == Err::<
                    BuildCtxView,
                    SettingsErrorView,
                >(err@),
            }
        }),
{
    let profile = match profile {
        Some(name) => Some(ProfileName::new(name)),
        None => None,
    };
    let verbosity = if verbose {
        Verbosity::Noisy
    } else {
        Verbosity::Silent
    };
    BuildBuilder::new(conf, project).with_profile(profile).with_verbosity(verbosity).try_finish()
}

/// A milestone in the life of a build.
#[derive(Debug)]
pub enum LargoInfo<'c> {
    /// The build of the project has begun.
    Compiling { project: &'c str, version: Option<&'c str>, root: String },
    /// The engine runs.
    Running { executable: String },
    /// The build is over.
    Finished { profile_name: ProfileName<'c>, duration: Duration },
}

/// The mathematical value of a [`LargoInfo`].
pub enum LargoInfoView {
    Compiling { project: Seq<char>, version: Option<Seq<char>>, root: Seq<char> },
    Running { executable: Seq<char> },
    Finished { profile_name: Seq<char>, duration: Duration },
}

impl<'c> View for LargoInfo<'c> {
    type V = LargoInfoView;

    open spec fn view(&self) -> LargoInfoView {
        match self {
            LargoInfo::Compiling { project, version, root } => LargoInfoView::Compiling {
                project: project@,
                version: crate::vars::slice_text(*version),
                root: root@,
            },
            LargoInfo::Running { executable } => LargoInfoView::Running { executable: executable@ },
            LargoInfo::Finished { profile_name, duration } => LargoInfoView::Finished {
                profile_name: profile_name@,
                duration: *duration,
            },
        }
    }
}

/// What a build reports while it runs.
#[derive(Debug)]
pub enum BuildInfo<'c> {
    /// A milestone of the build itself.
    LargoInfo(LargoInfo<'c>),
    /// Something that the engine's output was recognised to say.
    EngineInfo(EngineInfo),
    /// A line of the engine's output, as the engine wrote it.
    EngineLine(String),
}

/// The mathematical value of a [`BuildInfo`].
pub enum BuildInfoView {
    LargoInfo(LargoInfoView),
    EngineInfo(EngineInfoView),
    EngineLine(Seq<char>),
}

impl<'c> View for BuildInfo<'c> {
    type V = BuildInfoView;

    open spec fn view(&self) -> BuildInfoView {
        match self {
            BuildInfo::LargoInfo(info) => BuildInfoView::LargoInfo(info@),
            BuildInfo::EngineInfo(info) => BuildInfoView::EngineInfo(info@),
            BuildInfo::EngineLine(line) => BuildInfoView::EngineLine(line@),
        }
    }
}

impl<'c> From<LargoInfo<'c>> for BuildInfo<'c> {
    fn from(info: LargoInfo<'c>) -> (out: Self) {
        BuildInfo::LargoInfo(info)
    }
}

impl<'c> vstd::std_specs::convert::FromSpecImpl<LargoInfo<'c>> for BuildInfo<'c> {
    open spec fn obeys_from_spec() -> bool {
        true
    }

    open spec fn from_spec(info: LargoInfo<'c>) -> Self {
        BuildInfo::LargoInfo(info)
    }
}

impl<'c> From<EngineInfo> for BuildInfo<'c> {
    fn from(info: EngineInfo) -> (out: Self) {
        BuildInfo::EngineInfo(info)
    }
}

impl<'c> vstd::std_specs::convert::FromSpecImpl<EngineInfo> for BuildInfo<'c> {
    open spec fn obeys_from_spec() -> bool {
        true
    }

    open spec fn from_spec(info: EngineInfo) -> Self {
        BuildInfo::EngineInfo(info)
    }
}

/// Why a build that was ready to run came to nothing.
#[derive(Debug)]
pub enum BuildError {
    /// The engine could not be started.
    Spawn(String),
}

/// The mathematical value of a [`BuildError`].
pub enum BuildErrorView {
    Spawn(Seq<char>),
}

impl View for BuildError {
    type V = BuildErrorView;

    open spec fn view(&self) -> BuildErrorView {
        match self {
            BuildError::Spawn(reason) => BuildErrorView::Spawn(reason@),
        }
    }
}

/// Where a running build stands.
#[derive(Debug, Clone, Copy, PartialEq, Eq, Structural)]
pub enum BuildState {
    /// Nothing has happened yet.
    Init,
    /// The engine is to be started.
    StartEngine,
    /// The engine runs, and its output is read line by line.
    EngineRunning,
    /// The engine's output has ended.
    Finished,
    /// Nothing more happens.
    Exit,
}

/// What has to happen outside before the build can take its next step.
#[derive(Debug, Clone, Copy, PartialEq, Eq, Structural)]
pub enum Request {
    /// Nothing: the next step needs no news.
    Nothing,
    /// The engine has to be started.
    Spawn,
    /// The next line of the engine's output has to be read.
    Line,
    /// The time since the build began has to be measured.
    Elapsed,
}

/// The news from outside that a step of the build works on.
#[derive(Debug)]
pub enum EngineEvent {
    /// No news.
    Nothing,
    /// The engine has started.
    Spawned,
    /// The engine could not be started.
    SpawnFailed(String),
    /// The engine has written a line.
    Line(String),
    /// The engine's output has ended.
    Closed,
    /// This much time has passed since the build began.
    Elapsed(Duration),
}

/// The mathematical value of an [`EngineEvent`].
pub enum EngineEventView {
    Nothing,
    Spawned,
    SpawnFailed(Seq<char>),
    Line(Seq<char>),
    Closed,
    Elapsed(Duration),
}

impl View for EngineEvent {
    type V = EngineEventView;

    open spec fn view(&self) -> EngineEventView {
        match self {
            EngineEvent::Nothing => EngineEventView::Nothing,
            EngineEvent::Spawned => EngineEventView::Spawned,
            EngineEvent::SpawnFailed(reason) => EngineEventView::SpawnFailed(reason@),
            EngineEvent::Line(line) => EngineEventView::Line(line@),
            EngineEvent::Closed => EngineEventView::Closed,
            EngineEvent::Elapsed(duration) => EngineEventView::Elapsed(*duration),
        }
    }
}

/// What one step of a build gives its consumer.
#[derive(Debug)]
pub enum BuildPoll<'b> {
    /// The next item of the stream, or its end.
    Ready(Option<Result<BuildInfo<'b>, BuildError>>),
    /// Nothing yet: the consumer is to see to the request and to ask again.
    Pending,
}

/// One item of the stream of a build, as a mathematical value.
pub type ItemView = Result<BuildInfoView, BuildErrorView>;

/// The mathematical value of a [`BuildPoll`].
pub enum BuildPollView {
    Ready(Option<ItemView>),
    Pending,
}

/// The view of one item of the stream.
pub open spec fn item_view(item: Result<BuildInfo<'_>, BuildError>) -> ItemView {
    match item {
        Ok(info) => Ok(info@),
        Err(err) => Err(err@),
    }
}

impl<'b> View for BuildPoll<'b> {
    type V = BuildPollView;

    open spec fn view(&self) -> BuildPollView {
        match self {
            BuildPoll::Ready(Some(item)) => BuildPollView::Ready(Some(item_view(*item))),
            BuildPoll::Ready(None) => BuildPollView::Ready(None),
            BuildPoll::Pending => BuildPollView::Pending,
        }
    }
}

/// What has to happen outside before a build in the state `state` can take
/// its next step.
pub open spec fn requested(state: BuildState) -> Request {
    match state {
        BuildState::Init => Request::Nothing,
        BuildState::StartEngine => Request::Spawn,
        BuildState::EngineRunning => Request::Line,
        BuildState::Finished => Request::Elapsed,
        BuildState::Exit => Request::Nothing,
    }
}

/// The state that follows `state` when the news is `event`.
pub open spec fn next_state(state: BuildState, event: EngineEventView) -> BuildState {
    match state {
        BuildState::Init => BuildState::StartEngine,
        BuildState::StartEngine => match event {
            EngineEventView::Spawned => BuildState::EngineRunning,
            EngineEventView::SpawnFailed(_) => BuildState::Exit,
            _ => BuildState::StartEngine,
        },
        BuildState::EngineRunning => match event {
            EngineEventView::Closed => BuildState::Finished,
            _ => BuildState::EngineRunning,
        },
        BuildState::Finished => match event {
            EngineEventView::Elapsed(_) => BuildState::Exit,
            _ => BuildState::Finished,
        },
        BuildState::Exit => BuildState::Exit,
    }
}

/// What a line of the engine's output gives the consumer: at the noisy
/// verbosity the line itself, and else what it is recognised to say, if
/// anything.
pub open spec fn line_item(verbosity: Verbosity, line: Seq<char>) -> Option<BuildInfoView> {
    if verbosity == Verbosity::Noisy {
        Some(BuildInfoView::EngineLine(line))
    } else {
        match classified(line) {
            Some(info) => Some(BuildInfoView::EngineInfo(info)),
            None => None,
        }
    }
}

/// What a build of `ctx` with the program `program` gives its consumer when
/// it is in the state `state` and the news is `event`.
pub open spec fn polled(
    state: BuildState,
    ctx: BuildCtxView,
    program: Seq<char>,
    event: EngineEventView,
) -> BuildPollView {
    match state {
        BuildState::Init => BuildPollView::Ready(
            Some(
                Ok(
                    BuildInfoView::LargoInfo(
                        LargoInfoView::Compiling {
                            project: ctx.project_name,
                            version: None,
                            root: ctx.root_dir,
                        },
                    ),
                ),
            ),
        ),
        BuildState::StartEngine => match event {
            EngineEventView::Spawned => BuildPollView::Ready(
                Some(Ok(BuildInfoView::LargoInfo(LargoInfoView::Running { executable: program }))),
            ),
            EngineEventView::SpawnFailed(reason) => BuildPollView::Ready(
                Some(Err(BuildErrorView::Spawn(reason))),
            ),
            _ => BuildPollView::Pending,
        },
        BuildState::EngineRunning => match event {
            EngineEventView::Line(line) => match line_item(ctx.verbosity, line) {
                Some(info) => BuildPollView::Ready(Some(Ok(info))),
                None => BuildPollView::Pending,
            },
            _ => BuildPollView::Pending,
        },
        BuildState::Finished => match event {
            EngineEventView::Elapsed(duration) => BuildPollView::Ready(
                Some(
                    Ok(
                        BuildInfoView::LargoInfo(
                            LargoInfoView::Finished { profile_name: ctx.profile_name, duration },
                        ),
                    ),
                ),
            ),
            _ => BuildPollView::Pending,
        },
        BuildState::Exit => BuildPollView::Ready(None),
    }
}

/// The stream of what a build reports. It is pulled: nothing happens until
/// the consumer asks for the next item, and what has to happen outside (the
/// engine is started, a line is read, the time is taken) is the consumer's
/// to do, on request.
#[derive(Debug)]
pub struct BuildOutput<'b> {
    ctx: &'b BuildCtx<'b>,
    engine: &'b Engine,
    state: BuildState,
}

impl<'b> BuildOutput<'b> {
    /// What the build knows.
    pub closed spec fn ctx(&self) -> &'b BuildCtx<'b> {
        self.ctx
    }

    /// The engine of the build.
    pub closed spec fn engine(&self) -> &'b Engine {
        self.engine
    }

    /// Where the build stands.
    pub closed spec fn state(&self) -> BuildState {
        self.state
    }

    /// What has to happen outside before the next step.
    pub fn request(&self) -> (out: Request)
        ensures
            out == requested(self.state()),
    {
        match self.state {
            BuildState::Init => Request::Nothing,
            BuildState::StartEngine => Request::Spawn,
            BuildState::EngineRunning => Request::Line,
            BuildState::Finished => Request::Elapsed,
            BuildState::Exit => Request::Nothing,
        }
    }

    /// Takes one step: moves to the next state and gives the consumer what
    /// that step yields.
    pub fn poll_next(&mut self, event: EngineEvent) -> (out: BuildPoll<'b>)
        ensures
            final(self).ctx() == old(self).ctx(),
            final(self).engine() == old(self).engine(),
            final(self).state() == next_state(old(self).state(), event@),
            out@ == polled(
                old(self).state(),
                old(self).ctx()@,
                old(self).engine().command()@.program,
                event@,
            ),
    {
        match self.state {
            BuildState::Init => {
                let info = LargoInfo::Compiling {
                    project: self.ctx.project_name,
                    version: None,
                    root: self.ctx.root_dir.to_path_string(),
                };
                self.state = BuildState::StartEngine;
                BuildPoll::Ready(Some(Ok(BuildInfo::LargoInfo(info))))
            },
            BuildState::StartEngine => match event {
                EngineEvent::Spawned => {
                    self.state = BuildState::EngineRunning;
                    let info = LargoInfo::Running {
                        executable: self.engine.inner_cmd().program.clone(),
                    };
                    BuildPoll::Ready(Some(Ok(BuildInfo::LargoInfo(info))))
                },
                EngineEvent::SpawnFailed(reason) => {
                    self.state = BuildState::Exit;
                    BuildPoll::Ready(Some(Err(BuildError::Spawn(reason))))
                },
                _ => BuildPoll::Pending,
            },
            BuildState::EngineRunning => match event {
                EngineEvent::Line(line) => {
                    match self.ctx.verbosity {
                        Verbosity::Noisy => BuildPoll::Ready(Some(Ok(BuildInfo::EngineLine(line)))),
                        _ => match classify(line.as_str()) {
                            Some(info) => BuildPoll::Ready(Some(Ok(BuildInfo::EngineInfo(info)))),
                            None => BuildPoll::Pending,
                        },
                    }
                },
                EngineEvent::Closed => {
                    self.state = BuildState::Finished;
                    BuildPoll::Pending
                },
                _ => BuildPoll::Pending,
            },
            BuildState::Finished => match event {
                EngineEvent::Elapsed(duration) => {
                    self.state = BuildState::Exit;
                    let info = LargoInfo::Finished {
                        profile_name: self.ctx.profile_name,
                        duration,
                    };
                    BuildPoll::Ready(Some(Ok(BuildInfo::LargoInfo(info))))
                },
                _ => BuildPoll::Pending,
            },
            BuildState::Exit => BuildPoll::Ready(None),
        }
    }
}

/// The views of the items `items`, in order.
pub open spec fn item_views(items: Seq<Result<BuildInfo<'_>, BuildError>>) -> Seq<ItemView> {
    Seq::new(items.len(), |i: int| item_view(items[i]))
}

/// What the lines `lines` of the engine's output give the consumer, in the
/// order of the lines.
pub open spec fn line_items(verbosity: Verbosity, lines: Seq<Seq<char>>) -> Seq<ItemView>
    decreases lines.len(),
{
    if lines.len() == 0 {
        Seq::empty()
    } else {
        line_items(verbosity, lines.drop_last()) + (match line_item(verbosity, lines.last()) {
            Some(info) => seq![Ok(info)],
            None => Seq::empty(),
        })
    }
}

/// The item that opens every build.
pub open spec fn compiling_item(ctx: BuildCtxView) -> ItemView {
    Ok(
        BuildInfoView::LargoInfo(
            LargoInfoView::Compiling { project: ctx.project_name, version: None, root: ctx.root_dir },
        ),
    )
}

/// The item that says that the engine runs.
pub open spec fn running_item(program: Seq<char>) -> ItemView {
    Ok(BuildInfoView::LargoInfo(LargoInfoView::Running { executable: program }))
}

/// The item that closes a build whose engine ran.
pub open spec fn finished_item(ctx: BuildCtxView, duration: Duration) -> ItemView {
    Ok(
        BuildInfoView::LargoInfo(
            LargoInfoView::Finished { profile_name: ctx.profile_name, duration },
        ),
    )
}

/// Everything that a build of `ctx` reports, from its first item to its last,
/// when the engine starts or fails to (`spawn_failure`), writes the lines
/// `lines`, and the build takes the time `duration`.
pub open spec fn build_trace(
    ctx: BuildCtxView,
    program: Seq<char>,
    spawn_failure: Option<Seq<char>>,
    lines: Seq<Seq<char>>,
    duration: Duration,
) -> Seq<ItemView> {
    match spawn_failure {
        Some(reason) => seq![compiling_item(ctx), Err(BuildErrorView::Spawn(reason))],
        None => seq![compiling_item(ctx), running_item(program)] + line_items(
            ctx.verbosity,
            lines,
        ) + seq![finished_item(ctx, duration)],
    }
}

/// Whether an item is something that the engine wrote.
pub open spec fn is_engine_item(item: ItemView) -> bool {
    match item {
        Ok(BuildInfoView::EngineInfo(_)) => true,
        Ok(BuildInfoView::EngineLine(_)) => true,
        _ => false,
    }
}

/// Every item that the lines of the engine give is something that the engine
/// wrote.
pub proof fn lemma_line_items_are_engine_items(verbosity: Verbosity, lines: Seq<Seq<char>>)
    ensures
        forall|i: int|
            0 <= i < line_items(verbosity, lines).len() ==> is_engine_item(
                #[trigger] line_items(verbosity, lines)[i],
            ),
    decreases lines.len(),
{
    if lines.len() > 0 {
        lemma_line_items_are_engine_items(verbosity, lines.drop_last());
        let earlier = line_items(verbosity, lines.drop_last());
        let all = line_items(verbosity, lines);
        assert forall|i: int| 0 <= i < all.len() implies is_engine_item(#[trigger] all[i]) by {
            if i < earlier.len() {
                assert(all[i] == earlier[i]);
            }
        }
    }
}

/// What the engine wrote is reported in the order in which it wrote it: the
/// items for the first lines come first, whatever follows.
pub proof fn lemma_line_items_keep_order(
    verbosity: Verbosity,
    first: Seq<Seq<char>>,
    rest: Seq<Seq<char>>,
)
    ensures
        line_items(verbosity, first + rest) == line_items(verbosity, first) + line_items(
            verbosity,
            rest,
        ),
    decreases rest.len(),
{
    if rest.len() == 0 {
        assert(first + rest =~= first);
        assert(line_items(verbosity, first) + line_items(verbosity, rest) =~= line_items(
            verbosity,
            first,
        ));
    } else {
        lemma_line_items_keep_order(verbosity, first, rest.drop_last());
        assert((first + rest).drop_last() =~= first + rest.drop_last());
        assert((first + rest).last() == rest.last());
        let tail = match line_item(verbosity, rest.last()) {
            Some(info) => seq![Ok::<BuildInfoView, BuildErrorView>(info)],
            None => Seq::empty(),
        };
        assert(line_items(verbosity, first) + line_items(verbosity, rest.drop_last()) + tail
            =~= line_items(verbosity, first) + (line_items(verbosity, rest.drop_last()) + tail));
    }
}

/// The order of what a build reports: it opens with the start of the build.
/// Where the engine cannot be started, the failure follows and nothing
/// after it. Where it can, the next item says that the engine runs, the last
/// one says that the build is over, in which profile and after what time, and
/// everything in between is something that the engine wrote.
pub proof fn lemma_build_trace_order(
    ctx: BuildCtxView,
    program: Seq<char>,
    spawn_failure: Option<Seq<char>>,
    lines: Seq<Seq<char>>,
    duration: Duration,
)
    ensures
        ({
            let trace = build_trace(ctx, program, spawn_failure, lines, duration);
            &&& trace.len() >= 2
            &&& trace[0] == compiling_item(ctx)
            &&& match spawn_failure {
                Some(reason) => trace.len() == 2 && trace[1] == Err::<
                    BuildInfoView,
                    BuildErrorView,
                >(BuildErrorView::Spawn(reason)),
                None => {
                    &&& trace.len() >= 3
                    &&& trace[1] == running_item(program)
                    &&& trace.last() == finished_item(ctx, duration)
                    &&& forall|i: int| 2 <= i < trace.len() - 1 ==> is_engine_item(#[trigger] trace[i])
                },
            }
        }),
{
    let trace = build_trace(ctx, program, spawn_failure, lines, duration);
    if spawn_failure is None {
        let between = line_items(ctx.verbosity, lines);
        lemma_line_items_are_engine_items(ctx.verbosity, lines);
        assert forall|i: int| 2 <= i < trace.len() - 1 implies is_engine_item(
            #[trigger] trace[i],
        ) by {
            assert(trace[i] == between[i - 2]);
        }
    }
}

impl<'b> BuildOutput<'b> {
    /// Runs a build from its first step to its last for a consumer that has
    /// the news at hand: whether the engine started (`spawned`), the lines that
    /// it wrote, and the time that the build took. Returns everything that the
    /// build reports, in order.
    pub fn collect(
        self,
        spawned: Result<(), String>,
        lines: &Vec<String>,
        elapsed: Duration,
    ) -> (out: Vec<Result<BuildInfo<'b>, BuildError>>)
        requires
            self.state() == BuildState::Init,
        ensures
            item_views(out@) == build_trace(
                self.ctx()@,
                self.engine().command()@.program,
                match spawned {
                    Ok(_) => None,
                    Err(reason) => Some(reason@),
                },
                texts(lines@),
                elapsed,
            ),
    {
        let mut stream = self;
        let ghost ctx = self.ctx()@;
        let ghost program = self.engine().command()@.program;
        let mut items: Vec<Result<BuildInfo<'b>, BuildError>> = Vec::new();
        match stream.poll_next(EngineEvent::Nothing) {
            BuildPoll::Ready(Some(item)) => {
                items.push(item);
            },
            _ => {},
        }
        assert(item_views(items@) =~= seq![compiling_item(ctx)]);
        match spawned {
            Err(reason) => {
                match stream.poll_next(EngineEvent::SpawnFailed(reason)) {
                    BuildPoll::Ready(Some(item)) => {
                        items.push(item);
                    },
                    _ => {},
                }
                assert(item_views(items@) =~= seq![
                    compiling_item(ctx),
                    Err(BuildErrorView::Spawn(reason@)),
                ]);
                return items;
            },
            Ok(_) => {
                match stream.poll_next(EngineEvent::Spawned) {
                    BuildPoll::Ready(Some(item)) => {
                        items.push(item);
                    },
                    _ => {},
                }
            },
        }
        let ghost head = seq![compiling_item(ctx), running_item(program)];
        assert(item_views(items@) =~= head);
        assert(texts(lines@).take(0) =~= Seq::<Seq<char>>::empty());
        assert(head + line_items(ctx.verbosity, Seq::<Seq<char>>::empty()) =~= head);
        let mut i: usize = 0;
        while i < lines.len()
            invariant
                i <= lines@.len(),
                stream.state() == BuildState::EngineRunning,
                stream.ctx()@ == ctx,
                stream.engine().command()@.program == program,
                head == seq![compiling_item(ctx), running_item(program)],
                item_views(items@) == head + line_items(
                    ctx.verbosity,
                    texts(lines@).take(i as int),
                ),
            decreases lines@.len() - i,
        {
            let ghost before = items@;
            proof {
                assert(texts(lines@).take(i + 1).drop_last() =~= texts(lines@).take(i as int));
                assert(texts(lines@).take(i + 1).last() == lines@[i as int]@);
            }
            match stream.poll_next(EngineEvent::Line(lines[i].clone())) {
                BuildPoll::Ready(Some(item)) => {
                    items.push(item);
                    assert(item_views(items@) =~= item_views(before).push(item_view(item)));
                },
                _ => {},
            }
            assert(item_views(items@) =~= head + line_items(
                ctx.verbosity,
                texts(lines@).take(i + 1),
            ));
            i += 1;
        }
        assert(texts(lines@).take(i as int) =~= texts(lines@));
        stream.poll_next(EngineEvent::Closed);
        let ghost before = items@;
        match stream.poll_next(EngineEvent::Elapsed(elapsed)) {
            BuildPoll::Ready(Some(item)) => {
                items.push(item);
                assert(item_views(items@) =~= item_views(before).push(item_view(item)));
            },
            _ => {},
        }
        assert(item_views(items@) =~= head + line_items(ctx.verbosity, texts(lines@)) + seq![
            finished_item(ctx, elapsed),
        ]);
        items
    }
}

/// The definitions of the variables as the start file holds them: the
/// profile, the directory that the build writes to, and the bibliography if
/// there is one.
pub open spec fn largo_vars(ctx: BuildCtxView) -> Seq<char> {
    crate::vars::definition("Profile"@, ctx.profile_name) + crate::vars::definition(
        "OutputDirectory"@,
        ctx.build_dir,
    ) + (match ctx.bibliography {
        Some(bib) => crate::vars::definition("Bibliography"@, bib),
        None => Seq::empty(),
    })
}

/// What the start file holds: the definitions of the variables, and then the
/// request to read the main file of the project.
pub open spec fn start_file_text(ctx: BuildCtxView) -> Seq<char> {
    largo_vars(ctx) + "\\input{"@ + crate::dirs::MAIN_FILE@ + seq!['}']
}

impl<'c> BuildRunner<'c> {
    /// Writes the definitions of the variables of this build to `w`.
    pub fn write_largo_vars(&self, w: &mut String)
        ensures
            final(w)@ == old(w)@ + largo_vars(self.ctx@),
    {
        crate::vars::push_definition(w, "Profile", self.ctx.profile_name.as_str());
        let dir = self.ctx.build_dir.to_path_string();
        crate::vars::push_definition(w, "OutputDirectory", dir.as_str());
        if let Some(bib) = self.ctx.bibliography {
            crate::vars::push_definition(w, "Bibliography", bib);
        }
        assert(w@ =~= old(w)@ + largo_vars(self.ctx@));
    }

    /// Writes to `w` what the start file of this build holds.
    pub fn write_start_file(&self, w: &mut String)
        ensures
            final(w)@ == old(w)@ + start_file_text(self.ctx@),
    {
        self.write_largo_vars(w);
        w.append("\\input{");
        w.append(crate::dirs::MAIN_FILE);
        w.push('}');
        assert(w@ =~= old(w)@ + start_file_text(self.ctx@));
    }

    /// The stream of what this build reports, before its first step.
    pub fn run<'a>(&'a self) -> (out: BuildOutput<'a>)
        ensures
            out.ctx() == &self.ctx,
            out.engine() == &self.engine,
            out.state() == BuildState::Init,
    {
        BuildOutput { ctx: &self.ctx, engine: &self.engine, state: BuildState::Init }
    }
}

} // verus!
