//! The layout of a project on disk, as a typed directory schema.

use crate::conf::{
    ClassConfig, Dependencies, PackageConfig, ProfileName, ProjectConfig, ProjectConfigHead,
    ProjectSettings, SystemSettings,
};
use crate::files::packages::{
    template_text, ClassTemplate, PackageDate, PackageKind, PackageName, PackageTemplate,
    PackageTexFormat,
};
use crate::files::{GITIGNORE as GITIGNORE_TEXT, MAIN_LATEX};
use crate::text::{from_chars, to_chars};
use crate::typedir::{AsPath, Child, Extend, Node, PathBuf, SEPARATOR};
use std::marker::PhantomData;
use vstd::prelude::*;
use vstd::string::StringExecFns;

verus! {

pub const SRC_DIR: &'static str = "src";

pub const MAIN_FILE: &'static str = "main.tex";

pub const START_FILE: &'static str = "_start.tex";

pub const TARGET_DIR: &'static str = "target";

pub const CACHEDIR_TAG_FILE: &'static str = "CACHEDIR.TAG";

pub const BUILD_DIR: &'static str = "build";

pub const DEPS_DIR: &'static str = "deps";

pub const PROJECT_CONFIG_FILE: &'static str = "largo.toml";

pub const LOCK_FILE: &'static str = "largo.lock";

pub const GITIGNORE: &'static str = ".gitignore";

pub const GIT_DIR: &'static str = ".git";

pub const CONFIG_DIR: &'static str = ".largo";

pub const LARGO_CONFIG_FILE: &'static str = "config.toml";

/// The root of a project.
#[derive(Debug, Clone, Copy)]
pub struct RootDir(());

impl Node for RootDir {

}

/// The project manifest.
#[derive(Debug, Clone, Copy)]
pub struct ProjectConfigFile(());

impl Node for ProjectConfigFile {

}

impl Child<RootDir, ()> for ProjectConfigFile {
    open spec fn segment(l: &()) -> Seq<char> {
        PROJECT_CONFIG_FILE@
    }

    fn link<'a>(_l: &'a ()) -> (s: &'a str) {
        PROJECT_CONFIG_FILE
    }
}

/// The lock file of a project.
#[derive(Debug, Clone, Copy)]
pub struct LockFile(());

impl Node for LockFile {

}

impl Child<RootDir, ()> for LockFile {
    open spec fn segment(l: &()) -> Seq<char> {
        LOCK_FILE@
    }

    fn link<'a>(_l: &'a ()) -> (s: &'a str) {
        LOCK_FILE
    }
}

/// The directory that holds the sources of a project.
#[derive(Debug, Clone, Copy)]
pub struct SrcDir(());

impl Node for SrcDir {

}

impl Child<RootDir, ()> for SrcDir {
    open spec fn segment(l: &()) -> Seq<char> {
        SRC_DIR@
    }

    fn link<'a>(_l: &'a ()) -> (s: &'a str) {
        SRC_DIR
    }
}

/// A file in the source directory, linked by its name.
#[derive(Debug, Clone, Copy)]
pub struct SrcFile(());

impl Node for SrcFile {

}

impl<'s> Child<SrcDir, &'s str> for SrcFile {
    open spec fn segment(l: &&'s str) -> Seq<char> {
        (*l)@
    }

    fn link<'a>(l: &'a &'s str) -> (s: &'a str) {
        *l
    }
}

/// The directory that holds everything a build writes.
#[derive(Debug, Clone, Copy)]
pub struct TargetDir(());

impl Node for TargetDir {

}

impl Child<RootDir, ()> for TargetDir {
    open spec fn segment(l: &()) -> Seq<char> {
        TARGET_DIR@
    }

    fn link<'a>(_l: &'a ()) -> (s: &'a str) {
        TARGET_DIR
    }
}

/// The tag that marks the target directory as a cache.
#[derive(Debug, Clone, Copy)]
pub struct CachedirTagFile(());

impl Node for CachedirTagFile {

}

impl Child<TargetDir, ()> for CachedirTagFile {
    open spec fn segment(l: &()) -> Seq<char> {
        CACHEDIR_TAG_FILE@
    }

    fn link<'a>(_l: &'a ()) -> (s: &'a str) {
        CACHEDIR_TAG_FILE
    }
}

/// The build directory of one profile, linked by the profile's name.
#[derive(Debug, Clone, Copy)]
pub struct ProfileTargetDir(());

impl Node for ProfileTargetDir {

}

impl<'c> Child<TargetDir, ProfileName<'c>> for ProfileTargetDir {
    open spec fn segment(l: &ProfileName<'c>) -> Seq<char> {
        l@
    }

    fn link<'a>(l: &'a ProfileName<'c>) -> (s: &'a str) {
        l.as_str()
    }
}

/// The directory for the dependencies of one profile.
#[derive(Debug, Clone, Copy)]
pub struct DepsDir(());

impl Node for DepsDir {

}

impl Child<ProfileTargetDir, ()> for DepsDir {
    open spec fn segment(l: &()) -> Seq<char> {
        DEPS_DIR@
    }

    fn link<'a>(_l: &'a ()) -> (s: &'a str) {
        DEPS_DIR
    }
}

/// The directory for intermediate files of one profile.
#[derive(Debug, Clone, Copy)]
pub struct BuildDir(());

impl Node for BuildDir {

}

impl Child<ProfileTargetDir, ()> for BuildDir {
    open spec fn segment(l: &()) -> Seq<char> {
        BUILD_DIR@
    }

    fn link<'a>(_l: &'a ()) -> (s: &'a str) {
        BUILD_DIR
    }
}

/// The generated file that the engine starts from.
#[derive(Debug, Clone, Copy)]
pub struct StartFile(());

impl Node for StartFile {

}

impl Child<ProfileTargetDir, ()> for StartFile {
    open spec fn segment(l: &()) -> Seq<char> {
        START_FILE@
    }

    fn link<'a>(_l: &'a ()) -> (s: &'a str) {
        START_FILE
    }
}

/// The git directory of a project.
#[derive(Debug, Clone, Copy)]
pub struct GitDir(());

impl Node for GitDir {

}

impl Child<RootDir, ()> for GitDir {
    open spec fn segment(l: &()) -> Seq<char> {
        GIT_DIR@
    }

    fn link<'a>(_l: &'a ()) -> (s: &'a str) {
        GIT_DIR
    }
}

/// The ignore file of a project.
#[derive(Debug, Clone, Copy)]
pub struct Gitignore(());

impl Node for Gitignore {

}

impl Child<RootDir, ()> for Gitignore {
    open spec fn segment(l: &()) -> Seq<char> {
        GITIGNORE@
    }

    fn link<'a>(_l: &'a ()) -> (s: &'a str) {
        GITIGNORE
    }
}

/// The home directory of the user.
#[derive(Debug, Clone, Copy)]
pub struct HomeDir(());

impl Node for HomeDir {

}

/// The directory of the global configuration.
#[derive(Debug, Clone, Copy)]
pub struct LargoConfigDir(());

impl Node for LargoConfigDir {

}

impl Child<HomeDir, ()> for LargoConfigDir {
    open spec fn segment(l: &()) -> Seq<char> {
        CONFIG_DIR@
    }

    fn link<'a>(_l: &'a ()) -> (s: &'a str) {
        CONFIG_DIR
    }
}

/// The global configuration file.
#[derive(Debug, Clone, Copy)]
pub struct LargoConfigFile(());

impl Node for LargoConfigFile {

}

impl Child<LargoConfigDir, ()> for LargoConfigFile {
    open spec fn segment(l: &()) -> Seq<char> {
        LARGO_CONFIG_FILE@
    }

    fn link<'a>(_l: &'a ()) -> (s: &'a str) {
        LARGO_CONFIG_FILE
    }
}

/// The contents of a file, tagged with the node that the file stands at.
#[derive(Debug)]
pub struct ContentString<N: Node>(String, PhantomData<N>);

impl<N: Node> View for ContentString<N> {
    type V = Seq<char>;

    closed spec fn view(&self) -> Seq<char> {
        self.0@
    }
}

impl<N: Node> ContentString<N> {
    /// The contents `content`, read from the file at `_path`.
    pub fn new<P: AsPath<N>>(_path: &P, content: String) -> (out: Self)
        ensures
            out@ == content@,
    {
        ContentString(content, PhantomData)
    }

    /// The contents as text.
    pub fn as_str(&self) -> (out: &str)
        ensures
            out@ == self@,
    {
        self.0.as_str()
    }
}

/// What a new project is to hold.
#[derive(Debug, Clone, Copy, PartialEq, Eq, Structural)]
pub enum ProjectKind {
    Package,
    Class,
    Document,
}

impl ProjectKind {
    /// The kind that the switches of the command line ask for. A document
    /// comes first, then a package, then a class. One of the three must be
    /// set.
    pub fn from_flags(doc: bool, package: bool, class: bool) -> (out: Self)
        requires
            doc || package || class,
        ensures
            out == (if doc {
                ProjectKind::Document
            } else if package {
                ProjectKind::Package
            } else {
                ProjectKind::Class
            }),
    {
        if doc {
            ProjectKind::Document
        } else if package {
            ProjectKind::Package
        } else {
            ProjectKind::Class
        }
    }

    /// The name of the file that a project of this kind starts with.
    pub open spec fn src_file(&self) -> Seq<char> {
        match self {
            ProjectKind::Package => "main.sty"@,
            ProjectKind::Class => "main.cls"@,
            ProjectKind::Document => MAIN_FILE@,
        }
    }

    /// The name of the file that a project of this kind starts with.
    pub fn src_file_name(&self) -> (out: &'static str)
        ensures
            out@ == self.src_file(),
    {
        match self {
            ProjectKind::Package => "main.sty",
            ProjectKind::Class => "main.cls",
            ProjectKind::Document => MAIN_FILE,
        }
    }
}

/// A project that is to be made.
#[derive(Debug, Clone, Copy)]
pub struct NewProject<'a> {
    /// The name of the project.
    pub name: &'a str,
    /// What kind of project it is.
    pub kind: ProjectKind,
}

/// What is to be made at a path.
#[derive(Debug)]
pub enum ToCreate {
    /// A directory.
    Dir,
    /// A file with these contents, which must not exist yet.
    File(String),
}

/// One step of making a project.
#[derive(Debug)]
pub struct Creation {
    pub path: String,
    pub what: ToCreate,
}

/// The mathematical value of a [`Creation`]: the path, and the contents if it
/// is a file.
pub open spec fn creation_view(step: Creation) -> (Seq<char>, Option<Seq<char>>) {
    (
        step.path@,
        match step.what {
            ToCreate::Dir => None,
            ToCreate::File(contents) => Some(contents@),
        },
    )
}

/// The values of the steps `steps`, in order.
pub open spec fn creation_views(steps: Seq<Creation>) -> Seq<(Seq<char>, Option<Seq<char>>)> {
    Seq::new(steps.len(), |i: int| creation_view(steps[i]))
}

/// What the first source file of a new project holds.
pub open spec fn src_file_text(kind: ProjectKind, name: Seq<char>, date: PackageDate) -> Seq<char> {
    match kind {
        ProjectKind::Package => template_text(
            PackageKind::Package,
            name,
            PackageTexFormat::Latex2e,
            Some(date.text()),
        ),
        ProjectKind::Class => template_text(
            PackageKind::Class,
            name,
            PackageTexFormat::Latex2e,
            Some(date.text()),
        ),
        ProjectKind::Document => MAIN_LATEX@,
    }
}

impl<'a> NewProject<'a> {
    /// The manifest of the new project: its name, its kind, and nothing else
    /// set.
    pub fn project_toml(&self) -> (out: ProjectConfig<'a>)
        ensures
            out.project.name@ == self.name@,
            out.project.default_profile is None,
            out.project.system_settings == (SystemSettings {
                tex_format: None,
                tex_engine: None,
                bib_engine: None,
            }),
            out.project.project_settings == ProjectSettings::unset(),
            out.package is Some <==> self.kind == ProjectKind::Package,
            out.class is Some <==> self.kind == ProjectKind::Class,
            out.profiles is None,
            out.dependencies.names() == Seq::<Seq<char>>::empty(),
    {
        let package = match self.kind {
            ProjectKind::Package => Some(PackageConfig::default()),
            _ => None,
        };
        let class = match self.kind {
            ProjectKind::Class => Some(ClassConfig::default()),
            _ => None,
        };
        ProjectConfig {
            project: ProjectConfigHead {
                name: self.name,
                default_profile: None,
                system_settings: SystemSettings::default(),
                project_settings: ProjectSettings::default(),
            },
            package,
            class,
            profiles: None,
            dependencies: Dependencies::new(),
        }
    }

    /// What the first source file of the project holds, for a project made
    /// on `date`.
    pub fn src_file_contents(&self, date: PackageDate) -> (out: String)
        ensures
            out@ == src_file_text(self.kind, self.name@, date),
    {
        match self.kind {
            ProjectKind::Package => PackageTemplate::new(&PackageName::new(self.name), date).render(),
            ProjectKind::Class => ClassTemplate::new(&PackageName::new(self.name), date).render(),
            ProjectKind::Document => String::from_str(MAIN_LATEX),
        }
    }

    /// Everything that is to be made for the project at `root`, in order: the
    /// manifest with the text `manifest`, the ignore file, the source
    /// directory with its first file, and the target directory.
    pub fn init(self, root: PathBuf<RootDir>, manifest: String, date: PackageDate) -> (out: Vec<
        Creation,
    >)
        ensures
            creation_views(out@) == seq![
                (root@ + seq![SEPARATOR] + PROJECT_CONFIG_FILE@, Some(manifest@)),
                (root@ + seq![SEPARATOR] + GITIGNORE@, Some(GITIGNORE_TEXT@)),
                (root@ + seq![SEPARATOR] + SRC_DIR@, None),
                (
                    root@ + seq![SEPARATOR] + SRC_DIR@ + seq![SEPARATOR] + self.kind.src_file(),
                    Some(src_file_text(self.kind, self.name@, date)),
                ),
                (root@ + seq![SEPARATOR] + TARGET_DIR@, None),
            ],
    {
        let mut steps: Vec<Creation> = Vec::new();
        let proj_conf: PathBuf<ProjectConfigFile> = root.clone().extend(());
        steps.push(Creation { path: proj_conf.to_path_string(), what: ToCreate::File(manifest) });
        let gitignore: PathBuf<Gitignore> = root.clone().extend(());
        steps.push(
            Creation {
                path: gitignore.to_path_string(),
                what: ToCreate::File(String::from_str(GITIGNORE_TEXT)),
            },
        );
        let src_dir: PathBuf<SrcDir> = root.clone().extend(());
        steps.push(Creation { path: src_dir.to_path_string(), what: ToCreate::Dir });
        let src_file: PathBuf<SrcFile> = src_dir.extend(self.kind.src_file_name());
        steps.push(
            Creation {
                path: src_file.to_path_string(),
                what: ToCreate::File(self.src_file_contents(date)),
            },
        );
        let target_dir: PathBuf<TargetDir> = root.extend(());
        steps.push(Creation { path: target_dir.to_path_string(), what: ToCreate::Dir });
        assert(creation_views(steps@) =~= seq![
            (root@ + seq![SEPARATOR] + PROJECT_CONFIG_FILE@, Some(manifest@)),
            (root@ + seq![SEPARATOR] + GITIGNORE@, Some(GITIGNORE_TEXT@)),
            (root@ + seq![SEPARATOR] + SRC_DIR@, None),
            (
                root@ + seq![SEPARATOR] + SRC_DIR@ + seq![SEPARATOR] + self.kind.src_file(),
                Some(src_file_text(self.kind, self.name@, date)),
            ),
            (root@ + seq![SEPARATOR] + TARGET_DIR@, None),
        ]);
        steps
    }
}

/// The place of the last separator among the first `n` characters of `path`,
/// or -1 if there is none.
pub open spec fn last_separator(path: Seq<char>, n: int) -> int
    decreases n,
{
    if n <= 0 {
        -1
    } else if path[n - 1] == SEPARATOR {
        n - 1
    } else {
        last_separator(path, n - 1)
    }
}

/// The directory that holds `path`: what stands before its last separator,
/// or the top of the file system where that is all that stands before it.
/// A path without a separator has none, and neither has the top itself.
pub open spec fn parent_of(path: Seq<char>) -> Option<Seq<char>> {
    let at = last_separator(path, path.len() as int);
    if at < 0 {
        None
    } else if at == 0 {
        if path.len() == 1 {
            None
        } else {
            Some(seq![SEPARATOR])
        }
    } else {
        Some(path.take(at))
    }
}

/// The last separator stands within the path, and it is a separator.
pub proof fn lemma_last_separator(path: Seq<char>, n: int)
    requires
        0 <= n <= path.len(),
    ensures
        -1 <= last_separator(path, n) < n,
        last_separator(path, n) >= 0 ==> path[last_separator(path, n)] == SEPARATOR,
    decreases n,
{
    if n > 0 && path[n - 1] != SEPARATOR {
        lemma_last_separator(path, n - 1);
    }
}

/// The path `path` and every directory above it, from the nearest to the
/// top.
pub open spec fn ancestors(path: Seq<char>) -> Seq<Seq<char>>
    decreases path.len(),
    via ancestors_end
{
    match parent_of(path) {
        Some(parent) => seq![path] + ancestors(parent),
        None => seq![path],
    }
}

#[via_fn]
proof fn ancestors_end(path: Seq<char>) {
    lemma_last_separator(path, path.len() as int);
}

/// The parent of a path is shorter than the path.
pub proof fn lemma_parent_shorter(path: Seq<char>)
    ensures
        parent_of(path) is Some ==> parent_of(path)->0.len() < path.len(),
{
    lemma_last_separator(path, path.len() as int);
}

/// The directory that holds `path`, if it has one.
pub fn parent(path: &str) -> (out: Option<String>)
    ensures
        match out {
            Some(dir) => parent_of(path@) == Some(dir@),
            None => parent_of(path@) is None,
        },
{
    let chars = to_chars(path);
    let mut n: usize = chars.len();
    while n > 0 && chars[n - 1] != SEPARATOR
        invariant
            n <= chars@.len(),
            chars@ == path@,
            last_separator(path@, path@.len() as int) == last_separator(path@, n as int),
        decreases n,
    {
        n -= 1;
    }
    if n == 0 {
        None
    } else if n == 1 {
        if chars.len() == 1 {
            None
        } else {
            let mut top = String::new();
            top.push(SEPARATOR);
            assert(top@ =~= seq![SEPARATOR]);
            Some(top)
        }
    } else {
        let mut kept = chars;
        kept.truncate(n - 1);
        let out = from_chars(&kept);
        assert(out@ =~= path@.take(n - 1));
        Some(out)
    }
}

impl RootDir {
    /// The directories that may be the root of the project that `start` lies
    /// in: `start` itself and every directory above it, from the nearest to
    /// the top. The root is the first of them that holds a manifest.
    pub fn candidates(start: &str) -> (out: Vec<String>)
        ensures
            crate::text::texts(out@) == ancestors(start@),
    {
        let mut out: Vec<String> = Vec::new();
        let mut current = String::from_str(start);
        let ghost mut seen: Seq<Seq<char>> = Seq::empty();
        loop
            invariant
                crate::text::texts(out@) == seen,
                seen + ancestors(current@) == ancestors(start@),
            decreases current@.len(),
        {
            proof {
                lemma_parent_shorter(current@);
            }
            let next = parent(current.as_str());
            let ghost before = out@;
            let ghost here = current@;
            out.push(current);
            proof {
                assert(crate::text::texts(out@) =~= seen.push(here));
            }
            match next {
                Some(dir) => {
                    proof {
                        assert(seen.push(here) + ancestors(dir@) =~= seen + ancestors(here));
                        seen = seen.push(here);
                    }
                    current = dir;
                },
                None => {
                    proof {
                        assert(seen.push(here) =~= seen + ancestors(here));
                    }
                    return out;
                },
            }
        }
    }

    /// The handle for the project whose root is at `path`.
    pub fn at(path: &str) -> (out: PathBuf<RootDir>)
        ensures
            out@ == path@,
    {
        PathBuf::new(RootDir(()), path)
    }
}

impl HomeDir {
    /// The handle for the home directory at `path`.
    pub fn at(path: &str) -> (out: PathBuf<HomeDir>)
        ensures
            out@ == path@,
    {
        PathBuf::new(HomeDir(()), path)
    }
}

} // verus!
