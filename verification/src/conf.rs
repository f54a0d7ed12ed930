//! Tool and project configuration.

use crate::dirs::RootDir;
use crate::merge::Merge;
use crate::namemap::NameMap;
use crate::typedir::PathBuf;
use vstd::prelude::*;

verus! {

/// The name of the profile for everyday builds.
pub const DEV_PROFILE: &'static str = "dev";

/// The name of the profile for builds that are handed out.
pub const RELEASE_PROFILE: &'static str = "release";

/// The document preparation systems that can be used by a package.
#[derive(Debug, Clone, Copy, PartialEq, Eq, Structural)]
pub enum TexFormat {
    Tex,
    Latex,
}

impl Default for TexFormat {
    fn default() -> (out: Self)
        ensures
            out == TexFormat::Latex,
    {
        TexFormat::Latex
    }
}

/// The engines that can typeset a document.
#[derive(Debug, Clone, Copy, PartialEq, Eq, Structural)]
pub enum TexEngine {
    Tex,
    Pdftex,
    Xetex,
    Luatex,
}

impl Default for TexEngine {
    fn default() -> (out: Self)
        ensures
            out == TexEngine::Pdftex,
    {
        TexEngine::Pdftex
    }
}

/// The formats that a document can be built to.
#[derive(Debug, Clone, Copy, PartialEq, Eq, Structural)]
pub enum OutputFormat {
    Dvi,
    Ps,
    Pdf,
}

impl Default for OutputFormat {
    fn default() -> (out: Self)
        ensures
            out == OutputFormat::Pdf,
    {
        OutputFormat::Pdf
    }
}

/// The programs that can process a bibliography.
#[derive(Debug, Clone, Copy, PartialEq, Eq, Structural)]
pub enum BibEngine {
    Biber,
}

/// A choice is a single value: the left merge keeps it, the right merge
/// replaces it.
impl Merge for TexFormat {
    open spec fn merges_left(self, other: Self, out: Self) -> bool {
        out == self
    }

    open spec fn merges_right(self, other: Self, out: Self) -> bool {
        out == other
    }

    fn merge_left(&mut self, _other: Self) -> (out: &mut Self) {
        self
    }

    fn merge_right(&mut self, other: Self) -> (out: &mut Self) {
        *self = other;
        self
    }
}

/// A choice is a single value: the left merge keeps it, the right merge
/// replaces it.
impl Merge for TexEngine {
    open spec fn merges_left(self, other: Self, out: Self) -> bool {
        out == self
    }

    open spec fn merges_right(self, other: Self, out: Self) -> bool {
        out == other
    }

    fn merge_left(&mut self, _other: Self) -> (out: &mut Self) {
        self
    }

    fn merge_right(&mut self, other: Self) -> (out: &mut Self) {
        *self = other;
        self
    }
}

/// A choice is a single value: the left merge keeps it, the right merge
/// replaces it.
impl Merge for OutputFormat {
    open spec fn merges_left(self, other: Self, out: Self) -> bool {
        out == self
    }

    open spec fn merges_right(self, other: Self, out: Self) -> bool {
        out == other
    }

    fn merge_left(&mut self, _other: Self) -> (out: &mut Self) {
        self
    }

    fn merge_right(&mut self, other: Self) -> (out: &mut Self) {
        *self = other;
        self
    }
}

/// A choice is a single value: the left merge keeps it, the right merge
/// replaces it.
impl Merge for BibEngine {
    open spec fn merges_left(self, other: Self, out: Self) -> bool {
        out == self
    }

    open spec fn merges_right(self, other: Self, out: Self) -> bool {
        out == other
    }

    fn merge_left(&mut self, _other: Self) -> (out: &mut Self) {
        self
    }

    fn merge_right(&mut self, other: Self) -> (out: &mut Self) {
        *self = other;
        self
    }
}

/// The name of a program to run.
#[derive(Debug, Clone, Copy)]
pub struct Executable<'c>(&'c str);

impl<'c> View for Executable<'c> {
    type V = Seq<char>;

    closed spec fn view(&self) -> Seq<char> {
        self.0@
    }
}

impl<'c> Executable<'c> {
    /// The program called `name`.
    pub fn new(name: &'c str) -> (out: Self)
        ensures
            out@ == name@,
    {
        Executable(name)
    }

    /// The name of the program.
    pub fn as_str(&self) -> (out: &'c str)
        ensures
            out@ == self@,
    {
        self.0
    }
}

/// A program name is a single value: the left merge keeps it, the right merge
/// replaces it.
impl<'c> Merge for Executable<'c> {
    open spec fn merges_left(self, other: Self, out: Self) -> bool {
        out == self
    }

    open spec fn merges_right(self, other: Self, out: Self) -> bool {
        out == other
    }

    fn merge_left(&mut self, _other: Self) -> (out: &mut Self) {
        self
    }

    fn merge_right(&mut self, other: Self) -> (out: &mut Self) {
        *self = other;
        self
    }
}

/// The program to run for each engine and format, and for the bibliography.
#[derive(Debug)]
pub struct ExecutableConfig<'c> {
    pub tex: Executable<'c>,
    pub latex: Executable<'c>,
    pub pdftex: Executable<'c>,
    pub pdflatex: Executable<'c>,
    pub xetex: Executable<'c>,
    pub xelatex: Executable<'c>,
    pub luatex: Executable<'c>,
    pub lualatex: Executable<'c>,
    pub biber: Executable<'c>,
}

impl<'c> Default for ExecutableConfig<'c> {
    /// Every program under its usual name.
    fn default() -> (out: Self)
        ensures
            out.tex@ == "tex"@,
            out.latex@ == "latex"@,
            out.pdftex@ == "pdftex"@,
            out.pdflatex@ == "pdflatex"@,
            out.xetex@ == "xetex"@,
            out.xelatex@ == "xelatex"@,
            out.luatex@ == "luatex"@,
            out.lualatex@ == "lualatex"@,
            out.biber@ == "biber"@,
    {
        ExecutableConfig {
            tex: Executable::new("tex"),
            latex: Executable::new("latex"),
            pdftex: Executable::new("pdftex"),
            pdflatex: Executable::new("pdflatex"),
            xetex: Executable::new("xetex"),
            xelatex: Executable::new("xelatex"),
            luatex: Executable::new("luatex"),
            lualatex: Executable::new("lualatex"),
            biber: Executable::new("biber"),
        }
    }
}

/// Merged field by field.
impl<'c> Merge for ExecutableConfig<'c> {
    open spec fn merges_left(self, other: Self, out: Self) -> bool {
        &&& self.tex.merges_left(other.tex, out.tex)
        &&& self.latex.merges_left(other.latex, out.latex)
        &&& self.pdftex.merges_left(other.pdftex, out.pdftex)
        &&& self.pdflatex.merges_left(other.pdflatex, out.pdflatex)
        &&& self.xetex.merges_left(other.xetex, out.xetex)
        &&& self.xelatex.merges_left(other.xelatex, out.xelatex)
        &&& self.luatex.merges_left(other.luatex, out.luatex)
        &&& self.lualatex.merges_left(other.lualatex, out.lualatex)
        &&& self.biber.merges_left(other.biber, out.biber)
    }

    open spec fn merges_right(self, other: Self, out: Self) -> bool {
        &&& self.tex.merges_right(other.tex, out.tex)
        &&& self.latex.merges_right(other.latex, out.latex)
        &&& self.pdftex.merges_right(other.pdftex, out.pdftex)
        &&& self.pdflatex.merges_right(other.pdflatex, out.pdflatex)
        &&& self.xetex.merges_right(other.xetex, out.xetex)
        &&& self.xelatex.merges_right(other.xelatex, out.xelatex)
        &&& self.luatex.merges_right(other.luatex, out.luatex)
        &&& self.lualatex.merges_right(other.lualatex, out.lualatex)
        &&& self.biber.merges_right(other.biber, out.biber)
    }

    fn merge_left(&mut self, other: Self) -> (out: &mut Self) {
        self.tex.merge_left(other.tex);
        self.latex.merge_left(other.latex);
        self.pdftex.merge_left(other.pdftex);
        self.pdflatex.merge_left(other.pdflatex);
        self.xetex.merge_left(other.xetex);
        self.xelatex.merge_left(other.xelatex);
        self.luatex.merge_left(other.luatex);
        self.lualatex.merge_left(other.lualatex);
        self.biber.merge_left(other.biber);
        self
    }

    fn merge_right(&mut self, other: Self) -> (out: &mut Self) {
        self.tex.merge_right(other.tex);
        self.latex.merge_right(other.latex);
        self.pdftex.merge_right(other.pdftex);
        self.pdflatex.merge_right(other.pdflatex);
        self.xetex.merge_right(other.xetex);
        self.xelatex.merge_right(other.xelatex);
        self.luatex.merge_right(other.luatex);
        self.lualatex.merge_right(other.lualatex);
        self.biber.merge_right(other.biber);
        self
    }
}

/// Settings of the build that hold for every project.
#[derive(Debug)]
pub struct BuildConfig<'c> {
    pub execs: ExecutableConfig<'c>,
}

impl<'c> Default for BuildConfig<'c> {
    fn default() -> (out: Self)
        ensures
            out.execs.tex@ == "tex"@,
            out.execs.latex@ == "latex"@,
            out.execs.pdftex@ == "pdftex"@,
            out.execs.pdflatex@ == "pdflatex"@,
            out.execs.xetex@ == "xetex"@,
            out.execs.xelatex@ == "xelatex"@,
            out.execs.luatex@ == "luatex"@,
            out.execs.lualatex@ == "lualatex"@,
            out.execs.biber@ == "biber"@,
    {
        BuildConfig { execs: ExecutableConfig::default() }
    }
}

/// Merged field by field.
impl<'c> Merge for BuildConfig<'c> {
    open spec fn merges_left(self, other: Self, out: Self) -> bool {
        &&& self.execs.merges_left(other.execs, out.execs)
    }

    open spec fn merges_right(self, other: Self, out: Self) -> bool {
        &&& self.execs.merges_right(other.execs, out.execs)
    }

    fn merge_left(&mut self, other: Self) -> (out: &mut Self) {
        self.execs.merge_left(other.execs);
        self
    }

    fn merge_right(&mut self, other: Self) -> (out: &mut Self) {
        self.execs.merge_right(other.execs);
        self
    }
}

/// Settings of the bibliography that hold for every project.
#[derive(Debug)]
pub struct BibConfig<'c> {
    pub bibliography: Option<&'c str>,
}

impl<'c> Default for BibConfig<'c> {
    fn default() -> (out: Self)
        ensures
            out.bibliography is None,
    {
        BibConfig { bibliography: None }
    }
}

/// Merged field by field.
impl<'c> Merge for BibConfig<'c> {
    open spec fn merges_left(self, other: Self, out: Self) -> bool {
        &&& self.bibliography.merges_left(other.bibliography, out.bibliography)
    }

    open spec fn merges_right(self, other: Self, out: Self) -> bool {
        &&& self.bibliography.merges_right(other.bibliography, out.bibliography)
    }

    fn merge_left(&mut self, other: Self) -> (out: &mut Self) {
        self.bibliography.merge_left(other.bibliography);
        self
    }

    fn merge_right(&mut self, other: Self) -> (out: &mut Self) {
        self.bibliography.merge_right(other.bibliography);
        self
    }
}

/// Whether to colour what is written to the terminal.
#[derive(Debug, Clone, Copy, PartialEq, Eq, Structural)]
pub enum TermColor {
    Bool(bool),
    Auto,
}

impl Default for TermColor {
    fn default() -> (out: Self)
        ensures
            out == TermColor::Auto,
    {
        TermColor::Auto
    }
}

/// A colour choice is a single value: the left merge keeps it, the right merge
/// replaces it.
impl Merge for TermColor {
    open spec fn merges_left(self, other: Self, out: Self) -> bool {
        out == self
    }

    open spec fn merges_right(self, other: Self, out: Self) -> bool {
        out == other
    }

    fn merge_left(&mut self, _other: Self) -> (out: &mut Self) {
        self
    }

    fn merge_right(&mut self, other: Self) -> (out: &mut Self) {
        *self = other;
        self
    }
}

/// Settings of the terminal.
#[derive(Debug, Clone, Copy, PartialEq, Eq, Structural)]
pub struct TermConfig {
    pub quiet: bool,
    pub verbose: bool,
    pub color: TermColor,
}

impl Default for TermConfig {
    fn default() -> (out: Self)
        ensures
            out == (TermConfig { quiet: false, verbose: false, color: TermColor::Auto }),
    {
        TermConfig { quiet: false, verbose: false, color: TermColor::Auto }
    }
}

/// The terminal settings are a single value: the left merge keeps it, the right merge
/// replaces it.
impl Merge for TermConfig {
    open spec fn merges_left(self, other: Self, out: Self) -> bool {
        out == self
    }

    open spec fn merges_right(self, other: Self, out: Self) -> bool {
        out == other
    }

    fn merge_left(&mut self, _other: Self) -> (out: &mut Self) {
        self
    }

    fn merge_right(&mut self, other: Self) -> (out: &mut Self) {
        *self = other;
        self
    }
}

/// Settings for reading the documentation of packages.
#[derive(Debug)]
pub struct DocConfig<'c> {
    pub reader: Option<&'c str>,
}

impl<'c> Default for DocConfig<'c> {
    fn default() -> (out: Self)
        ensures
            out.reader is None,
    {
        DocConfig { reader: None }
    }
}

/// Merged field by field.
impl<'c> Merge for DocConfig<'c> {
    open spec fn merges_left(self, other: Self, out: Self) -> bool {
        &&& self.reader.merges_left(other.reader, out.reader)
    }

    open spec fn merges_right(self, other: Self, out: Self) -> bool {
        &&& self.reader.merges_right(other.reader, out.reader)
    }

    fn merge_left(&mut self, other: Self) -> (out: &mut Self) {
        self.reader.merge_left(other.reader);
        self
    }

    fn merge_right(&mut self, other: Self) -> (out: &mut Self) {
        self.reader.merge_right(other.reader);
        self
    }
}

/// The configuration of the tool itself, which holds for every project.
#[derive(Debug)]
pub struct LargoConfig<'c> {
    pub build: BuildConfig<'c>,
    /// The profile that is built when neither the caller nor the project
    /// names one.
    pub default_profile: ProfileName<'c>,
    /// The TeX format to use where a project names none.
    pub default_tex_format: TexFormat,
    /// The TeX engine to use where a project names none.
    pub default_tex_engine: TexEngine,
    pub bib: BibConfig<'c>,
    pub doc: DocConfig<'c>,
    pub term: TermConfig,
}

impl<'c> Default for LargoConfig<'c> {
    fn default() -> (out: Self)
        ensures
            out.build.execs.tex@ == "tex"@,
            out.build.execs.latex@ == "latex"@,
            out.build.execs.pdftex@ == "pdftex"@,
            out.build.execs.pdflatex@ == "pdflatex"@,
            out.build.execs.xetex@ == "xetex"@,
            out.build.execs.xelatex@ == "xelatex"@,
            out.build.execs.luatex@ == "luatex"@,
            out.build.execs.lualatex@ == "lualatex"@,
            out.build.execs.biber@ == "biber"@,
            out.default_profile@ == DEV_PROFILE@,
            out.default_tex_format == TexFormat::Latex,
            out.default_tex_engine == TexEngine::Pdftex,
            out.bib.bibliography is None,
            out.doc.reader is None,
            out.term == (TermConfig { quiet: false, verbose: false, color: TermColor::Auto }),
    {
        LargoConfig {
            build: BuildConfig::default(),
            default_profile: ProfileName::default(),
            default_tex_format: TexFormat::default(),
            default_tex_engine: TexEngine::default(),
            bib: BibConfig::default(),
            doc: DocConfig::default(),
            term: TermConfig::default(),
        }
    }
}

/// Merged field by field.
impl<'c> Merge for LargoConfig<'c> {
    open spec fn merges_left(self, other: Self, out: Self) -> bool {
        &&& self.build.merges_left(other.build, out.build)
        &&& self.default_profile.merges_left(other.default_profile, out.default_profile)
        &&& self.default_tex_format.merges_left(other.default_tex_format, out.default_tex_format)
        &&& self.default_tex_engine.merges_left(other.default_tex_engine, out.default_tex_engine)
        &&& self.bib.merges_left(other.bib, out.bib)
        &&& self.doc.merges_left(other.doc, out.doc)
        &&& self.term.merges_left(other.term, out.term)
    }

    open spec fn merges_right(self, other: Self, out: Self) -> bool {
        &&& self.build.merges_right(other.build, out.build)
        &&& self.default_profile.merges_right(other.default_profile, out.default_profile)
        &&& self.default_tex_format.merges_right(other.default_tex_format, out.default_tex_format)
        &&& self.default_tex_engine.merges_right(other.default_tex_engine, out.default_tex_engine)
        &&& self.bib.merges_right(other.bib, out.bib)
        &&& self.doc.merges_right(other.doc, out.doc)
        &&& self.term.merges_right(other.term, out.term)
    }

    fn merge_left(&mut self, other: Self) -> (out: &mut Self) {
        self.build.merge_left(other.build);
        self.default_profile.merge_left(other.default_profile);
        self.default_tex_format.merge_left(other.default_tex_format);
        self.default_tex_engine.merge_left(other.default_tex_engine);
        self.bib.merge_left(other.bib);
        self.doc.merge_left(other.doc);
        self.term.merge_left(other.term);
        self
    }

    fn merge_right(&mut self, other: Self) -> (out: &mut Self) {
        self.build.merge_right(other.build);
        self.default_profile.merge_right(other.default_profile);
        self.default_tex_format.merge_right(other.default_tex_format);
        self.default_tex_engine.merge_right(other.default_tex_engine);
        self.bib.merge_right(other.bib);
        self.doc.merge_right(other.doc);
        self.term.merge_right(other.term);
        self
    }
}

/// The program that the configuration names for an engine and a format.
pub open spec fn chosen_program<'c>(
    execs: ExecutableConfig<'c>,
    engine: TexEngine,
    format: TexFormat,
) -> Executable<'c> {
    match (engine, format) {
        (TexEngine::Tex, TexFormat::Tex) => execs.tex,
        (TexEngine::Tex, TexFormat::Latex) => execs.latex,
        (TexEngine::Pdftex, TexFormat::Tex) => execs.pdftex,
        (TexEngine::Pdftex, TexFormat::Latex) => execs.pdflatex,
        (TexEngine::Xetex, TexFormat::Tex) => execs.xetex,
        (TexEngine::Xetex, TexFormat::Latex) => execs.xelatex,
        (TexEngine::Luatex, TexFormat::Tex) => execs.luatex,
        (TexEngine::Luatex, TexFormat::Latex) => execs.lualatex,
    }
}

impl<'c> LargoConfig<'c> {
    /// The program to run for `engine` with `format`.
    pub fn choose_program(&self, engine: TexEngine, format: TexFormat) -> (out: &Executable<'c>)
        ensures
            *out == chosen_program(self.build.execs, engine, format),
    {
        let execs = &self.build.execs;
        match (engine, format) {
            (TexEngine::Tex, TexFormat::Tex) => &execs.tex,
            (TexEngine::Tex, TexFormat::Latex) => &execs.latex,
            (TexEngine::Pdftex, TexFormat::Tex) => &execs.pdftex,
            (TexEngine::Pdftex, TexFormat::Latex) => &execs.pdflatex,
            (TexEngine::Xetex, TexFormat::Tex) => &execs.xetex,
            (TexEngine::Xetex, TexFormat::Latex) => &execs.xelatex,
            (TexEngine::Luatex, TexFormat::Tex) => &execs.luatex,
            (TexEngine::Luatex, TexFormat::Latex) => &execs.lualatex,
        }
    }
}

/// A project: where it is, and what its manifest says.
#[derive(Debug)]
pub struct Project<'c> {
    pub root: PathBuf<RootDir>,
    pub config: ProjectConfig<'c>,
}

/// The manifest of a project.
#[derive(Debug)]
pub struct ProjectConfig<'c> {
    pub project: ProjectConfigHead<'c>,
    pub package: Option<PackageConfig>,
    pub class: Option<ClassConfig>,
    pub profiles: Option<Profiles<'c>>,
    pub dependencies: Dependencies<'c>,
}

/// What the manifest says of the project itself.
#[derive(Debug)]
pub struct ProjectConfigHead<'c> {
    pub name: &'c str,
    /// The profile that is built when the caller names none.
    pub default_profile: Option<ProfileName<'c>>,
    pub project_settings: ProjectSettings,
    pub system_settings: SystemSettings,
}

/// Marks a project as a package.
#[derive(Debug, Clone, Copy, PartialEq, Eq, Structural)]
pub struct PackageConfig {}

impl Default for PackageConfig {
    fn default() -> (out: Self) {
        PackageConfig {  }
    }
}

/// Marks a project as a document class.
#[derive(Debug, Clone, Copy, PartialEq, Eq, Structural)]
pub struct ClassConfig {}

impl Default for ClassConfig {
    fn default() -> (out: Self) {
        ClassConfig {  }
    }
}

/// The name of a build profile.
#[derive(Debug, Clone, Copy)]
pub struct ProfileName<'c>(&'c str);

impl<'c> View for ProfileName<'c> {
    type V = Seq<char>;

    closed spec fn view(&self) -> Seq<char> {
        self.0@
    }
}

impl<'c> ProfileName<'c> {
    /// The profile name `name`.
    pub fn new(name: &'c str) -> (out: Self)
        ensures
            out@ == name@,
    {
        ProfileName(name)
    }

    /// The name as text.
    pub fn as_str(&self) -> (out: &'c str)
        ensures
            out@ == self@,
    {
        self.0
    }
}

impl<'c> Default for ProfileName<'c> {
    fn default() -> (out: Self)
        ensures
            out@ == DEV_PROFILE@,
    {
        ProfileName(DEV_PROFILE)
    }
}

/// A profile name is a single value: the left merge keeps it, the right merge
/// replaces it.
impl<'c> Merge for ProfileName<'c> {
    open spec fn merges_left(self, other: Self, out: Self) -> bool {
        out == self
    }

    open spec fn merges_right(self, other: Self, out: Self) -> bool {
        out == other
    }

    fn merge_left(&mut self, _other: Self) -> (out: &mut Self) {
        self
    }

    fn merge_right(&mut self, other: Self) -> (out: &mut Self) {
        *self = other;
        self
    }
}

/// The profiles of a project, by name.
#[derive(Debug)]
pub struct Profiles<'c>(NameMap<'c, Profile>);

impl<'c> View for Profiles<'c> {
    type V = Map<Seq<char>, Profile>;

    closed spec fn view(&self) -> Map<Seq<char>, Profile> {
        self.0@
    }
}

impl<'c> Profiles<'c> {
    /// No profiles.
    pub fn new() -> (out: Profiles<'c>)
        ensures
            out@ == Map::<Seq<char>, Profile>::empty(),
    {
        Profiles(NameMap::new())
    }

    /// Gives the profile called `name` the settings `profile`, and returns the
    /// profile that had the name before.
    pub fn insert(&mut self, name: ProfileName<'c>, profile: Profile) -> (out: Option<Profile>)
        ensures
            final(self)@ == old(self)@.insert(name@, profile),
            out == (if old(self)@.contains_key(name@) {
                Some(old(self)@[name@])
            } else {
                None
            }),
    {
        self.0.insert(name.as_str(), profile)
    }

    /// Takes the profile called `name` out of the map. A profile can be
    /// selected once: after this call the map does not hold the name.
    pub fn select_profile(&mut self, name: &ProfileName<'c>) -> (out: Option<Profile>)
        ensures
            final(self)@ == old(self)@.remove(name@),
            out == (if old(self)@.contains_key(name@) {
                Some(old(self)@[name@])
            } else {
                None
            }),
    {
        self.0.remove(name.as_str())
    }
}

impl Profiles<'static> {
    /// The standard profiles, which every project has: `dev` and `release`,
    /// neither of which overrides anything.
    pub fn standard() -> (out: Self)
        ensures
            out@ == Map::<Seq<char>, Profile>::empty().insert(
                DEV_PROFILE@,
                Profile { project_settings: ProjectSettings::unset() },
            ).insert(RELEASE_PROFILE@, Profile { project_settings: ProjectSettings::unset() }),
    {
        let mut profiles = Profiles::new();
        let dev_profile = Profile::default();
        let release_profile = Profile::default();
        profiles.insert(ProfileName::new(DEV_PROFILE), dev_profile);
        profiles.insert(ProfileName::new(RELEASE_PROFILE), release_profile);
        profiles
    }
}

/// Merged name by name.
impl<'c> Merge for Profiles<'c> {
    open spec fn merges_left(self, other: Self, out: Self) -> bool {
        crate::namemap::table_merges_left(self@, other@, out@)
    }

    open spec fn merges_right(self, other: Self, out: Self) -> bool {
        crate::namemap::table_merges_right(self@, other@, out@)
    }

    fn merge_left(&mut self, other: Self) -> (out: &mut Self) {
        self.0.merge_left(other.0);
        self
    }

    fn merge_right(&mut self, other: Self) -> (out: &mut Self) {
        self.0.merge_right(other.0);
        self
    }
}

/// A named bundle of settings that override those of the project.
#[derive(Debug, Clone, Copy, PartialEq, Eq, Structural)]
pub struct Profile {
    pub project_settings: ProjectSettings,
}

impl Default for Profile {
    fn default() -> (out: Self)
        ensures
            out == (Profile { project_settings: ProjectSettings::unset() }),
    {
        Profile { project_settings: ProjectSettings::default() }
    }
}

/// Merged field by field.
impl Merge for Profile {
    open spec fn merges_left(self, other: Self, out: Self) -> bool {
        &&& self.project_settings.merges_left(other.project_settings, out.project_settings)
    }

    open spec fn merges_right(self, other: Self, out: Self) -> bool {
        &&& self.project_settings.merges_right(other.project_settings, out.project_settings)
    }

    fn merge_left(&mut self, other: Self) -> (out: &mut Self) {
        self.project_settings.merge_left(other.project_settings);
        self
    }

    fn merge_right(&mut self, other: Self) -> (out: &mut Self) {
        self.project_settings.merge_right(other.project_settings);
        self
    }
}

/// The settings that say which programs build the project. What a project
/// leaves open is taken from the configuration of the tool.
#[derive(Debug, Clone, Copy, PartialEq, Eq, Structural)]
pub struct SystemSettings {
    pub tex_format: Option<TexFormat>,
    pub tex_engine: Option<TexEngine>,
    pub bib_engine: Option<BibEngine>,
}

impl Default for SystemSettings {
    fn default() -> (out: Self)
        ensures
            out == (SystemSettings { tex_format: None, tex_engine: None, bib_engine: None }),
    {
        SystemSettings { tex_format: None, tex_engine: None, bib_engine: None }
    }
}

/// The settings of a build that a profile can override.
#[derive(Debug, Clone, Copy, PartialEq, Eq, Structural)]
pub struct ProjectSettings {
    pub output_format: Option<OutputFormat>,
    /// Whether to pass shell-escape (if present and `true`), no-shell-escape
    /// (if present and `false`), or neither.
    pub shell_escape: Option<bool>,
    /// Whether to use SyncTeX to synchronise between the TeX source and the
    /// compiled document.
    pub synctex: Option<bool>,
}

impl Default for ProjectSettings {
    fn default() -> (out: Self)
        ensures
            out == ProjectSettings::unset(),
    {
        ProjectSettings { output_format: None, shell_escape: None, synctex: None }
    }
}

impl ProjectSettings {
    /// The settings that say nothing.
    pub open spec fn unset() -> Self {
        ProjectSettings { output_format: None, shell_escape: None, synctex: None }
    }

    /// The settings of `self`, with those of `other` where `self` has none.
    pub open spec fn merged_left(self, other: Self) -> Self {
        ProjectSettings {
            output_format: crate::merge::option_merged_left(
                self.output_format,
                other.output_format,
            ),
            shell_escape: crate::merge::option_merged_left(self.shell_escape, other.shell_escape),
            synctex: crate::merge::option_merged_left(self.synctex, other.synctex),
        }
    }

    /// The settings of `other`, with those of `self` where `other` has none.
    pub open spec fn merged_right(self, other: Self) -> Self {
        ProjectSettings {
            output_format: crate::merge::option_merged_right(
                self.output_format,
                other.output_format,
            ),
            shell_escape: crate::merge::option_merged_right(self.shell_escape, other.shell_escape),
            synctex: crate::merge::option_merged_right(self.synctex, other.synctex),
        }
    }

    /// The settings of `self`, with those of `other` where `self` has none.
    pub fn merge(self, other: Self) -> (out: Self)
        ensures
            out == self.merged_left(other),
    {
        let mut out = self;
        out.merge_left(other);
        out
    }
}

impl Merge for ProjectSettings {
    open spec fn merges_left(self, other: Self, out: Self) -> bool {
        out == self.merged_left(other)
    }

    open spec fn merges_right(self, other: Self, out: Self) -> bool {
        out == self.merged_right(other)
    }

    fn merge_left(&mut self, other: Self) -> (out: &mut Self) {
        self.output_format.merge_left(other.output_format);
        self.shell_escape.merge_left(other.shell_escape);
        self.synctex.merge_left(other.synctex);
        self
    }

    fn merge_right(&mut self, other: Self) -> (out: &mut Self) {
        self.output_format.merge_right(other.output_format);
        self.shell_escape.merge_right(other.shell_escape);
        self.synctex.merge_right(other.synctex);
        self
    }
}

/// Merging the same settings in from the left a second time changes nothing.
pub proof fn lemma_settings_merge_left_idempotent(a: ProjectSettings, b: ProjectSettings)
    ensures
        a.merged_left(b).merged_left(b) == a.merged_left(b),
{
}

/// A right merge gives, field by field, the value of the other settings where
/// they have one, and the value of the receiver where they have none.
pub proof fn lemma_settings_merge_right_prefers_other(a: ProjectSettings, b: ProjectSettings)
    ensures
        a.merged_right(b).output_format == (if b.output_format is Some {
            b.output_format
        } else {
            a.output_format
        }),
        a.merged_right(b).shell_escape == (if b.shell_escape is Some {
            b.shell_escape
        } else {
            a.shell_escape
        }),
        a.merged_right(b).synctex == (if b.synctex is Some {
            b.synctex
        } else {
            a.synctex
        }),
{
}

/// Left and right merges are duals: merging `b` beneath `a` gives what merging
/// `a` above `b` gives.
pub proof fn lemma_settings_merge_dual(a: ProjectSettings, b: ProjectSettings)
    ensures
        a.merged_left(b) == b.merged_right(a),
{
}

/// The three laws hold of whatever the merge operations of the settings and
/// of a profile produce: a second left merge of the same value changes
/// nothing, a right merge prefers the other value, and the two merges are
/// duals.
pub proof fn lemma_profile_merge_laws(a: Profile, b: Profile, left: Profile, right: Profile)
    requires
        a.merges_left(b, left),
        b.merges_right(a, right),
    ensures
        left.merges_left(b, left),
        left == right,
        left.project_settings == a.project_settings.merged_left(b.project_settings),
{
}

/// The three laws hold of maps of profiles, name by name: after a left merge
/// of `b`, a second left merge of `b` changes nothing, and the left merge of
/// `b` beneath `a` gives what the right merge of `a` above `b` gives.
pub proof fn lemma_profiles_merge_laws(
    a: Map<Seq<char>, Profile>,
    b: Map<Seq<char>, Profile>,
    left: Map<Seq<char>, Profile>,
    twice: Map<Seq<char>, Profile>,
    right: Map<Seq<char>, Profile>,
)
    requires
        crate::namemap::table_merges_left(a, b, left),
        crate::namemap::table_merges_left(left, b, twice),
        crate::namemap::table_merges_right(b, a, right),
    ensures
        twice == left,
        right == left,
{
    assert forall|k: Seq<char>| left.contains_key(k) implies twice[k] == left[k] && right[k]
        == left[k] by {
        if a.contains_key(k) && b.contains_key(k) {
            assert(a[k].merges_left(b[k], left[k]));
            assert(b[k].merges_right(a[k], right[k]));
        }
        if b.contains_key(k) {
            assert(left[k].merges_left(b[k], twice[k]));
        }
    }
    assert(twice =~= left);
    assert(right =~= left);
}

/// The three laws hold of the configuration of the tool: after a left merge
/// of `b`, a second left merge of `b` changes nothing, and the left merge of
/// `b` beneath `a` gives what the right merge of `a` above `b` gives.
pub proof fn lemma_config_merge_laws<'c>(
    a: LargoConfig<'c>,
    b: LargoConfig<'c>,
    left: LargoConfig<'c>,
    twice: LargoConfig<'c>,
    right: LargoConfig<'c>,
)
    requires
        a.merges_left(b, left),
        left.merges_left(b, twice),
        b.merges_right(a, right),
    ensures
        twice == left,
        right == left,
{
}

/// The name of a dependency.
#[derive(Debug, Clone, Copy)]
pub struct DependencyName<'c>(&'c str);

impl<'c> View for DependencyName<'c> {
    type V = Seq<char>;

    closed spec fn view(&self) -> Seq<char> {
        self.0@
    }
}

impl<'c> DependencyName<'c> {
    /// The dependency name `name`.
    pub fn new(name: &'c str) -> (out: Self)
        ensures
            out@ == name@,
    {
        DependencyName(name)
    }

    /// The name as text.
    pub fn as_str(&self) -> (out: &'c str)
        ensures
            out@ == self@,
    {
        self.0
    }
}

/// The dependencies of a project, by name and in the order of the names.
#[derive(Debug)]
pub struct Dependencies<'c>(NameMap<'c, Dependency<'c>>);

impl<'c> Dependencies<'c> {
    /// The names of the dependencies, in order.
    pub closed spec fn names(&self) -> Seq<Seq<char>> {
        self.0.names()
    }

    /// The dependencies, each at the place of its name.
    pub closed spec fn values(&self) -> Seq<Dependency<'c>> {
        self.0.values()
    }

    /// The dependencies as a map from their names.
    pub open spec fn view(&self) -> Map<Seq<char>, Dependency<'c>> {
        crate::namemap::table(self.names(), self.values())
    }

    /// No dependencies.
    pub fn new() -> (out: Self)
        ensures
            out.names() == Seq::<Seq<char>>::empty(),
            out.values() == Seq::<Dependency<'c>>::empty(),
            out@ == Map::<Seq<char>, Dependency<'c>>::empty(),
    {
        Dependencies(NameMap::new())
    }

    /// Makes the project depend on `dependency` under `name`, and returns the
    /// dependency that had the name before.
    pub fn insert(&mut self, name: DependencyName<'c>, dependency: Dependency<'c>) -> (out: Option<
        Dependency<'c>,
    >)
        ensures
            final(self)@ == old(self)@.insert(name@, dependency),
            out == (if old(self)@.contains_key(name@) {
                Some(old(self)@[name@])
            } else {
                None
            }),
            crate::namemap::sorted_names(final(self).names()),
            final(self).names().len() == final(self).values().len(),
    {
        self.0.insert(name.as_str(), dependency)
    }

    /// The number of dependencies.
    pub fn len(&self) -> (out: usize)
        ensures
            out == self.names().len(),
            out == self.values().len(),
            crate::namemap::sorted_names(self.names()),
    {
        self.0.len()
    }

    /// The name of the dependency at place `i`.
    pub fn name_at(&self, i: usize) -> (out: DependencyName<'c>)
        requires
            i < self.names().len(),
        ensures
            out@ == self.names()[i as int],
    {
        DependencyName(self.0.name_at(i))
    }

    /// The dependency at place `i`.
    pub fn dependency_at(&self, i: usize) -> (out: &Dependency<'c>)
        requires
            i < self.values().len(),
        ensures
            *out == self.values()[i as int],
    {
        self.0.value_at(i)
    }
}

impl<'c> Default for Dependencies<'c> {
    fn default() -> (out: Self)
        ensures
            out.names() == Seq::<Seq<char>>::empty(),
            out.values() == Seq::<Dependency<'c>>::empty(),
    {
        Dependencies::new()
    }
}

/// A reference to another package.
#[derive(Debug, Clone, Copy)]
pub struct Dependency<'c> {
    /// Whether the dependency is itself a project of this tool.
    pub largo: bool,
    pub kind: DependencyKind<'c>,
}

/// Where a dependency comes from.
#[derive(Debug, Clone, Copy)]
pub enum DependencyKind<'c> {
    /// A directory on this machine.
    Path { path: &'c str },
}

} // verus!
