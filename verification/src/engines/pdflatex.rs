//! The pdfLaTeX engine.

use crate::clam::{
    append_arguments, flag_name, ArgValue, ArrayConvention, CaseConvention, Command, LoweringCtx,
    Options, Rename, ValueConvention,
};
use crate::conf::LargoConfig;
use crate::dirs::{ProfileTargetDir, SrcDir, StartFile};
use crate::engines::{DependencyPaths, Engine, Invocation, InvocationView};
use crate::text::{decimal, format_joined, joined, signed_to_decimal, texts};
use crate::typedir::AsPath;
use vstd::prelude::*;
use vstd::string::StringExecFns;

verus! {

/// How the engine behaves when it meets an error.
#[derive(Debug, Clone, Copy, PartialEq, Eq, Structural)]
pub enum InteractionMode {
    BatchMode,
    NonStopMode,
    ScrollMode,
    ErrorStopMode,
}

impl InteractionMode {
    /// The word that the engine knows the value by.
    pub open spec fn word(&self) -> Seq<char> {
        match self {
            InteractionMode::BatchMode => "batchmode"@,
            InteractionMode::NonStopMode => "nonstopmode"@,
            InteractionMode::ScrollMode => "scrollmode"@,
            InteractionMode::ErrorStopMode => "errorstopmode"@,
        }
    }

    /// The word that the engine knows the value by.
    pub fn as_str(&self) -> (out: &'static str)
        ensures
            out@ == self.word(),
    {
        match self {
            InteractionMode::BatchMode => "batchmode",
            InteractionMode::NonStopMode => "nonstopmode",
            InteractionMode::ScrollMode => "scrollmode",
            InteractionMode::ErrorStopMode => "errorstopmode",
        }
    }
}

/// Gives its flag and then the word for the value.
impl ArgValue for InteractionMode {
    open spec fn arg_tokens(&self, name: Seq<char>) -> Seq<Seq<char>> {
        seq![name, self.word()]
    }

    fn set_cmd_arg<C: Command>(&self, name: &str, cmd: &mut C) {
        cmd.arg(name);
        cmd.arg(self.as_str());
        assert(old(cmd).arguments().push(name@).push(self.word()) =~= old(cmd).arguments() + seq![
            name@,
            self.word(),
        ]);
    }
}

/// The kinds of files that the engine may make when it lacks one.
#[derive(Debug, Clone, Copy, PartialEq, Eq, Structural)]
pub enum MkTexFormat {
    Tex,
    Tfm,
    Pk,
}

impl MkTexFormat {
    /// The word that the engine knows the value by.
    pub open spec fn word(&self) -> Seq<char> {
        match self {
            MkTexFormat::Tex => "tex"@,
            MkTexFormat::Tfm => "tfm"@,
            MkTexFormat::Pk => "pk"@,
        }
    }

    /// The word that the engine knows the value by.
    pub fn as_str(&self) -> (out: &'static str)
        ensures
            out@ == self.word(),
    {
        match self {
            MkTexFormat::Tex => "tex",
            MkTexFormat::Tfm => "tfm",
            MkTexFormat::Pk => "pk",
        }
    }
}

/// Gives its flag and then the word for the value.
impl ArgValue for MkTexFormat {
    open spec fn arg_tokens(&self, name: Seq<char>) -> Seq<Seq<char>> {
        seq![name, self.word()]
    }

    fn set_cmd_arg<C: Command>(&self, name: &str, cmd: &mut C) {
        cmd.arg(name);
        cmd.arg(self.as_str());
        assert(old(cmd).arguments().push(name@).push(self.word()) =~= old(cmd).arguments() + seq![
            name@,
            self.word(),
        ]);
    }
}

/// The places where source specials can be inserted.
#[derive(Debug, Clone, Copy, PartialEq, Eq, Structural)]
pub enum SrcSpecial {
    Cr,
    Display,
    Hbox,
    Math,
    Par,
    Parend,
    Vbox,
}

impl SrcSpecial {
    /// The word that the engine knows the value by.
    pub open spec fn word(&self) -> Seq<char> {
        match self {
            SrcSpecial::Cr => "cr"@,
            SrcSpecial::Display => "display"@,
            SrcSpecial::Hbox => "hbox"@,
            SrcSpecial::Math => "math"@,
            SrcSpecial::Par => "par"@,
            SrcSpecial::Parend => "parend"@,
            SrcSpecial::Vbox => "vbox"@,
        }
    }

    /// The word that the engine knows the value by.
    pub fn as_str(&self) -> (out: &'static str)
        ensures
            out@ == self.word(),
    {
        match self {
            SrcSpecial::Cr => "cr",
            SrcSpecial::Display => "display",
            SrcSpecial::Hbox => "hbox",
            SrcSpecial::Math => "math",
            SrcSpecial::Par => "par",
            SrcSpecial::Parend => "parend",
            SrcSpecial::Vbox => "vbox",
        }
    }
}

/// Gives its flag and then the word for the value.
impl ArgValue for SrcSpecial {
    open spec fn arg_tokens(&self, name: Seq<char>) -> Seq<Seq<char>> {
        seq![name, self.word()]
    }

    fn set_cmd_arg<C: Command>(&self, name: &str, cmd: &mut C) {
        cmd.arg(name);
        cmd.arg(self.as_str());
        assert(old(cmd).arguments().push(name@).push(self.word()) =~= old(cmd).arguments() + seq![
            name@,
            self.word(),
        ]);
    }
}

/// The formats that the engine can write.
#[derive(Debug, Clone, Copy, PartialEq, Eq, Structural)]
pub enum Format {
    Pdf,
    Dvi,
}

impl Format {
    /// The word that the engine knows the value by.
    pub open spec fn word(&self) -> Seq<char> {
        match self {
            Format::Pdf => "pdf"@,
            Format::Dvi => "dvi"@,
        }
    }

    /// The word that the engine knows the value by.
    pub fn as_str(&self) -> (out: &'static str)
        ensures
            out@ == self.word(),
    {
        match self {
            Format::Pdf => "pdf",
            Format::Dvi => "dvi",
        }
    }
}

/// Gives its flag and then the word for the value.
impl ArgValue for Format {
    open spec fn arg_tokens(&self, name: Seq<char>) -> Seq<Seq<char>> {
        seq![name, self.word()]
    }

    fn set_cmd_arg<C: Command>(&self, name: &str, cmd: &mut C) {
        cmd.arg(name);
        cmd.arg(self.as_str());
        assert(old(cmd).arguments().push(name@).push(self.word()) =~= old(cmd).arguments() + seq![
            name@,
            self.word(),
        ]);
    }
}

pub type ConfigurationFileLine = String;

pub type TcxName = String;

/// The number that says how SyncTeX data is written.
pub type SynctexNumber = i32;

pub const SYNCTEX_GZIPPED: SynctexNumber = 1;

pub const SYNCTEX_UNZIPPED: SynctexNumber = -1;

/// The number that says what kpathsea reports of its searches.
pub type KpathseaNumber = i32;

/// The flag that pdfLaTeX knows the option `field` by: pdfLaTeX writes its
/// options with one hyphen.
pub open spec fn field_flag(field: Seq<char>) -> Seq<char> {
    flag_name(CaseConvention::OneDashKebabCase, None, field)
}

/// The flag for making all characters printable, which is no field name.
pub const EIGHT_BIT_FLAG: &'static str = "-8bit";

/// The options that pdfLaTeX takes on its command line.
#[derive(Debug)]
pub struct CommandLineOptions {
    /// parse STRING as a configuration file line
    pub cnf_line: Option<String>,
    /// switch on draft mode (generates no output PDF)
    pub draftmode: bool,
    /// enable encTeX extensions such as \mubyte
    pub enc: bool,
    /// enable e-TeX extensions
    pub etex: bool,
    /// enable file:line:error style messages
    pub file_line_error: bool,
    /// disable file:line:error style messages
    pub no_file_line_error: bool,
    /// use FMTNAME instead of program name or a %& line
    pub fmt: Option<String>,
    /// stop processing at the first error
    pub halt_on_error: bool,
    /// be pdfinitex, for dumping formats
    pub ini: bool,
    /// set interaction mode
    pub interaction: Option<InteractionMode>,
    /// send DVI output to a socket as well as the usual output file
    pub ipc: bool,
    /// as -ipc, and also start the server at the other end
    pub ipc_start: bool,
    /// set the job name to STRING
    pub jobname: Option<String>,
    /// set path searching debugging flags according to the bits of NUMBER
    pub kpathsea_debug: Option<KpathseaNumber>,
    /// enable mktexFMT generation (FMT=tex/tfm/pk)
    pub mktex: Option<MkTexFormat>,
    /// disable mktexFMT generation (FMT=tex/tfm/pk)
    pub no_mktex: Option<MkTexFormat>,
    /// enable MLTeX extensions such as \charsubdef
    pub mltex: bool,
    /// use STRING for DVI file comment instead of date (no effect for PDF)
    pub output_comment: Option<String>,
    /// use existing DIR as the directory to write files in
    pub output_directory: Option<String>,
    /// use FORMAT for job output; FORMAT is `dvi` or `pdf`
    pub output_format: Option<Format>,
    /// enable parsing of first line of input file
    pub parse_first_line: bool,
    /// disable parsing of first line of input file
    pub no_parse_first_line: bool,
    /// set program (and fmt) name to STRING
    pub progname: Option<String>,
    /// enable filename recorder
    pub recorder: bool,
    /// enable \write18{SHELL COMMAND}
    pub shell_escape: bool,
    /// disable \write18{SHELL COMMAND}
    pub no_shell_escape: bool,
    /// enable restricted \write18
    pub shell_restricted: bool,
    /// insert source specials in certain places of the DVI file
    pub src_specials: Option<Vec<SrcSpecial>>,
    /// generate SyncTeX data for previewers according to bits of NUMBER
    pub synctex: Option<SynctexNumber>,
    /// use the TCX file TCXNAME
    pub translate_file: Option<TcxName>,
    /// make all characters printable by default
    pub eight_bit: bool,
    /// display this help and exit
    pub help: bool,
    /// output version information and exit
    pub version: bool,
}

impl Default for CommandLineOptions {
    /// No option is set.
    fn default() -> (out: Self)
        ensures
            out.cnf_line is None,
            !out.draftmode,
            !out.enc,
            !out.etex,
            !out.file_line_error,
            !out.no_file_line_error,
            out.fmt is None,
            !out.halt_on_error,
            !out.ini,
            out.interaction is None,
            !out.ipc,
            !out.ipc_start,
            out.jobname is None,
            out.kpathsea_debug is None,
            out.mktex is None,
            out.no_mktex is None,
            !out.mltex,
            out.output_comment is None,
            out.output_directory is None,
            out.output_format is None,
            !out.parse_first_line,
            !out.no_parse_first_line,
            out.progname is None,
            !out.recorder,
            !out.shell_escape,
            !out.no_shell_escape,
            !out.shell_restricted,
            out.src_specials is None,
            out.synctex is None,
            out.translate_file is None,
            !out.eight_bit,
            !out.help,
            !out.version,
    {
        CommandLineOptions {
            cnf_line: None,
            draftmode: false,
            enc: false,
            etex: false,
            file_line_error: false,
            no_file_line_error: false,
            fmt: None,
            halt_on_error: false,
            ini: false,
            interaction: None,
            ipc: false,
            ipc_start: false,
            jobname: None,
            kpathsea_debug: None,
            mktex: None,
            no_mktex: None,
            mltex: false,
            output_comment: None,
            output_directory: None,
            output_format: None,
            parse_first_line: false,
            no_parse_first_line: false,
            progname: None,
            recorder: false,
            shell_escape: false,
            no_shell_escape: false,
            shell_restricted: false,
            src_specials: None,
            synctex: None,
            translate_file: None,
            eight_bit: false,
            help: false,
            version: false,
        }
    }
}

/// Every option gives itself under its flag, in the order of the fields.
impl Options for CommandLineOptions {
    open spec fn flags(&self) -> Seq<Seq<char>> {
        Seq::<Seq<char>>::empty()
            + self.cnf_line.arg_tokens(field_flag("cnf_line"@))
            + self.draftmode.arg_tokens(field_flag("draftmode"@))
            + self.enc.arg_tokens(field_flag("enc"@))
            + self.etex.arg_tokens(field_flag("etex"@))
            + self.file_line_error.arg_tokens(field_flag("file_line_error"@))
            + self.no_file_line_error.arg_tokens(field_flag("no_file_line_error"@))
            + self.fmt.arg_tokens(field_flag("fmt"@))
            + self.halt_on_error.arg_tokens(field_flag("halt_on_error"@))
            + self.ini.arg_tokens(field_flag("ini"@))
            + self.interaction.arg_tokens(field_flag("interaction"@))
            + self.ipc.arg_tokens(field_flag("ipc"@))
            + self.ipc_start.arg_tokens(field_flag("ipc_start"@))
            + self.jobname.arg_tokens(field_flag("jobname"@))
            + self.kpathsea_debug.arg_tokens(field_flag("kpathsea_debug"@))
            + self.mktex.arg_tokens(field_flag("mktex"@))
            + self.no_mktex.arg_tokens(field_flag("no_mktex"@))
            + self.mltex.arg_tokens(field_flag("mltex"@))
            + self.output_comment.arg_tokens(field_flag("output_comment"@))
            + self.output_directory.arg_tokens(field_flag("output_directory"@))
            + self.output_format.arg_tokens(field_flag("output_format"@))
            + self.parse_first_line.arg_tokens(field_flag("parse_first_line"@))
            + self.no_parse_first_line.arg_tokens(field_flag("no_parse_first_line"@))
            + self.progname.arg_tokens(field_flag("progname"@))
            + self.recorder.arg_tokens(field_flag("recorder"@))
            + self.shell_escape.arg_tokens(field_flag("shell_escape"@))
            + self.no_shell_escape.arg_tokens(field_flag("no_shell_escape"@))
            + self.shell_restricted.arg_tokens(field_flag("shell_restricted"@))
            + self.src_specials.arg_tokens(field_flag("src_specials"@))
            + self.synctex.arg_tokens(field_flag("synctex"@))
            + self.translate_file.arg_tokens(field_flag("translate_file"@))
            + self.eight_bit.arg_tokens(EIGHT_BIT_FLAG@)
            + self.help.arg_tokens(field_flag("help"@))
            + self.version.arg_tokens(field_flag("version"@))
    }

    fn apply<C: Command>(self, cmd: &mut C) {
        let ctx = LoweringCtx::new(
            CaseConvention::OneDashKebabCase,
            ValueConvention::Space,
            ArrayConvention::Repeat,
        );
        let eight_bit = Rename(String::from_str(EIGHT_BIT_FLAG));
        let mut list: Vec<String> = Vec::new();
        assert(texts(list@) =~= Seq::<Seq<char>>::empty());
        self.cnf_line.set_cmd_arg(ctx.flag(None, "cnf_line").as_str(), &mut list);
        self.draftmode.set_cmd_arg(ctx.flag(None, "draftmode").as_str(), &mut list);
        self.enc.set_cmd_arg(ctx.flag(None, "enc").as_str(), &mut list);
        self.etex.set_cmd_arg(ctx.flag(None, "etex").as_str(), &mut list);
        self.file_line_error.set_cmd_arg(ctx.flag(None, "file_line_error").as_str(), &mut list);
        self.no_file_line_error.set_cmd_arg(ctx.flag(None, "no_file_line_error").as_str(), &mut list);
        self.fmt.set_cmd_arg(ctx.flag(None, "fmt").as_str(), &mut list);
        self.halt_on_error.set_cmd_arg(ctx.flag(None, "halt_on_error").as_str(), &mut list);
        self.ini.set_cmd_arg(ctx.flag(None, "ini").as_str(), &mut list);
        self.interaction.set_cmd_arg(ctx.flag(None, "interaction").as_str(), &mut list);
        self.ipc.set_cmd_arg(ctx.flag(None, "ipc").as_str(), &mut list);
        self.ipc_start.set_cmd_arg(ctx.flag(None, "ipc_start").as_str(), &mut list);
        self.jobname.set_cmd_arg(ctx.flag(None, "jobname").as_str(), &mut list);
        self.kpathsea_debug.set_cmd_arg(ctx.flag(None, "kpathsea_debug").as_str(), &mut list);
        self.mktex.set_cmd_arg(ctx.flag(None, "mktex").as_str(), &mut list);
        self.no_mktex.set_cmd_arg(ctx.flag(None, "no_mktex").as_str(), &mut list);
        self.mltex.set_cmd_arg(ctx.flag(None, "mltex").as_str(), &mut list);
        self.output_comment.set_cmd_arg(ctx.flag(None, "output_comment").as_str(), &mut list);
        self.output_directory.set_cmd_arg(ctx.flag(None, "output_directory").as_str(), &mut list);
        self.output_format.set_cmd_arg(ctx.flag(None, "output_format").as_str(), &mut list);
        self.parse_first_line.set_cmd_arg(ctx.flag(None, "parse_first_line").as_str(), &mut list);
        self.no_parse_first_line.set_cmd_arg(ctx.flag(None, "no_parse_first_line").as_str(), &mut list);
        self.progname.set_cmd_arg(ctx.flag(None, "progname").as_str(), &mut list);
        self.recorder.set_cmd_arg(ctx.flag(None, "recorder").as_str(), &mut list);
        self.shell_escape.set_cmd_arg(ctx.flag(None, "shell_escape").as_str(), &mut list);
        self.no_shell_escape.set_cmd_arg(ctx.flag(None, "no_shell_escape").as_str(), &mut list);
        self.shell_restricted.set_cmd_arg(ctx.flag(None, "shell_restricted").as_str(), &mut list);
        self.src_specials.set_cmd_arg(ctx.flag(None, "src_specials").as_str(), &mut list);
        self.synctex.set_cmd_arg(ctx.flag(None, "synctex").as_str(), &mut list);
        self.translate_file.set_cmd_arg(ctx.flag(None, "translate_file").as_str(), &mut list);
        self.eight_bit.set_cmd_arg(ctx.flag(Some(&eight_bit), "eight_bit").as_str(), &mut list);
        self.help.set_cmd_arg(ctx.flag(None, "help").as_str(), &mut list);
        self.version.set_cmd_arg(ctx.flag(None, "version").as_str(), &mut list);
        append_arguments(cmd, &list);
    }
}

/// The variable that tells the engine where to search for input files.
pub const TEXINPUTS: &'static str = "TEXINPUTS";

/// The variable that tells the engine how long a line of its output may get
/// before it is wrapped.
pub const MAX_PRINT_LINE: &'static str = "max_print_line";

/// What stands between the directories of a search path, and at its end,
/// where it tells the engine to search its own directories too.
pub const SEARCH_PATH_SEPARATOR: &'static str = ":";

/// The longest line that the engine can be told to print: with this length
/// it wraps no line.
pub const UNWRAPPED_LINE_LENGTH: i32 = i32::MAX;

/// The search path that lists the directories `dirs` and then leaves the rest
/// to the engine.
pub open spec fn search_path(dirs: Seq<Seq<char>>) -> Seq<char> {
    joined(dirs, SEARCH_PATH_SEPARATOR@) + SEARCH_PATH_SEPARATOR@
}

/// The arguments for an optional text under the flag `flag`.
pub open spec fn text_tokens(value: Option<Seq<char>>, flag: Seq<char>) -> Seq<Seq<char>> {
    match value {
        Some(text) => seq![flag, text],
        None => Seq::empty(),
    }
}

/// The arguments for an optional number under the flag `flag`.
pub open spec fn number_tokens(value: Option<int>, flag: Seq<char>) -> Seq<Seq<char>> {
    match value {
        Some(n) => seq![flag, decimal(n)],
        None => Seq::empty(),
    }
}

/// The arguments for a switch under the flag `flag`.
pub open spec fn switch_tokens(on: bool, flag: Seq<char>) -> Seq<Seq<char>> {
    if on {
        seq![flag]
    } else {
        Seq::empty()
    }
}

/// The options that pdfLaTeX is run with: it never stops to ask, and then
/// come, each only if it is set, the job name, the directory to write to, the
/// two switches for shell escape, and SyncTeX.
pub open spec fn pdflatex_arguments(
    jobname: Option<Seq<char>>,
    output_directory: Option<Seq<char>>,
    shell_escape: bool,
    no_shell_escape: bool,
    synctex: Option<int>,
) -> Seq<Seq<char>> {
    seq![field_flag("interaction"@), InteractionMode::NonStopMode.word()] + text_tokens(
        jobname,
        field_flag("jobname"@),
    ) + text_tokens(output_directory, field_flag("output_directory"@)) + switch_tokens(
        shell_escape,
        field_flag("shell_escape"@),
    ) + switch_tokens(no_shell_escape, field_flag("no_shell_escape"@)) + number_tokens(
        synctex,
        field_flag("synctex"@),
    )
}

/// The text that an optional string holds.
pub open spec fn text_of(value: Option<String>) -> Option<Seq<char>> {
    match value {
        Some(text) => Some(text@),
        None => None,
    }
}

/// Builds the command that runs pdfLaTeX.
#[derive(Debug)]
pub struct PdflatexBuilder {
    cmd: Invocation,
    texinputs: Vec<String>,
    cli_options: CommandLineOptions,
    input: String,
}

impl PdflatexBuilder {
    /// The builder sets the options that it has a method for, and no other.
    #[verifier::type_invariant]
    spec fn other_options_unset(self) -> bool {
        &&& self.cli_options.interaction == Some(InteractionMode::NonStopMode)
        &&& !self.cli_options.draftmode
        &&& !self.cli_options.enc
        &&& !self.cli_options.etex
        &&& !self.cli_options.file_line_error
        &&& !self.cli_options.no_file_line_error
        &&& !self.cli_options.halt_on_error
        &&& !self.cli_options.ini
        &&& !self.cli_options.ipc
        &&& !self.cli_options.ipc_start
        &&& !self.cli_options.mltex
        &&& !self.cli_options.parse_first_line
        &&& !self.cli_options.no_parse_first_line
        &&& !self.cli_options.recorder
        &&& !self.cli_options.shell_restricted
        &&& !self.cli_options.eight_bit
        &&& !self.cli_options.help
        &&& !self.cli_options.version
        &&& self.cli_options.cnf_line is None
        &&& self.cli_options.fmt is None
        &&& self.cli_options.kpathsea_debug is None
        &&& self.cli_options.mktex is None
        &&& self.cli_options.no_mktex is None
        &&& self.cli_options.output_comment is None
        &&& self.cli_options.output_format is None
        &&& self.cli_options.progname is None
        &&& self.cli_options.src_specials is None
        &&& self.cli_options.translate_file is None
    }

    /// The program that is run.
    pub closed spec fn program(&self) -> Seq<char> {
        self.cmd.program@
    }

    /// The variables that the program is run with, before those that the
    /// builder adds at the end.
    pub closed spec fn envs(&self) -> Seq<(Seq<char>, Seq<char>)> {
        self.cmd@.envs
    }

    /// The directory that the program is run in.
    pub closed spec fn current_dir(&self) -> Option<Seq<char>> {
        self.cmd@.current_dir
    }

    /// The directories that the engine is to search, in order.
    pub closed spec fn texinputs(&self) -> Seq<Seq<char>> {
        texts(self.texinputs@)
    }

    /// The job name, if one is set.
    pub closed spec fn jobname(&self) -> Option<Seq<char>> {
        text_of(self.cli_options.jobname)
    }

    /// The directory that the engine is to write to, if one is set.
    pub closed spec fn output_directory(&self) -> Option<Seq<char>> {
        text_of(self.cli_options.output_directory)
    }

    /// Whether the engine is told to let the document run programs.
    pub closed spec fn shell_escape(&self) -> bool {
        self.cli_options.shell_escape
    }

    /// Whether the engine is told not to let the document run programs.
    pub closed spec fn no_shell_escape(&self) -> bool {
        self.cli_options.no_shell_escape
    }

    /// How the engine is to write SyncTeX data, if at all.
    pub closed spec fn synctex(&self) -> Option<int> {
        match self.cli_options.synctex {
            Some(n) => Some(n as int),
            None => None,
        }
    }

    /// The file that the engine is to start from.
    pub closed spec fn input(&self) -> Seq<char> {
        self.input@
    }

    /// Whether `other` is as `self` but for the options and the input.
    pub open spec fn same_command(&self, other: &Self) -> bool {
        &&& other.program() == self.program()
        &&& other.envs() == self.envs()
        &&& other.current_dir() == self.current_dir()
        &&& other.texinputs() == self.texinputs()
    }

    /// Whether `other` has the options of `self`.
    pub open spec fn same_options(&self, other: &Self) -> bool {
        &&& other.jobname() == self.jobname()
        &&& other.output_directory() == self.output_directory()
        &&& other.shell_escape() == self.shell_escape()
        &&& other.no_shell_escape() == self.no_shell_escape()
        &&& other.synctex() == self.synctex()
        &&& other.input() == self.input()
    }

    /// A builder for the program that `conf` names for pdfLaTeX. Nothing is
    /// set yet, and the engine is to start from the main file.
    pub fn new(conf: &LargoConfig) -> (out: Self)
        ensures
            out.program() == conf.build.execs.pdflatex@,
            out.envs() == Seq::<(Seq<char>, Seq<char>)>::empty(),
            out.current_dir() is None,
            out.texinputs() == Seq::<Seq<char>>::empty(),
            out.jobname() is None,
            out.output_directory() is None,
            !out.shell_escape(),
            !out.no_shell_escape(),
            out.synctex() is None,
            out.input() == crate::dirs::MAIN_FILE@,
    {
        let cmd = Invocation::new(conf.build.execs.pdflatex.as_str());
        let mut cli_options = CommandLineOptions::default();
        cli_options.interaction = Some(InteractionMode::NonStopMode);
        PdflatexBuilder {
            cmd,
            texinputs: Vec::new(),
            cli_options,
            input: String::from_str(crate::dirs::MAIN_FILE),
        }
    }

    /// Runs the engine in the source directory, and lets it search there
    /// first.
    pub fn with_src_dir<P: AsPath<SrcDir>>(self, path: P) -> (out: Self)
        ensures
            out.program() == self.program(),
            out.envs() == self.envs(),
            out.current_dir() == Some(path.path()),
            out.texinputs() == self.texinputs().push(path.path()),
            self.same_options(&out),
    {
        proof {
            use_type_invariant(&self);
        }
        let PdflatexBuilder { mut cmd, mut texinputs, cli_options, input } = self;
        let dir = path.to_path_string();
        cmd.current_dir = Some(dir.clone());
        texinputs.push(dir);
        assert(texts(texinputs@) =~= texts(self.texinputs@).push(path.path()));
        PdflatexBuilder { cmd, texinputs, cli_options, input }
    }

    /// Makes the engine write to the build directory.
    pub fn with_build_dir<P: AsPath<ProfileTargetDir>>(self, dir: P) -> (out: Self)
        ensures
            self.same_command(&out),
            out.output_directory() == Some(dir.path()),
            out.jobname() == self.jobname(),
            out.shell_escape() == self.shell_escape(),
            out.no_shell_escape() == self.no_shell_escape(),
            out.synctex() == self.synctex(),
            out.input() == self.input(),
    {
        proof {
            use_type_invariant(&self);
        }
        let mut out = self;
        out.cli_options.output_directory = Some(dir.to_path_string());
        out
    }

    /// Makes the engine start from the generated start file.
    pub fn with_start_file<P: AsPath<StartFile>>(self, file: P) -> (out: Self)
        ensures
            self.same_command(&out),
            out.input() == file.path(),
            out.output_directory() == self.output_directory(),
            out.jobname() == self.jobname(),
            out.shell_escape() == self.shell_escape(),
            out.no_shell_escape() == self.no_shell_escape(),
            out.synctex() == self.synctex(),
    {
        proof {
            use_type_invariant(&self);
        }
        let mut out = self;
        out.input = file.to_path_string();
        out
    }

    /// How much of the engine's output is passed on is for the caller of the
    /// engine to decide: the command is the same at every verbosity.
    pub fn with_verbosity(self, _verbosity: &crate::building::Verbosity) -> (out: Self)
        ensures
            self.same_command(&out),
            self.same_options(&out),
    {
        self
    }

    /// Makes the engine write compressed SyncTeX data, if `use_synctex`.
    pub fn with_synctex(self, use_synctex: bool) -> (out: Self)
        ensures
            self.same_command(&out),
            out.synctex() == (if use_synctex {
                Some(SYNCTEX_GZIPPED as int)
            } else {
                self.synctex()
            }),
            out.output_directory() == self.output_directory(),
            out.jobname() == self.jobname(),
            out.shell_escape() == self.shell_escape(),
            out.no_shell_escape() == self.no_shell_escape(),
            out.input() == self.input(),
    {
        proof {
            use_type_invariant(&self);
        }
        let mut out = self;
        if use_synctex {
            out.cli_options.synctex = Some(SYNCTEX_GZIPPED);
        }
        out
    }

    /// Sets the job name.
    pub fn with_jobname(self, jobname: String) -> (out: Self)
        ensures
            self.same_command(&out),
            out.jobname() == Some(jobname@),
            out.output_directory() == self.output_directory(),
            out.synctex() == self.synctex(),
            out.shell_escape() == self.shell_escape(),
            out.no_shell_escape() == self.no_shell_escape(),
            out.input() == self.input(),
    {
        proof {
            use_type_invariant(&self);
        }
        let mut out = self;
        out.cli_options.jobname = Some(jobname);
        out
    }

    /// Tells the engine to let the document run programs (`Some(true)`), not
    /// to let it (`Some(false)`), or neither.
    pub fn with_shell_escape(self, shell_escape: Option<bool>) -> (out: Self)
        ensures
            self.same_command(&out),
            out.shell_escape() == (self.shell_escape() || shell_escape == Some(true)),
            out.no_shell_escape() == (self.no_shell_escape() || shell_escape == Some(false)),
            out.output_directory() == self.output_directory(),
            out.jobname() == self.jobname(),
            out.synctex() == self.synctex(),
            out.input() == self.input(),
    {
        proof {
            use_type_invariant(&self);
        }
        let mut out = self;
        match shell_escape {
            Some(true) => {
                out.cli_options.shell_escape = true;
            },
            Some(false) => {
                out.cli_options.no_shell_escape = true;
            },
            None => (),
        }
        out
    }

    /// Lets the engine search the directories of the dependencies, in order,
    /// after those it searches already.
    pub fn with_dependencies(self, deps: &DependencyPaths) -> (out: Self)
        ensures
            out.program() == self.program(),
            out.envs() == self.envs(),
            out.current_dir() == self.current_dir(),
            out.texinputs() == self.texinputs() + texts(deps@),
            self.same_options(&out),
    {
        proof {
            use_type_invariant(&self);
        }
        let PdflatexBuilder { cmd, mut texinputs, cli_options, input } = self;
        let mut i: usize = 0;
        assert(texts(deps@).take(0) =~= Seq::<Seq<char>>::empty());
        assert(texts(texinputs@) + Seq::<Seq<char>>::empty() =~= texts(texinputs@));
        while i < deps.len()
            invariant
                i <= deps@.len(),
                texts(texinputs@) == texts(self.texinputs@) + texts(deps@).take(i as int),
            decreases deps@.len() - i,
        {
            let ghost before = texinputs@;
            texinputs.push(deps[i].clone());
            assert(texts(deps@).take(i + 1) =~= texts(deps@).take(i as int).push(deps@[i as int]@));
            assert(texts(texinputs@) =~= texts(before).push(deps@[i as int]@));
            assert(texts(texinputs@) =~= texts(self.texinputs@) + texts(deps@).take(i + 1));
            i += 1;
        }
        assert(texts(deps@).take(i as int) =~= texts(deps@));
        PdflatexBuilder { cmd, texinputs, cli_options, input }
    }

    /// The engine that was asked for. It gets the options that were set and
    /// then the file to start from, runs where it was told to, and is told
    /// two things through its environment: not to wrap the lines that it
    /// prints, and where to search for its input.
    pub fn finish(self) -> (out: Engine)
        ensures
            out.command()@ == (InvocationView {
                program: self.program(),
                args: pdflatex_arguments(
                    self.jobname(),
                    self.output_directory(),
                    self.shell_escape(),
                    self.no_shell_escape(),
                    self.synctex(),
                ).push(self.input()),
                envs: self.envs().push(
                    (MAX_PRINT_LINE@, decimal(UNWRAPPED_LINE_LENGTH as int)),
                ).push((TEXINPUTS@, search_path(self.texinputs()))),
                current_dir: self.current_dir(),
            }),
    {
        proof {
            use_type_invariant(&self);
        }
        let ghost flags = self.cli_options.flags();
        assert(flags =~= pdflatex_arguments(
            self.jobname(),
            self.output_directory(),
            self.shell_escape(),
            self.no_shell_escape(),
            self.synctex(),
        ));
        let mut cmd = self.cmd;
        let line_length = signed_to_decimal(UNWRAPPED_LINE_LENGTH as i128);
        cmd.env(MAX_PRINT_LINE, line_length.as_str());
        let mut texinputs = format_joined(&self.texinputs, SEARCH_PATH_SEPARATOR);
        texinputs.append(SEARCH_PATH_SEPARATOR);
        cmd.env(TEXINPUTS, texinputs.as_str());
        let mut args: Vec<String> = Vec::new();
        assert(texts(args@) =~= Seq::<Seq<char>>::empty());
        self.cli_options.apply(&mut args);
        args.push(self.input);
        assert(texts(args@) =~= flags.push(self.input@));
        cmd.args = args;
        Engine::new(cmd)
    }
}

} // verus!
