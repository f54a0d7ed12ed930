//! TeX engines: the command that runs one, and what its output means.

use crate::clam::Command;
use crate::text::{starts_with, texts};
use vstd::prelude::*;
use vstd::string::StrSliceExecFns;
use vstd::string::StringExecFns;

pub mod pdflatex;

verus! {

/// The directories that the engine searches for the files of dependencies.
pub type DependencyPaths = Vec<String>;

/// The marker that the engine puts at the start of a line that reports an
/// error.
pub const ERROR_MARKER: &'static str = "! ";

/// One variable of the environment that a program runs in.
#[derive(Debug)]
pub struct EnvVar {
    pub name: String,
    pub value: String,
}

/// The variables `envs` as pairs of name and value.
pub open spec fn env_pairs(envs: Seq<EnvVar>) -> Seq<(Seq<char>, Seq<char>)> {
    Seq::new(envs.len(), |i: int| (envs[i].name@, envs[i].value@))
}

/// Everything that it takes to run a program: what to run, with which
/// arguments, in which environment and where.
#[derive(Debug)]
pub struct Invocation {
    pub program: String,
    pub args: Vec<String>,
    pub envs: Vec<EnvVar>,
    pub current_dir: Option<String>,
}

/// The mathematical value of an [`Invocation`].
pub struct InvocationView {
    pub program: Seq<char>,
    pub args: Seq<Seq<char>>,
    pub envs: Seq<(Seq<char>, Seq<char>)>,
    pub current_dir: Option<Seq<char>>,
}

impl View for Invocation {
    type V = InvocationView;

    open spec fn view(&self) -> InvocationView {
        InvocationView {
            program: self.program@,
            args: texts(self.args@),
            envs: env_pairs(self.envs@),
            current_dir: match self.current_dir {
                Some(dir) => Some(dir@),
                None => None,
            },
        }
    }
}

impl Invocation {
    /// The invocation of `program` with no arguments, in the environment and
    /// the directory of the caller.
    pub fn new(program: &str) -> (out: Self)
        ensures
            out@ == (InvocationView {
                program: program@,
                args: Seq::empty(),
                envs: Seq::empty(),
                current_dir: None,
            }),
    {
        let out = Invocation {
            program: String::from_str(program),
            args: Vec::new(),
            envs: Vec::new(),
            current_dir: None,
        };
        assert(texts(out.args@) =~= Seq::<Seq<char>>::empty());
        assert(env_pairs(out.envs@) =~= Seq::<(Seq<char>, Seq<char>)>::empty());
        out
    }

    /// Sets the variable `name` to `value` for the program. Where a variable
    /// is set more than once, the last value counts.
    pub fn env(&mut self, name: &str, value: &str)
        ensures
            final(self)@ == (InvocationView {
                envs: old(self)@.envs.push((name@, value@)),
                ..old(self)@
            }),
    {
        self.envs.push(EnvVar { name: String::from_str(name), value: String::from_str(value) });
        assert(env_pairs(self.envs@) =~= env_pairs(old(self).envs@).push((name@, value@)));
    }

    /// Makes the program run in the directory `dir`.
    pub fn current_dir(&mut self, dir: &str)
        ensures
            final(self)@ == (InvocationView { current_dir: Some(dir@), ..old(self)@ }),
    {
        self.current_dir = Some(String::from_str(dir));
    }

}

/// Arguments given to an invocation are added to those that it has; nothing
/// else about it changes.
impl Command for Invocation {
    open spec fn arguments(&self) -> Seq<Seq<char>> {
        self@.args
    }

    fn arg(&mut self, arg: &str) -> (out: &mut Self) {
        self.args.push(String::from_str(arg));
        assert(texts(self.args@) =~= texts(old(self).args@).push(arg@));
        self
    }

    fn args(&mut self, args: &[&str]) -> (out: &mut Self) {
        let ghost added = Seq::new(args@.len(), |i: int| args@[i]@);
        let mut i: usize = 0;
        while i < args.len()
            invariant
                i <= args@.len(),
                added == Seq::new(args@.len(), |i: int| args@[i]@),
                texts(self.args@) == texts(old(self).args@) + added.take(i as int),
            decreases args@.len() - i,
        {
            let ghost before = self.args@;
            self.args.push(String::from_str(args[i]));
            assert(added.take(i + 1) =~= added.take(i as int).push(args@[i as int]@));
            assert(texts(self.args@) =~= texts(before).push(args@[i as int]@));
            assert(texts(self.args@) =~= texts(old(self).args@) + added.take(i + 1));
            i += 1;
        }
        assert(added.take(i as int) =~= added);
        self
    }
}

/// A TeX engine, ready to run.
#[derive(Debug)]
pub struct Engine {
    cmd: Invocation,
}

impl Engine {
    /// The command that runs the engine.
    pub closed spec fn command(&self) -> Invocation {
        self.cmd
    }

    /// The engine that `cmd` runs.
    pub fn new(cmd: Invocation) -> (out: Self)
        ensures
            out.command() == cmd,
    {
        Engine { cmd }
    }

    /// The command that runs the engine.
    pub fn inner_cmd(&self) -> (out: &Invocation)
        ensures
            *out == self.command(),
    {
        &self.cmd
    }
}

/// What a line of the engine's output says.
#[derive(Debug)]
pub enum EngineInfo {
    /// The engine reports an error.
    Error { line: usize, msg: String },
}

/// The mathematical value of an [`EngineInfo`].
pub enum EngineInfoView {
    Error { line: nat, msg: Seq<char> },
}

impl View for EngineInfo {
    type V = EngineInfoView;

    open spec fn view(&self) -> EngineInfoView {
        match self {
            EngineInfo::Error { line, msg } => EngineInfoView::Error {
                line: *line as nat,
                msg: msg@,
            },
        }
    }
}

/// What the line `line` of the engine's output says: a line that begins with
/// the error marker reports an error, whose message is the rest of the line;
/// any other line says nothing.
pub open spec fn classified(line: Seq<char>) -> Option<EngineInfoView> {
    if ERROR_MARKER@.is_prefix_of(line) {
        Some(EngineInfoView::Error { line: 0, msg: line.skip(ERROR_MARKER@.len() as int) })
    } else {
        None
    }
}

/// The marker is an exclamation mark and a space.
pub proof fn lemma_error_marker()
    ensures
        ERROR_MARKER@ == seq!['!', ' '],
{
    reveal_strlit("! ");
    assert(ERROR_MARKER@ =~= seq!['!', ' ']);
}

/// Says what one line of the engine's output means.
pub fn classify(line: &str) -> (out: Option<EngineInfo>)
    ensures
        match out {
            Some(info) => classified(line@) == Some(info@),
            None => classified(line@) is None,
        },
{
    if starts_with(line, ERROR_MARKER) {
        let marker_len = ERROR_MARKER.unicode_len();
        let len = line.unicode_len();
        let msg = String::from_str(line.substring_char(marker_len, len));
        proof {
            assert(line@.subrange(marker_len as int, len as int) =~= line@.skip(marker_len as int));
        }
        Some(EngineInfo::Error { line: 0, msg })
    } else {
        None
    }
}

} // verus!
