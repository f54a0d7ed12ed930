//! Command-line argument making: from settings to the arguments of a program.
//!
//! A set of options is a struct whose fields know how to contribute
//! themselves, under a flag name, to the arguments of a command.

use crate::text::{decimal, signed_to_decimal, texts, to_chars, unsigned_to_decimal};
use crate::typedir::{AsPath, Node, PathBuf};
use vstd::prelude::*;
use vstd::string::StringExecFns;

verus! {

/// How flags are made from field names.
#[derive(Debug, Clone, Copy, PartialEq, Eq, Structural)]
pub enum CaseConvention {
    /// `-my-param`
    OneDashKebabCase,
    /// `--my-param`
    TwoDashKebabCase,
}

impl Default for CaseConvention {
    fn default() -> (out: Self)
        ensures
            out == CaseConvention::TwoDashKebabCase,
    {
        CaseConvention::TwoDashKebabCase
    }
}

/// How values are given to flags.
#[derive(Debug, Clone, Copy, PartialEq, Eq, Structural)]
pub enum ValueConvention {
    /// `--param arg`
    Space,
    /// `--param=arg`
    NoSpaceEquals,
}

impl Default for ValueConvention {
    fn default() -> (out: Self)
        ensures
            out == ValueConvention::Space,
    {
        ValueConvention::Space
    }
}

/// How lists of values are given to flags.
#[derive(Debug, Clone, Copy, PartialEq, Eq, Structural)]
pub enum ArrayConvention {
    /// `--param=arg1 --param=arg2 --param=arg3`
    Repeat,
    /// `--param=arg1:arg2:arg3`
    Sep(char),
}

impl Default for ArrayConvention {
    fn default() -> (out: Self)
        ensures
            out == ArrayConvention::Repeat,
    {
        ArrayConvention::Repeat
    }
}

/// A flag to use for a field in place of the one made from its name.
#[derive(Debug)]
pub struct Rename(pub String);

/// The name `name` with a hyphen for every underscore.
pub open spec fn kebab(name: Seq<char>) -> Seq<char> {
    Seq::new(
        name.len(),
        |i: int|
            if name[i] == '_' {
                '-'
            } else {
                name[i]
            },
    )
}

/// The flag for the field `name` with one leading hyphen.
pub open spec fn one_dash_kebab(name: Seq<char>) -> Seq<char> {
    seq!['-'] + kebab(name)
}

/// The flag for the field `name` with two leading hyphens.
pub open spec fn two_dash_kebab(name: Seq<char>) -> Seq<char> {
    seq!['-', '-'] + kebab(name)
}

/// Appends to `out` the name `old` with a hyphen for every underscore.
fn push_kebab(out: &mut String, name: &str)
    ensures
        final(out)@ == old(out)@ + kebab(name@),
{
    let chars = to_chars(name);
    let ghost start = out@;
    let mut i: usize = 0;
    while i < chars.len()
        invariant
            i <= chars@.len(),
            chars@ == name@,
            out@ == start + kebab(name@).take(i as int),
        decreases chars@.len() - i,
    {
        let c = chars[i];
        if c == '_' {
            out.push('-');
        } else {
            out.push(c);
        }
        assert(kebab(name@).take(i + 1) =~= kebab(name@).take(i as int).push(kebab(name@)[i as int]));
        i += 1;
    }
    assert(kebab(name@).take(i as int) =~= kebab(name@));
}

/// Converts from snake case to kebab case with one leading hyphen.
pub fn to_one_dash_kebab_case(name: &str) -> (out: String)
    ensures
        out@ == one_dash_kebab(name@),
{
    let mut out = String::new();
    out.push('-');
    push_kebab(&mut out, name);
    assert(Seq::<char>::empty().push('-') =~= seq!['-']);
    out
}

/// Converts from snake case to kebab case with two leading hyphens.
pub fn to_two_dash_kebab_case(name: &str) -> (out: String)
    ensures
        out@ == two_dash_kebab(name@),
{
    let mut out = String::new();
    out.push('-');
    out.push('-');
    push_kebab(&mut out, name);
    assert(Seq::<char>::empty().push('-').push('-') =~= seq!['-', '-']);
    out
}

/// The flag that stands for the field `field`: the one it was renamed to, or
/// else the one that the case convention makes from its name.
pub open spec fn flag_name(case: CaseConvention, rename: Option<Seq<char>>, field: Seq<char>) -> Seq<
    char,
> {
    match rename {
        Some(flag) => flag,
        None => match case {
            CaseConvention::OneDashKebabCase => one_dash_kebab(field),
            CaseConvention::TwoDashKebabCase => two_dash_kebab(field),
        },
    }
}

/// The conventions by which the fields of one set of options become flags.
#[derive(Debug, Clone, Copy, PartialEq, Eq, Structural)]
pub struct LoweringCtx {
    pub case_convention: CaseConvention,
    pub value_convention: ValueConvention,
    pub array_convention: ArrayConvention,
}

impl LoweringCtx {
    pub fn new(
        case_conv: CaseConvention,
        value_conv: ValueConvention,
        array_conv: ArrayConvention,
    ) -> (out: Self)
        ensures
            out == (LoweringCtx {
                case_convention: case_conv,
                value_convention: value_conv,
                array_convention: array_conv,
            }),
    {
        LoweringCtx {
            case_convention: case_conv,
            value_convention: value_conv,
            array_convention: array_conv,
        }
    }

    /// The flag that the case convention makes from the field name `name`.
    pub fn convert_case(&self, name: &str) -> (out: String)
        ensures
            out@ == flag_name(self.case_convention, None, name@),
    {
        match self.case_convention {
            CaseConvention::OneDashKebabCase => to_one_dash_kebab_case(name),
            CaseConvention::TwoDashKebabCase => to_two_dash_kebab_case(name),
        }
    }

    /// The flag that stands for the field `field`.
    pub fn flag(&self, rename: Option<&Rename>, field: &str) -> (out: String)
        ensures
            out@ == flag_name(
                self.case_convention,
                match rename {
                    Some(r) => Some(r.0@),
                    None => None,
                },
                field@,
            ),
    {
        match rename {
            Some(r) => r.0.clone(),
            None => self.convert_case(field),
        }
    }
}

/// Something that arguments can be given to, one after the other.
pub trait Command: Sized {
    /// The arguments given so far, in order.
    spec fn arguments(&self) -> Seq<Seq<char>>;

    /// Adds one argument.
    fn arg(&mut self, arg: &str) -> (out: &mut Self)
        ensures
            out.arguments() == old(self).arguments().push(arg@),
            *final(self) == *final(out),
    ;

    /// Adds the arguments `args`, in order.
    fn args(&mut self, args: &[&str]) -> (out: &mut Self)
        ensures
            out.arguments() == old(self).arguments() + Seq::new(
                args@.len(),
                |i: int| args@[i]@,
            ),
            *final(self) == *final(out),
    ;
}

/// A plain list of arguments.
impl Command for Vec<String> {
    open spec fn arguments(&self) -> Seq<Seq<char>> {
        texts(self@)
    }

    fn arg(&mut self, arg: &str) -> (out: &mut Self) {
        self.push(String::from_str(arg));
        assert(texts(self@) =~= texts(old(self)@).push(arg@));
        self
    }

    fn args(&mut self, args: &[&str]) -> (out: &mut Self) {
        let ghost added = Seq::new(args@.len(), |i: int| args@[i]@);
        let mut i: usize = 0;
        while i < args.len()
            invariant
                i <= args@.len(),
                added == Seq::new(args@.len(), |i: int| args@[i]@),
                texts(self@) == texts(old(self)@) + added.take(i as int),
            decreases args@.len() - i,
        {
            let ghost before = self@;
            self.push(String::from_str(args[i]));
            assert(added.take(i + 1) =~= added.take(i as int).push(args@[i as int]@));
            assert(texts(self@) =~= texts(before).push(args@[i as int]@));
            assert(texts(self@) =~= texts(old(self)@) + added.take(i + 1));
            i += 1;
        }
        assert(added.take(i as int) =~= added);
        self
    }
}

/// Adds the arguments `list` to `cmd`, in order.
pub fn append_arguments<C: Command>(cmd: &mut C, list: &Vec<String>)
    ensures
        final(cmd).arguments() == old(cmd).arguments() + texts(list@),
{
    let mut i: usize = 0;
    assert(old(cmd).arguments() + texts(list@).take(0) =~= old(cmd).arguments());
    while i < list.len()
        invariant
            i <= list@.len(),
            cmd.arguments() == old(cmd).arguments() + texts(list@).take(i as int),
        decreases list@.len() - i,
    {
        cmd.arg(list[i].as_str());
        assert(old(cmd).arguments() + texts(list@).take(i + 1) =~= (old(cmd).arguments() + texts(
            list@,
        ).take(i as int)).push(list@[i as int]@));
        i += 1;
    }
    assert(texts(list@).take(i as int) =~= texts(list@));
}

/// A set of options that can give itself to a command as arguments.
pub trait Options: Sized {
    /// The arguments that the options stand for.
    spec fn flags(&self) -> Seq<Seq<char>>;

    /// Adds the arguments that the options stand for to `cmd`.
    fn apply<C: Command>(self, cmd: &mut C)
        ensures
            final(cmd).arguments() == old(cmd).arguments() + self.flags(),
    ;
}

/// A value that can give itself to a command under a flag.
pub trait ArgValue {
    /// The arguments that the value stands for under the flag `name`.
    spec fn arg_tokens(&self, name: Seq<char>) -> Seq<Seq<char>>;

    /// Adds the arguments that the value stands for under `name` to `cmd`.
    fn set_cmd_arg<C: Command>(&self, name: &str, cmd: &mut C)
        ensures
            final(cmd).arguments() == old(cmd).arguments() + self.arg_tokens(name@),
    ;
}

/// A switch gives its flag when it is on, and nothing else.
impl ArgValue for bool {
    open spec fn arg_tokens(&self, name: Seq<char>) -> Seq<Seq<char>> {
        if *self {
            seq![name]
        } else {
            Seq::empty()
        }
    }

    fn set_cmd_arg<C: Command>(&self, name: &str, cmd: &mut C) {
        if *self {
            cmd.arg(name);
            assert(old(cmd).arguments().push(name@) =~= old(cmd).arguments() + seq![name@]);
        } else {
            assert(old(cmd).arguments() + Seq::<Seq<char>>::empty() =~= old(cmd).arguments());
        }
    }
}

/// An absent value gives nothing; a present one gives what it holds.
impl<T: ArgValue> ArgValue for Option<T> {
    open spec fn arg_tokens(&self, name: Seq<char>) -> Seq<Seq<char>> {
        match self {
            Some(inner) => inner.arg_tokens(name),
            None => Seq::empty(),
        }
    }

    fn set_cmd_arg<C: Command>(&self, name: &str, cmd: &mut C) {
        match self {
            Some(inner) => {
                inner.set_cmd_arg(name, cmd);
            },
            None => {
                assert(old(cmd).arguments() + Seq::<Seq<char>>::empty() =~= old(cmd).arguments());
            },
        }
    }
}

/// Text gives its flag and then itself.
impl ArgValue for str {
    open spec fn arg_tokens(&self, name: Seq<char>) -> Seq<Seq<char>> {
        seq![name, self@]
    }

    fn set_cmd_arg<C: Command>(&self, name: &str, cmd: &mut C) {
        cmd.arg(name);
        cmd.arg(self);
        assert(old(cmd).arguments().push(name@).push(self@) =~= old(cmd).arguments() + seq![
            name@,
            self@,
        ]);
    }
}

/// Text gives its flag and then itself.
impl ArgValue for String {
    open spec fn arg_tokens(&self, name: Seq<char>) -> Seq<Seq<char>> {
        seq![name, self@]
    }

    fn set_cmd_arg<C: Command>(&self, name: &str, cmd: &mut C) {
        cmd.arg(name);
        cmd.arg(self.as_str());
        assert(old(cmd).arguments().push(name@).push(self@) =~= old(cmd).arguments() + seq![
            name@,
            self@,
        ]);
    }
}

/// A path gives its flag and then itself as text.
impl<N: Node> ArgValue for PathBuf<N> {
    open spec fn arg_tokens(&self, name: Seq<char>) -> Seq<Seq<char>> {
        seq![name, self@]
    }

    fn set_cmd_arg<C: Command>(&self, name: &str, cmd: &mut C) {
        let path = self.to_path_string();
        cmd.arg(name);
        cmd.arg(path.as_str());
        assert(old(cmd).arguments().push(name@).push(self@) =~= old(cmd).arguments() + seq![
            name@,
            self@,
        ]);
    }
}

/// A list gives nothing by itself: how a list is to be given is for each
/// field to say.
impl<T: ArgValue> ArgValue for Vec<T> {
    open spec fn arg_tokens(&self, name: Seq<char>) -> Seq<Seq<char>> {
        Seq::empty()
    }

    fn set_cmd_arg<C: Command>(&self, _name: &str, cmd: &mut C) {
        assert(old(cmd).arguments() + Seq::<Seq<char>>::empty() =~= old(cmd).arguments());
    }
}

/// A number gives its flag and then itself in base ten.
impl ArgValue for u8 {
    open spec fn arg_tokens(&self, name: Seq<char>) -> Seq<Seq<char>> {
        seq![name, decimal(*self as int)]
    }

    fn set_cmd_arg<C: Command>(&self, name: &str, cmd: &mut C) {
        let value = unsigned_to_decimal(*self as u128);
        cmd.arg(name);
        cmd.arg(value.as_str());
        assert(old(cmd).arguments().push(name@).push(value@) =~= old(cmd).arguments() + seq![
            name@,
            value@,
        ]);
    }
}

/// A number gives its flag and then itself in base ten.
impl ArgValue for u16 {
    open spec fn arg_tokens(&self, name: Seq<char>) -> Seq<Seq<char>> {
        seq![name, decimal(*self as int)]
    }

    fn set_cmd_arg<C: Command>(&self, name: &str, cmd: &mut C) {
        let value = unsigned_to_decimal(*self as u128);
        cmd.arg(name);
        cmd.arg(value.as_str());
        assert(old(cmd).arguments().push(name@).push(value@) =~= old(cmd).arguments() + seq![
            name@,
            value@,
        ]);
    }
}

/// A number gives its flag and then itself in base ten.
impl ArgValue for u32 {
    open spec fn arg_tokens(&self, name: Seq<char>) -> Seq<Seq<char>> {
        seq![name, decimal(*self as int)]
    }

    fn set_cmd_arg<C: Command>(&self, name: &str, cmd: &mut C) {
        let value = unsigned_to_decimal(*self as u128);
        cmd.arg(name);
        cmd.arg(value.as_str());
        assert(old(cmd).arguments().push(name@).push(value@) =~= old(cmd).arguments() + seq![
            name@,
            value@,
        ]);
    }
}

/// A number gives its flag and then itself in base ten.
impl ArgValue for u64 {
    open spec fn arg_tokens(&self, name: Seq<char>) -> Seq<Seq<char>> {
        seq![name, decimal(*self as int)]
    }

    fn set_cmd_arg<C: Command>(&self, name: &str, cmd: &mut C) {
        let value = unsigned_to_decimal(*self as u128);
        cmd.arg(name);
        cmd.arg(value.as_str());
        assert(old(cmd).arguments().push(name@).push(value@) =~= old(cmd).arguments() + seq![
            name@,
            value@,
        ]);
    }
}

/// A number gives its flag and then itself in base ten.
impl ArgValue for u128 {
    open spec fn arg_tokens(&self, name: Seq<char>) -> Seq<Seq<char>> {
        seq![name, decimal(*self as int)]
    }

    fn set_cmd_arg<C: Command>(&self, name: &str, cmd: &mut C) {
        let value = unsigned_to_decimal(*self as u128);
        cmd.arg(name);
        cmd.arg(value.as_str());
        assert(old(cmd).arguments().push(name@).push(value@) =~= old(cmd).arguments() + seq![
            name@,
            value@,
        ]);
    }
}

/// A number gives its flag and then itself in base ten.
impl ArgValue for usize {
    open spec fn arg_tokens(&self, name: Seq<char>) -> Seq<Seq<char>> {
        seq![name, decimal(*self as int)]
    }

    fn set_cmd_arg<C: Command>(&self, name: &str, cmd: &mut C) {
        let value = unsigned_to_decimal(*self as u128);
        cmd.arg(name);
        cmd.arg(value.as_str());
        assert(old(cmd).arguments().push(name@).push(value@) =~= old(cmd).arguments() + seq![
            name@,
            value@,
        ]);
    }
}

/// A number gives its flag and then itself in base ten.
impl ArgValue for i8 {
    open spec fn arg_tokens(&self, name: Seq<char>) -> Seq<Seq<char>> {
        seq![name, decimal(*self as int)]
    }

    fn set_cmd_arg<C: Command>(&self, name: &str, cmd: &mut C) {
        let value = signed_to_decimal(*self as i128);
        cmd.arg(name);
        cmd.arg(value.as_str());
        assert(old(cmd).arguments().push(name@).push(value@) =~= old(cmd).arguments() + seq![
            name@,
            value@,
        ]);
    }
}

/// A number gives its flag and then itself in base ten.
impl ArgValue for i16 {
    open spec fn arg_tokens(&self, name: Seq<char>) -> Seq<Seq<char>> {
        seq![name, decimal(*self as int)]
    }

    fn set_cmd_arg<C: Command>(&self, name: &str, cmd: &mut C) {
        let value = signed_to_decimal(*self as i128);
        cmd.arg(name);
        cmd.arg(value.as_str());
        assert(old(cmd).arguments().push(name@).push(value@) =~= old(cmd).arguments() + seq![
            name@,
            value@,
        ]);
    }
}

/// A number gives its flag and then itself in base ten.
impl ArgValue for i32 {
    open spec fn arg_tokens(&self, name: Seq<char>) -> Seq<Seq<char>> {
        seq![name, decimal(*self as int)]
    }

    fn set_cmd_arg<C: Command>(&self, name: &str, cmd: &mut C) {
        let value = signed_to_decimal(*self as i128);
        cmd.arg(name);
        cmd.arg(value.as_str());
        assert(old(cmd).arguments().push(name@).push(value@) =~= old(cmd).arguments() + seq![
            name@,
            value@,
        ]);
    }
}

/// A number gives its flag and then itself in base ten.
impl ArgValue for i64 {
    open spec fn arg_tokens(&self, name: Seq<char>) -> Seq<Seq<char>> {
        seq![name, decimal(*self as int)]
    }

    fn set_cmd_arg<C: Command>(&self, name: &str, cmd: &mut C) {
        let value = signed_to_decimal(*self as i128);
        cmd.arg(name);
        cmd.arg(value.as_str());
        assert(old(cmd).arguments().push(name@).push(value@) =~= old(cmd).arguments() + seq![
            name@,
            value@,
        ]);
    }
}

/// A number gives its flag and then itself in base ten.
impl ArgValue for i128 {
    open spec fn arg_tokens(&self, name: Seq<char>) -> Seq<Seq<char>> {
        seq![name, decimal(*self as int)]
    }

    fn set_cmd_arg<C: Command>(&self, name: &str, cmd: &mut C) {
        let value = signed_to_decimal(*self as i128);
        cmd.arg(name);
        cmd.arg(value.as_str());
        assert(old(cmd).arguments().push(name@).push(value@) =~= old(cmd).arguments() + seq![
            name@,
            value@,
        ]);
    }
}

/// A number gives its flag and then itself in base ten.
impl ArgValue for isize {
    open spec fn arg_tokens(&self, name: Seq<char>) -> Seq<Seq<char>> {
        seq![name, decimal(*self as int)]
    }

    fn set_cmd_arg<C: Command>(&self, name: &str, cmd: &mut C) {
        let value = signed_to_decimal(*self as i128);
        cmd.arg(name);
        cmd.arg(value.as_str());
        assert(old(cmd).arguments().push(name@).push(value@) =~= old(cmd).arguments() + seq![
            name@,
            value@,
        ]);
    }
}

} // verus!
