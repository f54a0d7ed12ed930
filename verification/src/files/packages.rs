//! The first lines of a new LaTeX package or class.

use crate::text::{contains, decimal, occurs_in, signed_to_decimal, unsigned_to_decimal};
use vstd::prelude::*;
use vstd::string::StringExecFns;

verus! {

/// The TeX formats that a package can ask for.
#[derive(Debug, Clone, Copy, PartialEq, Eq, Structural)]
pub enum PackageTexFormat {
    Latex2e,
}

impl PackageTexFormat {
    /// The name that LaTeX knows the format by.
    pub open spec fn word(&self) -> Seq<char> {
        match self {
            PackageTexFormat::Latex2e => "LaTeX2e"@,
        }
    }

    /// The name that LaTeX knows the format by.
    pub fn as_str(&self) -> (out: &'static str)
        ensures
            out@ == self.word(),
    {
        match self {
            PackageTexFormat::Latex2e => "LaTeX2e",
        }
    }
}

/// The name of a package or class.
#[derive(Debug, Clone, Copy)]
pub struct PackageName<'a>(&'a str);

impl<'a> View for PackageName<'a> {
    type V = Seq<char>;

    closed spec fn view(&self) -> Seq<char> {
        self.0@
    }
}

impl<'a> PackageName<'a> {
    /// The package name `name`.
    pub fn new(name: &'a str) -> (out: Self)
        ensures
            out@ == name@,
    {
        PackageName(name)
    }

    /// The name as text.
    pub fn as_str(&self) -> (out: &'a str)
        ensures
            out@ == self@,
    {
        self.0
    }
}

/// The date of a package. The year is signed: perhaps LaTeX packages were
/// written in antiquity.
#[derive(Debug, Clone, Copy, PartialEq, Eq, Structural)]
pub struct PackageDate {
    pub year: i32,
    pub month: u32,
    pub day: u32,
}

/// What stands between the parts of a date.
pub const DATE_SEPARATOR: char = '/';

impl PackageDate {
    /// The date as LaTeX reads it: year, month and day, with a slash between
    /// each two.
    pub open spec fn text(&self) -> Seq<char> {
        decimal(self.year as int) + seq![DATE_SEPARATOR] + decimal(self.month as int) + seq![
            DATE_SEPARATOR,
        ] + decimal(self.day as int)
    }

    /// Appends the date to `out`.
    pub fn write(&self, out: &mut String)
        ensures
            final(out)@ == old(out)@ + self.text(),
    {
        out.append(signed_to_decimal(self.year as i128).as_str());
        out.push(DATE_SEPARATOR);
        out.append(unsigned_to_decimal(self.month as u128).as_str());
        out.push(DATE_SEPARATOR);
        out.append(unsigned_to_decimal(self.day as u128).as_str());
        assert(out@ =~= old(out)@ + self.text());
    }
}

/// The phrase that no banner may hold: it is kept for LaTeX itself.
pub const RESERVED_PHRASE: &'static str = "Standard LaTeX";

/// Why a text cannot be a banner.
#[derive(Debug, Clone, Copy, PartialEq, Eq, Structural)]
pub enum BannerError {
    /// The text holds the phrase that is kept for LaTeX itself.
    ReservedPhrase,
}

/// The banner that identifies a package in the optional argument of the
/// macro that provides it.
#[derive(Debug)]
pub struct IdentBanner(String);

impl View for IdentBanner {
    type V = Seq<char>;

    closed spec fn view(&self) -> Seq<char> {
        self.0@
    }
}

impl IdentBanner {
    /// The banner that reads `s`, unless `s` holds the reserved phrase.
    pub fn new(s: String) -> (out: Result<Self, BannerError>)
        ensures
            match out {
                Ok(banner) => !occurs_in(s@, RESERVED_PHRASE@) && banner@ == s@,
                Err(err) => occurs_in(s@, RESERVED_PHRASE@) && err == BannerError::ReservedPhrase,
            },
    {
        if contains(s.as_str(), RESERVED_PHRASE) {
            Err(BannerError::ReservedPhrase)
        } else {
            Ok(IdentBanner(s))
        }
    }

    /// The banner as text.
    pub fn as_str(&self) -> (out: &str)
        ensures
            out@ == self@,
    {
        self.0.as_str()
    }
}

/// The optional argument of the macro that provides a package: its date, and
/// its banner if it has one.
#[derive(Debug)]
pub struct ProvidesOptionalArg {
    pub date: PackageDate,
    pub banner: Option<IdentBanner>,
}

impl ProvidesOptionalArg {
    /// The argument as LaTeX reads it: the date, and after a space the banner.
    pub open spec fn text(&self) -> Seq<char> {
        self.date.text() + (match self.banner {
            Some(banner) => seq![' '] + banner@,
            None => Seq::empty(),
        })
    }

    /// The argument for a package of the date `date` without a banner.
    pub fn with_date(date: PackageDate) -> (out: Self)
        ensures
            out.date == date,
            out.banner is None,
    {
        ProvidesOptionalArg { date, banner: None }
    }

    /// Appends the argument to `out`.
    pub fn write(&self, out: &mut String)
        ensures
            final(out)@ == old(out)@ + self.text(),
    {
        self.date.write(out);
        if let Some(banner) = &self.banner {
            out.push(' ');
            out.append(banner.as_str());
        }
        assert(out@ =~= old(out)@ + self.text());
    }
}

/// What a template is for.
#[derive(Debug, Clone, Copy, PartialEq, Eq, Structural)]
pub enum PackageKind {
    Package,
    Class,
}

impl PackageKind {
    /// The name of the macro that provides a file of this kind.
    pub open spec fn macro_name(&self) -> Seq<char> {
        match self {
            PackageKind::Package => "ProvidesPackage"@,
            PackageKind::Class => "ProvidesClass"@,
        }
    }

    /// The name of the macro that provides a file of this kind.
    pub fn provides_macro(&self) -> (out: &'static str)
        ensures
            out@ == self.macro_name(),
    {
        match self {
            PackageKind::Package => "ProvidesPackage",
            PackageKind::Class => "ProvidesClass",
        }
    }
}

/// What a template of either kind holds.
#[derive(Debug)]
pub struct TemplateData<'a> {
    pub kind: PackageKind,
    pub name: PackageName<'a>,
    pub needs_format: PackageTexFormat,
    pub provides_options: Option<ProvidesOptionalArg>,
}

/// The first lines of a package or class: the format that it needs, and the
/// macro that provides it, with its name and, in brackets, its optional
/// argument.
pub open spec fn template_text(
    kind: PackageKind,
    name: Seq<char>,
    needs_format: PackageTexFormat,
    options: Option<Seq<char>>,
) -> Seq<char> {
    "\\NeedsTexFormat{"@ + needs_format.word() + "}\n\\"@ + kind.macro_name() + seq!['{'] + name
        + seq!['}'] + (match options {
        Some(text) => seq!['['] + text + seq![']'],
        None => Seq::empty(),
    }) + seq!['\n']
}

impl<'a> TemplateData<'a> {
    /// The text of the template.
    pub open spec fn text(&self) -> Seq<char> {
        template_text(
            self.kind,
            self.name@,
            self.needs_format,
            match self.provides_options {
                Some(options) => Some(options.text()),
                None => None,
            },
        )
    }

    /// The template for a file of the kind `kind` called `name` that was
    /// written on `date`. It asks for LaTeX2e.
    pub fn new(kind: PackageKind, name: &PackageName<'a>, date: PackageDate) -> (out: Self)
        ensures
            out.kind == kind,
            out.name@ == name@,
            out.needs_format == PackageTexFormat::Latex2e,
            out.provides_options is Some,
            out.provides_options->0.date == date,
            out.provides_options->0.banner is None,
    {
        TemplateData {
            kind,
            name: *name,
            needs_format: PackageTexFormat::Latex2e,
            provides_options: Some(ProvidesOptionalArg::with_date(date)),
        }
    }

    /// The text of the template.
    pub fn render(&self) -> (out: String)
        ensures
            out@ == self.text(),
    {
        let mut out = String::from_str("\\NeedsTexFormat{");
        out.append(self.needs_format.as_str());
        out.append("}\n\\");
        out.append(self.kind.provides_macro());
        out.push('{');
        out.append(self.name.as_str());
        out.push('}');
        if let Some(options) = &self.provides_options {
            out.push('[');
            options.write(&mut out);
            out.push(']');
        }
        out.push('\n');
        assert(out@ =~= self.text());
        out
    }
}

/// The first lines of a new package.
#[derive(Debug)]
pub struct PackageTemplate<'a>(TemplateData<'a>);

impl<'a> PackageTemplate<'a> {
    /// What the template holds.
    pub closed spec fn data(&self) -> TemplateData<'a> {
        self.0
    }

    /// The template for the package `name`, written on `date`.
    pub fn new(name: &PackageName<'a>, date: PackageDate) -> (out: Self)
        ensures
            out.data().text() == template_text(
                PackageKind::Package,
                name@,
                PackageTexFormat::Latex2e,
                Some(date.text()),
            ),
    {
        let data = TemplateData::new(PackageKind::Package, name, date);
        assert(data.provides_options->0.text() =~= date.text());
        PackageTemplate(data)
    }

    /// The text of the template.
    pub fn render(&self) -> (out: String)
        ensures
            out@ == self.data().text(),
    {
        self.0.render()
    }
}

/// The first lines of a new class.
#[derive(Debug)]
pub struct ClassTemplate<'a>(TemplateData<'a>);

impl<'a> ClassTemplate<'a> {
    /// What the template holds.
    pub closed spec fn data(&self) -> TemplateData<'a> {
        self.0
    }

    /// The template for the class `name`, written on `date`.
    pub fn new(name: &PackageName<'a>, date: PackageDate) -> (out: Self)
        ensures
            out.data().text() == template_text(
                PackageKind::Class,
                name@,
                PackageTexFormat::Latex2e,
                Some(date.text()),
            ),
    {
        let data = TemplateData::new(PackageKind::Class, name, date);
        assert(data.provides_options->0.text() =~= date.text());
        ClassTemplate(data)
    }

    /// The text of the template.
    pub fn render(&self) -> (out: String)
        ensures
            out@ == self.data().text(),
    {
        self.0.render()
    }
}

} // verus!
