//! The variables that a build defines for the document, as TeX macros.

use crate::conf::ProfileName;
use crate::dirs::ProfileTargetDir;
use crate::typedir::{AsPath, PathBuf};
use vstd::prelude::*;
use vstd::string::StringExecFns;

verus! {

/// What every definition begins with: the macro's name begins with the name
/// of the tool.
pub const DEFINITION_START: &'static str = "\\def\\Largo";

/// The TeX code that defines the macro for the variable `var` as `value`.
pub open spec fn definition(var: Seq<char>, value: Seq<char>) -> Seq<char> {
    DEFINITION_START@ + var + seq!['{'] + value + seq!['}']
}

/// Appends to `defs` the TeX code that defines the macro for `var` as `value`.
pub fn push_definition(defs: &mut String, var: &str, value: &str)
    ensures
        final(defs)@ == old(defs)@ + definition(var@, value@),
{
    proof {
        reveal_strlit("{");
        reveal_strlit("}");
        assert("{"@ =~= seq!['{']);
        assert("}"@ =~= seq!['}']);
    }
    defs.append(DEFINITION_START);
    defs.append(var);
    defs.append("{");
    defs.append(value);
    defs.append("}");
    assert(defs@ =~= old(defs)@ + definition(var@, value@));
}

/// The variables that the document can read while it is built.
#[derive(Debug)]
pub struct LargoVars<'a> {
    pub profile: ProfileName<'a>,
    pub bibliography: Option<&'a str>,
    pub output_directory: &'a PathBuf<ProfileTargetDir>,
}

/// The definitions of the variables, in the order in which a document gets
/// them in one piece of TeX code: the profile, the bibliography if there is
/// one, and the directory that the build writes to.
pub open spec fn definitions(
    profile: Seq<char>,
    bibliography: Option<Seq<char>>,
    output_directory: Seq<char>,
) -> Seq<char> {
    definition("Profile"@, profile) + (match bibliography {
        Some(bib) => definition("Bibliography"@, bib),
        None => Seq::empty(),
    }) + definition("OutputDirectory"@, output_directory)
}

/// The text that an optional string slice holds.
pub open spec fn slice_text(value: Option<&str>) -> Option<Seq<char>> {
    match value {
        Some(text) => Some(text@),
        None => None,
    }
}

impl<'a> LargoVars<'a> {
    /// The TeX code that defines every variable.
    pub fn to_defs(self) -> (out: String)
        ensures
            out@ == definitions(
                self.profile@,
                slice_text(self.bibliography),
                self.output_directory@,
            ),
    {
        let mut defs = String::new();
        push_definition(&mut defs, "Profile", self.profile.as_str());
        if let Some(bib) = self.bibliography {
            push_definition(&mut defs, "Bibliography", bib);
        }
        let dir = self.output_directory.to_path_string();
        push_definition(&mut defs, "OutputDirectory", dir.as_str());
        assert(defs@ =~= definitions(
            self.profile@,
            slice_text(self.bibliography),
            self.output_directory@,
        ));
        defs
    }
}

} // verus!
