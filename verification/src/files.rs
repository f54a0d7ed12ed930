//! The files that the tool itself writes into a project, and the rule that
//! guards the target directory.

use crate::conf::ProfileName;
use crate::dirs::{ProfileTargetDir, TargetDir};
use crate::text::starts_with;
use crate::typedir::{AsPath, Extend, PathBuf, SEPARATOR};
use vstd::prelude::*;

pub mod packages;

verus! {

/// What a new project tells git to leave alone: everything that a build
/// writes.
pub const GITIGNORE: &'static str = "/target\n";

/// The document that a new project starts with.
pub const MAIN_LATEX: &'static str =
    "\\documentclass{article}\n\\begin{document}\nHello, world!\n\\end{document}\n";

/// The line that a cache directory tag begins with.
pub const CACHEDIR_TAG_SIGNATURE: &'static str = "Signature: 8a477f597d28d172789f06886806bc55";

/// The whole of the tag that marks the target directory as a cache.
pub const CACHEDIR_TAG: &'static str =
    "Signature: 8a477f597d28d172789f06886806bc55\n# This file is a cache directory tag created by largo.\n# For information about cache directory tags, see:\n#\thttps://bford.info/cachedir/\n";

/// Whether `contents` are those of a cache directory tag: whether they begin
/// with the signature.
pub open spec fn is_cachedir_tag(contents: Seq<char>) -> bool {
    CACHEDIR_TAG_SIGNATURE@.is_prefix_of(contents)
}

/// Whether `contents` are those of a cache directory tag.
pub fn has_cachedir_signature(contents: &str) -> (out: bool)
    ensures
        out == is_cachedir_tag(contents@),
{
    starts_with(contents, CACHEDIR_TAG_SIGNATURE)
}

/// What cleaning is to do.
#[derive(Debug)]
pub enum CleanPlan {
    /// There is no target directory: nothing to remove.
    Nothing,
    /// This directory is to be removed with all that it holds.
    Remove(String),
}

/// The mathematical value of a [`CleanPlan`].
pub enum CleanPlanView {
    Nothing,
    Remove(Seq<char>),
}

impl View for CleanPlan {
    type V = CleanPlanView;

    open spec fn view(&self) -> CleanPlanView {
        match self {
            CleanPlan::Nothing => CleanPlanView::Nothing,
            CleanPlan::Remove(dir) => CleanPlanView::Remove(dir@),
        }
    }
}

/// Why cleaning refuses to remove anything.
#[derive(Debug)]
pub enum CleanError {
    /// The target directory holds no tag that could be read.
    MissingTag { dir: String },
    /// The tag of the target directory does not begin with the signature.
    InvalidSignature { dir: String },
}

/// The mathematical value of a [`CleanError`].
pub enum CleanErrorView {
    MissingTag { dir: Seq<char> },
    InvalidSignature { dir: Seq<char> },
}

impl View for CleanError {
    type V = CleanErrorView;

    open spec fn view(&self) -> CleanErrorView {
        match self {
            CleanError::MissingTag { dir } => CleanErrorView::MissingTag { dir: dir@ },
            CleanError::InvalidSignature { dir } => CleanErrorView::InvalidSignature { dir: dir@ },
        }
    }
}

/// What cleaning the target directory `target` is to do, for what was found
/// on disk: whether the directory exists, and what its tag holds, if it
/// could be read. Nothing is ever removed from a directory that exists
/// without a tag that begins with the signature. With one, the directory of
/// the profile is removed where a profile is named, and else the whole
/// target directory.
pub open spec fn clean_plan(
    target: Seq<char>,
    exists: bool,
    tag: Option<Seq<char>>,
    profile: Option<Seq<char>>,
) -> Result<CleanPlanView, CleanErrorView> {
    if !exists {
        Ok(CleanPlanView::Nothing)
    } else {
        match tag {
            None => Err(CleanErrorView::MissingTag { dir: target }),
            Some(contents) => if !is_cachedir_tag(contents) {
                Err(CleanErrorView::InvalidSignature { dir: target })
            } else {
                match profile {
                    Some(name) => Ok(CleanPlanView::Remove(target + seq![SEPARATOR] + name)),
                    None => Ok(CleanPlanView::Remove(target)),
                }
            },
        }
    }
}

/// Decides what cleaning the target directory `target` is to do.
pub fn plan_clean(
    target: PathBuf<TargetDir>,
    exists: bool,
    tag: Option<&str>,
    profile: Option<ProfileName>,
) -> (out: Result<CleanPlan, CleanError>)
    ensures
        match out {
            Ok(plan) => clean_plan(
                target@,
                exists,
                crate::vars::slice_text(tag),
                crate::building::name_view(profile),
            ) == Ok::<CleanPlanView, CleanErrorView>(plan@),
            Err(err) => clean_plan(
                target@,
                exists,
                crate::vars::slice_text(tag),
                crate::building::name_view(profile),
            ) == Err::<CleanPlanView, CleanErrorView>(err@),
        },
{
    if !exists {
        return Ok(CleanPlan::Nothing);
    }
    match tag {
        None => Err(CleanError::MissingTag { dir: target.to_path_string() }),
        Some(contents) => {
            if !has_cachedir_signature(contents) {
                Err(CleanError::InvalidSignature { dir: target.to_path_string() })
            } else {
                match profile {
                    Some(name) => {
                        let profile_dir: PathBuf<ProfileTargetDir> = target.extend(name);
                        Ok(CleanPlan::Remove(profile_dir.to_path_string()))
                    },
                    None => Ok(CleanPlan::Remove(target.to_path_string())),
                }
            }
        },
    }
}

} // verus!
