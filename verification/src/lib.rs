//! Build orchestration for TeX projects.
//!
//! A project is described by a manifest. From the manifest, the configuration
//! of the tool and the name of a profile, the library resolves the settings of
//! one build, lays out the directories of the project, builds the command that
//! runs the engine, and turns what the engine prints into a stream of
//! reports.
//!
//! - [`typedir`] and [`dirs`]: the layout of a project as a typed directory
//!   schema. A path handle can only be made by following a declared link.
//! - [`merge`], [`namemap`] and [`conf`]: the settings, and how layers of them
//!   are merged.
//! - [`building`]: the resolver, the builder of the engine's command, and the
//!   stream of what a build reports.
//! - [`clam`] and [`engines`]: how options become arguments, the command of
//!   the engine, and what its output means.
//! - [`files`], [`vars`], [`dependencies`], [`filter`], [`text`], [`util`]:
//!   what the tool writes into a project, and small tools.
//!
//! The library does no input or output. Whatever has to be read, written,
//! started or timed is done by the caller, who hands the library plain values
//! and gets plain values back.

pub mod building;
pub mod clam;
pub mod conf;
pub mod dependencies;
pub mod dirs;
pub mod engines;
pub mod files;
pub mod filter;
pub mod merge;
pub mod namemap;
pub mod text;
pub mod typedir;
pub mod util;
pub mod vars;
