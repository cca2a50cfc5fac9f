//! Personal developer-productivity command line tools for Git, Dart and
//! Flutter projects: opening a repository's remote, self-updating the
//! installed binary, and batch-running commands across every Dart or Flutter
//! project found under a directory tree.
//!
//! The library holds the decision logic of each command: what to run next,
//! how to interpret what came back, and how failures are aggregated. Running
//! processes, reading files and printing belong to the surrounding binary,
//! which drives the state machines defined here.

pub mod cli;
pub mod dart;
pub mod dirs;
pub mod ford;
pub mod fua;
pub mod gho;
pub mod packages;
pub mod progress;
pub mod shell;
pub mod text;
pub mod update;
pub mod upgrade;

use vstd::prelude::*;

verus! {

/// The name under which the package is published and installed.
pub const PACKAGE_NAME: &'static str = "suitcase";

} // verus!
