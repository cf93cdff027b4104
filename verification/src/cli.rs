//! The shape of a parsed invocation.
//!
//! Parsing itself (flags, help text, aliases) is the terminal front end's
//! job; what reaches the core is one of these plain values.

use vstd::prelude::*;
use crate::branch::New;
use crate::init::Init;
use crate::removal::Remove;

verus! {

/// Options that apply to every command.
#[derive(Debug)]
pub struct GlobalOptions {
    /// Silences all non-error output.
    pub quiet: bool,
}

/// The commands the tool offers.
#[derive(Debug)]
pub enum Commands {
    /// Create a new worktree project.
    Init(Init),
    /// Create a new worktree.
    New(New),
    /// Remove the specified worktrees.
    Remove(Remove),
    /// List worktrees.
    List,
    /// Create a worktree project by cloning a repository.
    Clone(crate::bootstrap::Clone),
}

/// A whole invocation: the global options and the chosen command, if any.
#[derive(Debug)]
pub struct Cli {
    pub global_opts: GlobalOptions,
    pub command: Option<Commands>,
}

} // verus!
