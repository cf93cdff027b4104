//! Project initialization: where a brand-new project's first worktree goes.
//!
//! The command layer creates the directory, initializes the repository there
//! and makes the initial empty commit; the location itself is decided here.

use vstd::prelude::*;
use crate::path::{WtPath, spec_join};

verus! {

/// A request to initialize a new worktree project: the project's name (the
/// parent directory of all its worktrees) and, optionally, where to put it.
#[derive(Debug, Clone)]
pub struct Init {
    pub name: String,
    pub path: Option<WtPath>,
}

/// The location of a new project's first worktree: the requested parent (or
/// the current directory when none was requested), then the project's name,
/// then the default branch's name.
pub fn init_worktree_path(args: &Init, current_dir: &WtPath, default_branch: &String) -> (r:
    WtPath)
    ensures
        args.path matches Some(p) ==> r@ == spec_join(spec_join(p@, args.name@), default_branch@),
        args.path is None ==> r@ == spec_join(
            spec_join(current_dir@, args.name@),
            default_branch@,
        ),
{
    let parent = match &args.path {
        Some(p) => p,
        None => current_dir,
    };
    parent.join(&args.name).join(default_branch)
}

} // verus!
