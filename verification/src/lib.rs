//! Verified core of a manager for git worktree projects.
//!
//! A project is a directory holding one subdirectory per worktree, all
//! worktrees being direct siblings, exactly one of them (the main worktree)
//! holding the shared git metadata.  This crate holds the logic of that
//! layout: path derivation, branch-request resolution, reference-name
//! parsing, the two-phase clone bootstrap, and the sequencing of worktree
//! removal with branch deletion.  The version-control backend, prompting and
//! logging are collaborators outside this crate; they drive the state
//! machines defined here and perform the actions those machines request.

use vstd::prelude::*;

pub mod bootstrap;
pub mod branch;
pub mod cli;
pub mod init;
pub mod path;
pub mod removal;
pub mod text;
pub mod worktree;

verus! {

/// The failures the core itself can detect or must classify.
///
/// Backend failures are carried verbatim in `Backend`; the other variants
/// are precondition or topology errors of the core's own rules.
#[derive(Debug, Clone, PartialEq, Eq)]
pub enum Error {
    /// A worktree path had no parent directory.
    NoParent,
    /// A reference name did not have the `refs/heads/<name>` shape.
    NotLocalBranchRef,
    /// A fresh clone reported no local branches.
    NoBranches,
    /// A fresh clone reported more than one local branch, so its default
    /// branch cannot be read off the listing.
    ManyBranches,
    /// A cloned checkout's path had no final component.
    NoRepoName,
    /// A symlink source was not under the main worktree's root.
    NotUnderMainWorktree,
    /// Nothing but the default-branch worktree exists, so nothing can be removed.
    NoOtherWorktrees,
    /// The user declined the removal confirmation.
    Cancelled,
    /// A caller-supplied destination path does not exist (rendered form attached).
    PathMissing(String),
    /// A clone created no new directory under its destination.
    CloneMadeNoDirectory,
    /// A clone created more than one new directory under its destination.
    CloneMadeManyDirectories,
    /// A failing backend operation, with its diagnostic text.
    Backend(String),
    /// A driver handed a state machine an event its phase cannot take.
    UnexpectedEvent,
}

impl Error {
    /// The human-readable description of this error.
    pub open spec fn spec_message(self) -> Seq<char> {
        match self {
            Error::NoParent => "worktree had no parent"@,
            Error::NotLocalBranchRef => "failed to get branch name from ref"@,
            Error::NoBranches => "repo had no branches"@,
            Error::ManyBranches => "repo had more than one branch"@,
            Error::NoRepoName => "repo path had no file name"@,
            Error::NotUnderMainWorktree => "symlink source is not under the main worktree"@,
            Error::NoOtherWorktrees => "no other worktrees to remove"@,
            Error::Cancelled => "removal cancelled"@,
            Error::PathMissing(p) => "path does not exist: "@ + p@,
            Error::CloneMadeNoDirectory => "clone didn't create a directory"@,
            Error::CloneMadeManyDirectories => "clone created more than one directory"@,
            Error::Backend(m) => m@,
            Error::UnexpectedEvent => "unexpected event for this phase"@,
        }
    }

    /// Renders the error for the command layer, which owns all presentation.
    pub fn message(&self) -> (r: String)
        ensures
            r@ == self.spec_message(),
    {
        match self {
            Error::NoParent => String::from_str("worktree had no parent"),
            Error::NotLocalBranchRef => String::from_str("failed to get branch name from ref"),
            Error::NoBranches => String::from_str("repo had no branches"),
            Error::ManyBranches => String::from_str("repo had more than one branch"),
            Error::NoRepoName => String::from_str("repo path had no file name"),
            Error::NotUnderMainWorktree => String::from_str(
                "symlink source is not under the main worktree",
            ),
            Error::NoOtherWorktrees => String::from_str("no other worktrees to remove"),
            Error::Cancelled => String::from_str("removal cancelled"),
            Error::PathMissing(p) => {
                let mut m = String::from_str("path does not exist: ");
                m.append(p.as_str());
                m
            },
            Error::CloneMadeNoDirectory => String::from_str("clone didn't create a directory"),
            Error::CloneMadeManyDirectories => String::from_str(
                "clone created more than one directory",
            ),
            Error::Backend(m) => m.clone(),
            Error::UnexpectedEvent => String::from_str("unexpected event for this phase"),
        }
    }
}

} // verus!
