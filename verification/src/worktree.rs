//! Worktree lifecycle decisions: where a new worktree goes, which branch it
//! binds to, where propagated symlinks land, and what a listing shows.
//!
//! The backend calls themselves (worktree add and remove, branch creation,
//! the symlink system call) are performed by the command layer, which follows
//! the plan these functions compute: the branch is created before the
//! worktree is added, and symlinks are placed only after the worktree exists.

use vstd::prelude::*;
use crate::Error;
use crate::branch::{
    New, new_worktree_branch_name, uses_directory_name, uses_existing_branch,
    uses_named_new_branch,
};
use crate::path::{PathModel, WtPath, new_worktree_path, spec_sibling};
use crate::text::{filter_not_equal, lex_sorted, sort_strings};

verus! {

/// Everything the backend must be told to create one worktree: the branch to
/// bind, whether that branch must first be created, and the directory.
pub struct NewPlan {
    pub branch: String,
    pub create_branch: bool,
    pub worktree_path: WtPath,
}

/// Resolves a new-worktree request against the main worktree's location.
/// The worktree goes to the main worktree's sibling named by the request;
/// the branch is the request's resolution (see [`new_worktree_branch_name`]).
/// Fails exactly when the main worktree's path has no parent.
pub fn plan_new_worktree(args: &New, main_wt: &WtPath) -> (r: Result<NewPlan, Error>)
    ensures
        r matches Ok(plan) ==> {
            &&& main_wt@.parts.len() > 0
            &&& plan.worktree_path@ == spec_sibling(main_wt@, args.name@)
            &&& (uses_existing_branch(*args) ==> plan.branch@ == args.branch_name->0@
                && !plan.create_branch)
            &&& (uses_named_new_branch(*args) ==> plan.branch@ == args.new_branch->0@
                && plan.create_branch)
            &&& (uses_directory_name(*args) ==> plan.branch@ == args.name@ && plan.create_branch)
        },
        r matches Err(e) ==> main_wt@.parts.len() == 0 && e == Error::NoParent,
{
    let worktree_path = match new_worktree_path(main_wt, &args.name) {
        Ok(p) => p,
        Err(e) => {
            return Err(e);
        },
    };
    let (branch, create_branch) = new_worktree_branch_name(args);
    Ok(NewPlan { branch, create_branch, worktree_path })
}

/// One symlink to place: the link to create, and the existing location it
/// points back at.
pub struct SymlinkSpec {
    pub link: WtPath,
    pub target: WtPath,
}

/// Whether `source` lies under `root`: same kind of path, and `root`'s
/// components are an initial run of `source`'s.
pub open spec fn is_under(source: PathModel, root: PathModel) -> bool {
    &&& source.absolute == root.absolute
    &&& root.parts.len() <= source.parts.len()
    &&& source.parts.subrange(0, root.parts.len() as int) == root.parts
}

/// Computes where a propagated symlink goes: the source's position relative
/// to the main worktree's root, reproduced inside the new worktree.  The
/// link's target is the source itself, byte for byte — a link is created, not
/// a copy.  Fails exactly when the source is not under the main worktree.
pub fn symlink_target(main_root: &WtPath, new_wt: &WtPath, source: &WtPath) -> (r: Result<
    SymlinkSpec,
    Error,
>)
    ensures
        r matches Ok(s) ==> {
            &&& is_under(source@, main_root@)
            &&& s.target@ == source@
            &&& s.link@.absolute == new_wt@.absolute
            &&& s.link@.parts == new_wt@.parts + source@.parts.skip(main_root@.parts.len() as int)
        },
        r matches Err(e) ==> !is_under(source@, main_root@) && e == Error::NotUnderMainWorktree,
{
    match source.strip_prefix(main_root) {
        None => Err(Error::NotUnderMainWorktree),
        Some(suffix) => {
            let link = new_wt.join_all(&suffix);
            proof {
                assert(source@.parts.subrange(0, main_root@.parts.len() as int)
                    =~= main_root@.parts);
                assert(suffix.deep_view() =~= source@.parts.skip(main_root@.parts.len() as int));
            }
            Ok(SymlinkSpec { link, target: source.duplicate() })
        },
    }
}

/// The listing of a project's worktrees: every reported name except the
/// default branch's own worktree, in lexicographic order.
pub fn list_worktrees(worktrees: &Vec<String>, default_branch: &String) -> (r: Vec<String>)
    ensures
        lex_sorted(r.deep_view()),
        r.deep_view().to_multiset() == worktrees.deep_view().filter(
            |s: Seq<char>| s != default_branch@,
        ).to_multiset(),
{
    let kept = filter_not_equal(worktrees, default_branch);
    sort_strings(&kept)
}

} // verus!
