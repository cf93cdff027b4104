//! Branch lifecycle decisions: which branch a new worktree binds to, whether
//! that branch must first be created, how a local branch's short name is read
//! out of a fully qualified reference, and the default branch name.

use vstd::prelude::*;
use crate::Error;
use crate::path::WtPath;
use crate::text::str_eq;

verus! {

/// A request to create a new worktree.
///
/// `name` is the directory name of the worktree.  At most one of
/// `branch_name` (check out this existing branch) and `new_branch` (create a
/// branch under this name) is given; the command layer enforces that they are
/// not combined.  `symlinks` lists sources to link into the new worktree.
#[derive(Debug, Clone)]
pub struct New {
    pub name: String,
    pub branch_name: Option<String>,
    pub new_branch: Option<String>,
    pub symlinks: Vec<WtPath>,
}

/// The request names an existing branch to check out.
pub open spec fn uses_existing_branch(args: New) -> bool {
    args.branch_name is Some
}

/// The request names a brand-new branch to create.
pub open spec fn uses_named_new_branch(args: New) -> bool {
    args.branch_name is None && args.new_branch is Some
}

/// The request names no branch, so the directory name becomes the branch.
pub open spec fn uses_directory_name(args: New) -> bool {
    args.branch_name is None && args.new_branch is None
}

/// Exactly one of the three branch-request forms applies to any request.
pub proof fn lemma_branch_request_total(args: New)
    ensures
        uses_existing_branch(args) || uses_named_new_branch(args) || uses_directory_name(args),
        !(uses_existing_branch(args) && uses_named_new_branch(args)),
        !(uses_existing_branch(args) && uses_directory_name(args)),
        !(uses_named_new_branch(args) && uses_directory_name(args)),
{
}

/// Resolves a new-worktree request to the branch name to use and whether
/// that branch must first be created: an existing branch is reused as it is,
/// a requested new branch is created under its own name, and with no branch
/// named at all the directory name is used for a branch that must be created.
pub fn new_worktree_branch_name(args: &New) -> (r: (String, bool))
    ensures
        uses_existing_branch(*args) ==> r.0@ == args.branch_name->0@ && r.1 == false,
        uses_named_new_branch(*args) ==> r.0@ == args.new_branch->0@ && r.1 == true,
        uses_directory_name(*args) ==> r.0@ == args.name@ && r.1 == true,
{
    match &args.branch_name {
        Some(branch_name) => (branch_name.clone(), false),
        None => match &args.new_branch {
            Some(new_branch) => (new_branch.clone(), true),
            None => (args.name.clone(), true),
        },
    }
}

/// The shape of a fully qualified local branch reference:
/// `refs/heads/<name>` with a nonempty name.
pub open spec fn is_local_branch_ref(s: Seq<char>) -> bool {
    s.len() > "refs/heads/"@.len() && s.subrange(0, "refs/heads/"@.len() as int)
        == "refs/heads/"@
}

/// The short branch name inside a local branch reference.
pub open spec fn spec_branch_of_ref(s: Seq<char>) -> Seq<char> {
    s.skip("refs/heads/"@.len() as int)
}

/// Extracts the short branch name from a fully qualified reference, and
/// fails on any reference that is not exactly a local branch reference
/// (for example a tag or a remote-tracking reference).
pub fn branch_from_ref(ref_name: &str) -> (r: Result<String, Error>)
    ensures
        r matches Ok(b) ==> is_local_branch_ref(ref_name@) && b@ == spec_branch_of_ref(ref_name@),
        r matches Err(e) ==> !is_local_branch_ref(ref_name@) && e == Error::NotLocalBranchRef,
{
    proof {
        reveal_strlit("refs/heads/");
        assert("refs/heads/"@.len() == 11);
    }
    let n = ref_name.unicode_len();
    if n <= 11 {
        return Err(Error::NotLocalBranchRef);
    }
    let prefix = ref_name.substring_char(0, 11);
    if !str_eq(prefix, "refs/heads/") {
        return Err(Error::NotLocalBranchRef);
    }
    let rest = ref_name.substring_char(11, n);
    proof {
        assert(rest@ =~= ref_name@.skip(11));
    }
    Ok(rest.to_owned())
}

/// The branch name a fresh repository starts on: the configured global
/// default when one is set, and the fixed fallback name otherwise.
pub open spec fn spec_default_branch(configured: Option<Seq<char>>) -> Seq<char> {
    match configured {
        Some(c) => c,
        None => "main"@,
    }
}

/// Picks the default branch name from the global configuration value, falling
/// back to the fixed name when none is configured.  The configuration read
/// itself is backend work; its result is handed in here.
pub fn global_default_branch_name(configured: Option<String>) -> (r: String)
    ensures
        r@ == spec_default_branch(match configured {
            Some(c) => Some(c@),
            None => None,
        }),
{
    match configured {
        Some(c) => c,
        None => String::from_str("main"),
    }
}

} // verus!
