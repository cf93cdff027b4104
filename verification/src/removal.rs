//! The removal coordinator.
//!
//! Removing worktrees interleaves backend work (listing, reading a branch
//! reference, removing a worktree, deleting a branch) and interaction (a
//! multi-select, a confirmation) with decisions that must be sequenced
//! carefully: a worktree's branch reference is read before its directory is
//! removed (it is unreadable afterwards), a branch is deleted only after its
//! worktree's removal succeeded and only against the main worktree, and a
//! failure on one target is reported but does not stop the remaining
//! targets.  The machine here makes every one of those decisions; its driver
//! performs each requested action and reports the outcome back.
//!
//! Confirmation policy: unless the force flag is given, the resolved target
//! list is always confirmed interactively, whether it came from explicit
//! names or from a selection; declining aborts with no side effects.

use vstd::prelude::*;
use crate::Error;
use crate::branch::{branch_from_ref, is_local_branch_ref, spec_branch_of_ref};
use crate::path::{PathModel, WtPath, sibling_worktree_path, spec_sibling};
use crate::text::{filter_not_equal, join_with, joined};

verus! {

/// A request to remove worktrees: the names to remove (an empty list means
/// "select interactively"), whether to skip confirmation, and whether to
/// leave the checked-out branches in place.
#[derive(Debug, Clone)]
pub struct Remove {
    pub names: Vec<String>,
    pub force: bool,
    pub leave_branches: bool,
}

/// What the coordinator's driver must do next.
pub enum RemovalAction {
    /// List the project's non-main worktree names and the default branch name.
    ListWorktrees,
    /// Present these candidates for multi-selection.
    SelectTargets(Vec<String>),
    /// Ask for a yes/no confirmation with this message (default: no).
    Confirm(String),
    /// Open the worktree at this location and read its branch reference.
    ReadBranchRef(WtPath),
    /// Remove the worktree at this location (forced).
    RemoveWorktree(WtPath),
    /// Delete this branch reference, against the main worktree.
    DeleteBranch(String),
    /// Print this per-target status line, then report back with `Proceed`.
    Report(String),
    /// The whole operation failed; nothing more will be asked.
    Fail(Error),
    /// Every target has been processed.
    Done,
}

/// What the driver reports back; backend failures carry the backend's text.
pub enum RemovalEvent {
    /// The worktree names and the default branch name.
    Listed(Vec<String>, String),
    /// The subset the user selected.
    Selected(Vec<String>),
    /// The user's answer to the confirmation.
    Confirmed(bool),
    /// The current worktree's full branch reference name, or why not.
    RefRead(Result<String, String>),
    /// The outcome of removing the current worktree.
    Removed(Result<(), String>),
    /// The outcome of deleting the current branch.
    Deleted(Result<(), String>),
    /// The requested report has been printed.
    Proceed,
}

/// Where the coordinator stands.
pub enum RemovalPhase {
    /// Waiting for the worktree listing.
    Listing,
    /// Waiting for the user's selection.
    Selecting,
    /// Waiting for the user's confirmation.
    Confirming,
    /// Waiting for the current target's branch reference.
    ReadingRef { name: String, path: WtPath },
    /// Waiting for the current target's worktree removal.
    Removing { name: String, full_ref: String },
    /// Waiting for the current target's branch deletion.
    Deleting { name: String, branch: String },
    /// Waiting for the driver to print a report before the next target.
    Advancing,
    /// Terminal: all targets processed.
    Finished,
    /// Terminal: the whole operation failed.
    Aborted,
}

/// The coordinator's state: the request, the main worktree's location, the
/// targets not yet begun, and the phase with the current target's data.
pub struct RemovalMachine {
    pub opts: Remove,
    pub main_wt: WtPath,
    pub remaining: Vec<String>,
    pub phase: RemovalPhase,
}

/// The confirmation prompt over the resolved target list.
pub open spec fn spec_confirm_message(targets: Seq<Seq<char>>) -> Seq<char> {
    "Are you sure you want to remove the selected worktrees?\n"@ + joined(targets, "\n"@) + "\n"@
}

/// Status line for a target whose worktree and branch are both gone.
pub open spec fn msg_removed_and_branch(name: Seq<char>, branch: Seq<char>) -> Seq<char> {
    "removed worktree '"@ + name + "' and branch '"@ + branch + "'"@
}

/// Status line for a target whose worktree is gone and whose branch was left.
pub open spec fn msg_removed(name: Seq<char>) -> Seq<char> {
    "removed worktree '"@ + name + "'"@
}

/// Report for a target whose location could not be derived.
pub open spec fn msg_path_failed(name: Seq<char>) -> Seq<char> {
    "couldn't get path for worktree '"@ + name + "': worktree had no parent"@
}

/// Report for a target whose branch reference could not be read.
pub open spec fn msg_ref_failed(name: Seq<char>, cause: Seq<char>) -> Seq<char> {
    "couldn't get branch for worktree '"@ + name + "': "@ + cause
}

/// Report for a target whose worktree removal failed.
pub open spec fn msg_remove_failed(name: Seq<char>, cause: Seq<char>) -> Seq<char> {
    "couldn't remove worktree '"@ + name + "': "@ + cause
}

/// Report for a removed target whose reference was not a local branch.
pub open spec fn msg_branch_parse_failed(name: Seq<char>) -> Seq<char> {
    "removed worktree '"@ + name
        + "' but couldn't delete its branch: failed to get branch name from ref"@
}

/// Report for a removed target whose branch deletion failed: the worktree is
/// gone, the branch reference still resolves.
pub open spec fn msg_delete_failed(name: Seq<char>, branch: Seq<char>, cause: Seq<char>) -> Seq<
    char,
> {
    "removed worktree '"@ + name + "' but couldn't delete branch '"@ + branch + "': "@ + cause
}

/// How a coordinator begins or resumes work on its target queue: with an
/// empty queue it finishes; otherwise it takes the head target, derives its
/// sibling location from the main worktree and asks for its branch reference
/// — or reports the derivation failure and moves on.
pub open spec fn starts_next_target(
    queue: Seq<Seq<char>>,
    main_wt: PathModel,
    post: RemovalMachine,
    act: RemovalAction,
) -> bool {
    if queue.len() == 0 {
        &&& post.phase is Finished
        &&& post.remaining.deep_view() == queue
        &&& act is Done
    } else {
        &&& post.remaining.deep_view() == queue.drop_first()
        &&& if main_wt.parts.len() == 0 {
            &&& post.phase is Advancing
            &&& (act matches RemovalAction::Report(msg) && msg@ == msg_path_failed(queue[0]))
        } else {
            &&& (post.phase matches RemovalPhase::ReadingRef { name, path } && name@ == queue[0]
                && path@ == spec_sibling(main_wt, queue[0]))
            &&& (act matches RemovalAction::ReadBranchRef(p) && p@ == spec_sibling(
                main_wt,
                queue[0],
            ))
        }
    }
}

/// The coordinator's whole transition relation: what one step does for every
/// phase and event, including that a mismatched event aborts the operation.
pub open spec fn removal_next(
    pre: RemovalMachine,
    ev: RemovalEvent,
    post: RemovalMachine,
    act: RemovalAction,
) -> bool {
    &&& post.opts == pre.opts
    &&& post.main_wt@ == pre.main_wt@
    &&& match (pre.phase, ev) {
        (RemovalPhase::Listing, RemovalEvent::Listed(worktrees, default_branch)) => {
            let cands = worktrees.deep_view().filter(|s: Seq<char>| s != default_branch@);
            if cands.len() == 0 {
                &&& post.phase is Aborted
                &&& post.remaining.deep_view() == pre.remaining.deep_view()
                &&& (act matches RemovalAction::Fail(e) && e == Error::NoOtherWorktrees)
            } else {
                &&& post.phase is Selecting
                &&& post.remaining.deep_view() == pre.remaining.deep_view()
                &&& (act matches RemovalAction::SelectTargets(c) && c.deep_view() == cands)
            }
        },
        (RemovalPhase::Selecting, RemovalEvent::Selected(sel)) => {
            if !pre.opts.force {
                &&& post.phase is Confirming
                &&& post.remaining.deep_view() == sel.deep_view()
                &&& (act matches RemovalAction::Confirm(m) && m@ == spec_confirm_message(
                    sel.deep_view(),
                ))
            } else {
                starts_next_target(sel.deep_view(), pre.main_wt@, post, act)
            }
        },
        (RemovalPhase::Confirming, RemovalEvent::Confirmed(yes)) => {
            if yes {
                starts_next_target(pre.remaining.deep_view(), pre.main_wt@, post, act)
            } else {
                &&& post.phase is Aborted
                &&& post.remaining.deep_view() == pre.remaining.deep_view()
                &&& (act matches RemovalAction::Fail(e) && e == Error::Cancelled)
            }
        },
        (RemovalPhase::ReadingRef { name, path }, RemovalEvent::RefRead(res)) => {
            &&& post.remaining.deep_view() == pre.remaining.deep_view()
            &&& match res {
                Ok(full_ref) => {
                    &&& (post.phase matches RemovalPhase::Removing { name: n, full_ref: fr } && n@
                        == name@ && fr@ == full_ref@)
                    &&& (act matches RemovalAction::RemoveWorktree(p) && p@ == path@)
                },
                Err(cause) => {
                    &&& post.phase is Advancing
                    &&& (act matches RemovalAction::Report(m) && m@ == msg_ref_failed(
                        name@,
                        cause@,
                    ))
                },
            }
        },
        (RemovalPhase::Removing { name, full_ref }, RemovalEvent::Removed(res)) => {
            &&& post.remaining.deep_view() == pre.remaining.deep_view()
            &&& match res {
                Ok(u) => {
                    if pre.opts.leave_branches {
                        &&& post.phase is Advancing
                        &&& (act matches RemovalAction::Report(m) && m@ == msg_removed(name@))
                    } else if is_local_branch_ref(full_ref@) {
                        &&& (post.phase matches RemovalPhase::Deleting { name: n, branch } && n@
                            == name@ && branch@ == spec_branch_of_ref(full_ref@))
                        &&& (act matches RemovalAction::DeleteBranch(fr) && fr@ == full_ref@)
                    } else {
                        &&& post.phase is Advancing
                        &&& (act matches RemovalAction::Report(m) && m@ == msg_branch_parse_failed(
                            name@,
                        ))
                    }
                },
                Err(cause) => {
                    &&& post.phase is Advancing
                    &&& (act matches RemovalAction::Report(m) && m@ == msg_remove_failed(
                        name@,
                        cause@,
                    ))
                },
            }
        },
        (RemovalPhase::Deleting { name, branch }, RemovalEvent::Deleted(res)) => {
            &&& post.remaining.deep_view() == pre.remaining.deep_view()
            &&& match res {
                Ok(u) => {
                    &&& post.phase is Advancing
                    &&& (act matches RemovalAction::Report(m) && m@ == msg_removed_and_branch(
                        name@,
                        branch@,
                    ))
                },
                Err(cause) => {
                    &&& post.phase is Advancing
                    &&& (act matches RemovalAction::Report(m) && m@ == msg_delete_failed(
                        name@,
                        branch@,
                        cause@,
                    ))
                },
            }
        },
        (RemovalPhase::Advancing, RemovalEvent::Proceed) => starts_next_target(
            pre.remaining.deep_view(),
            pre.main_wt@,
            post,
            act,
        ),
        (_, _) => {
            &&& post.phase is Aborted
            &&& post.remaining.deep_view() == pre.remaining.deep_view()
            &&& (act matches RemovalAction::Fail(e) && e == Error::UnexpectedEvent)
        },
    }
}

/// Builds the confirmation prompt shown before any removal.
fn confirmation_message(targets: &Vec<String>) -> (r: String)
    ensures
        r@ == spec_confirm_message(targets.deep_view()),
{
    let mut m = String::from_str("Are you sure you want to remove the selected worktrees?\n");
    let listed = join_with(targets, "\n");
    m.append(listed.as_str());
    m.append("\n");
    m
}

/// Three pieces of text laid end to end.
fn concat3(a: &str, b: &str, c: &str) -> (r: String)
    ensures
        r@ == a@ + b@ + c@,
{
    let mut s = a.to_owned();
    s.append(b);
    s.append(c);
    s
}

/// Four pieces of text laid end to end.
fn concat4(a: &str, b: &str, c: &str, d: &str) -> (r: String)
    ensures
        r@ == a@ + b@ + c@ + d@,
{
    let mut s = a.to_owned();
    s.append(b);
    s.append(c);
    s.append(d);
    s
}

/// Five pieces of text laid end to end.
fn concat5(a: &str, b: &str, c: &str, d: &str, e: &str) -> (r: String)
    ensures
        r@ == a@ + b@ + c@ + d@ + e@,
{
    let mut s = a.to_owned();
    s.append(b);
    s.append(c);
    s.append(d);
    s.append(e);
    s
}

/// Takes up the next target of the queue, or finishes.
fn start_next_target(opts: Remove, main_wt: WtPath, remaining: Vec<String>) -> (r: (
    RemovalMachine,
    RemovalAction,
))
    ensures
        r.0.opts == opts,
        r.0.main_wt@ == main_wt@,
        starts_next_target(remaining.deep_view(), main_wt@, r.0, r.1),
{
    let mut remaining = remaining;
    if remaining.len() == 0 {
        let m = RemovalMachine { opts, main_wt, remaining, phase: RemovalPhase::Finished };
        (m, RemovalAction::Done)
    } else {
        let ghost before = remaining.deep_view();
        let name = remaining.remove(0);
        proof {
            assert(remaining.deep_view() =~= before.drop_first());
            assert(name@ == before[0]);
        }
        match sibling_worktree_path(&main_wt, &name) {
            Ok(path) => {
                let act = RemovalAction::ReadBranchRef(path.duplicate());
                let m = RemovalMachine {
                    opts,
                    main_wt,
                    remaining,
                    phase: RemovalPhase::ReadingRef { name, path },
                };
                (m, act)
            },
            Err(_) => {
                let msg = concat3(
                    "couldn't get path for worktree '",
                    name.as_str(),
                    "': worktree had no parent",
                );
                let m = RemovalMachine { opts, main_wt, remaining, phase: RemovalPhase::Advancing };
                (m, RemovalAction::Report(msg))
            },
        }
    }
}

/// Starts the coordinator.  Explicit names are used verbatim (then confirmed
/// unless forced); an empty request asks for the worktree listing so the
/// user can select targets.
pub fn removal_begin(opts: &Remove, main_wt: &WtPath) -> (r: (RemovalMachine, RemovalAction))
    ensures
        r.0.opts.force == opts.force,
        r.0.opts.leave_branches == opts.leave_branches,
        r.0.main_wt@ == main_wt@,
        opts.names@.len() == 0 ==> {
            &&& r.0.phase is Listing
            &&& r.0.remaining.deep_view() == Seq::<Seq<char>>::empty()
            &&& r.1 is ListWorktrees
        },
        opts.names@.len() > 0 && !opts.force ==> {
            &&& r.0.phase is Confirming
            &&& r.0.remaining.deep_view() == opts.names.deep_view()
            &&& (r.1 matches RemovalAction::Confirm(m) && m@ == spec_confirm_message(
                opts.names.deep_view(),
            ))
        },
        opts.names@.len() > 0 && opts.force ==> starts_next_target(
            opts.names.deep_view(),
            main_wt@,
            r.0,
            r.1,
        ),
{
    let opts2 = Remove {
        names: clone_names(&opts.names),
        force: opts.force,
        leave_branches: opts.leave_branches,
    };
    let main = main_wt.duplicate();
    if opts.names.len() == 0 {
        let m = RemovalMachine {
            opts: opts2,
            main_wt: main,
            remaining: Vec::new(),
            phase: RemovalPhase::Listing,
        };
        proof {
            assert(m.remaining.deep_view() =~= Seq::<Seq<char>>::empty());
        }
        (m, RemovalAction::ListWorktrees)
    } else {
        let targets = clone_names(&opts.names);
        if !opts.force {
            let msg = confirmation_message(&targets);
            let m = RemovalMachine {
                opts: opts2,
                main_wt: main,
                remaining: targets,
                phase: RemovalPhase::Confirming,
            };
            (m, RemovalAction::Confirm(msg))
        } else {
            start_next_target(opts2, main, targets)
        }
    }
}

/// A fresh vector holding the same names.
fn clone_names(v: &Vec<String>) -> (r: Vec<String>)
    ensures
        r.deep_view() == v.deep_view(),
{
    let mut r: Vec<String> = Vec::new();
    let mut i: usize = 0;
    while i < v.len()
        invariant
            i <= v.len(),
            v.deep_view().len() == v.len(),
            r.deep_view() =~= v.deep_view().subrange(0, i as int),
        decreases v.len() - i,
    {
        let ghost prev = r.deep_view();
        r.push(v[i].clone());
        proof {
            assert(r.deep_view() =~= prev.push(v.deep_view()[i as int]));
        }
        i = i + 1;
    }
    proof {
        assert(r.deep_view() =~= v.deep_view());
    }
    r
}

impl RemovalMachine {
    /// Takes one reported outcome and decides the next step of the removal.
    pub fn step(self, ev: RemovalEvent) -> (r: (RemovalMachine, RemovalAction))
        ensures
            removal_next(self, ev, r.0, r.1),
    {
        let RemovalMachine { opts, main_wt, remaining, phase } = self;
        match (phase, ev) {
            (RemovalPhase::Listing, RemovalEvent::Listed(worktrees, default_branch)) => {
                let cands = filter_not_equal(&worktrees, &default_branch);
                if cands.len() == 0 {
                    let m = RemovalMachine {
                        opts,
                        main_wt,
                        remaining,
                        phase: RemovalPhase::Aborted,
                    };
                    (m, RemovalAction::Fail(Error::NoOtherWorktrees))
                } else {
                    let m = RemovalMachine {
                        opts,
                        main_wt,
                        remaining,
                        phase: RemovalPhase::Selecting,
                    };
                    (m, RemovalAction::SelectTargets(cands))
                }
            },
            (RemovalPhase::Selecting, RemovalEvent::Selected(sel)) => {
                if !opts.force {
                    let msg = confirmation_message(&sel);
                    let m = RemovalMachine {
                        opts,
                        main_wt,
                        remaining: sel,
                        phase: RemovalPhase::Confirming,
                    };
                    (m, RemovalAction::Confirm(msg))
                } else {
                    start_next_target(opts, main_wt, sel)
                }
            },
            (RemovalPhase::Confirming, RemovalEvent::Confirmed(yes)) => {
                if yes {
                    start_next_target(opts, main_wt, remaining)
                } else {
                    let m = RemovalMachine {
                        opts,
                        main_wt,
                        remaining,
                        phase: RemovalPhase::Aborted,
                    };
                    (m, RemovalAction::Fail(Error::Cancelled))
                }
            },
            (RemovalPhase::ReadingRef { name, path }, RemovalEvent::RefRead(Ok(full_ref))) => {
                let act = RemovalAction::RemoveWorktree(path);
                let m = RemovalMachine {
                    opts,
                    main_wt,
                    remaining,
                    phase: RemovalPhase::Removing { name, full_ref },
                };
                (m, act)
            },
            (RemovalPhase::ReadingRef { name, .. }, RemovalEvent::RefRead(Err(cause))) => {
                let msg = concat4(
                    "couldn't get branch for worktree '",
                    name.as_str(),
                    "': ",
                    cause.as_str(),
                );
                let m = RemovalMachine { opts, main_wt, remaining, phase: RemovalPhase::Advancing };
                (m, RemovalAction::Report(msg))
            },
            (RemovalPhase::Removing { name, full_ref }, RemovalEvent::Removed(Ok(_))) => {
                if opts.leave_branches {
                    let msg = concat3("removed worktree '", name.as_str(), "'");
                    let m = RemovalMachine {
                        opts,
                        main_wt,
                        remaining,
                        phase: RemovalPhase::Advancing,
                    };
                    (m, RemovalAction::Report(msg))
                } else {
                    match branch_from_ref(full_ref.as_str()) {
                        Ok(branch) => {
                            let act = RemovalAction::DeleteBranch(full_ref);
                            let m = RemovalMachine {
                                opts,
                                main_wt,
                                remaining,
                                phase: RemovalPhase::Deleting { name, branch },
                            };
                            (m, act)
                        },
                        Err(_) => {
                            let msg = concat3(
                                "removed worktree '",
                                name.as_str(),
                                "' but couldn't delete its branch: failed to get branch name from ref",
                            );
                            proof {
                                assert(msg@ =~= msg_branch_parse_failed(name@));
                            }
                            let m = RemovalMachine {
                                opts,
                                main_wt,
                                remaining,
                                phase: RemovalPhase::Advancing,
                            };
                            (m, RemovalAction::Report(msg))
                        },
                    }
                }
            },
            (RemovalPhase::Removing { name, .. }, RemovalEvent::Removed(Err(cause))) => {
                let msg = concat4(
                    "couldn't remove worktree '",
                    name.as_str(),
                    "': ",
                    cause.as_str(),
                );
                let m = RemovalMachine { opts, main_wt, remaining, phase: RemovalPhase::Advancing };
                (m, RemovalAction::Report(msg))
            },
            (RemovalPhase::Deleting { name, branch }, RemovalEvent::Deleted(Ok(_))) => {
                let msg = concat5(
                    "removed worktree '",
                    name.as_str(),
                    "' and branch '",
                    branch.as_str(),
                    "'",
                );
                let m = RemovalMachine { opts, main_wt, remaining, phase: RemovalPhase::Advancing };
                (m, RemovalAction::Report(msg))
            },
            (RemovalPhase::Deleting { name, branch }, RemovalEvent::Deleted(Err(cause))) => {
                let head = concat5(
                    "removed worktree '",
                    name.as_str(),
                    "' but couldn't delete branch '",
                    branch.as_str(),
                    "': ",
                );
                let mut msg = head;
                msg.append(cause.as_str());
                let m = RemovalMachine { opts, main_wt, remaining, phase: RemovalPhase::Advancing };
                (m, RemovalAction::Report(msg))
            },
            (RemovalPhase::Advancing, RemovalEvent::Proceed) => {
                start_next_target(opts, main_wt, remaining)
            },
            (_, _) => {
                let m = RemovalMachine { opts, main_wt, remaining, phase: RemovalPhase::Aborted };
                (m, RemovalAction::Fail(Error::UnexpectedEvent))
            },
        }
    }
}

/// A branch deletion is requested only in the step right after the same
/// target's worktree was removed successfully, and never when the request
/// said to leave branches: a branch checked out in a live worktree is never
/// deleted, and a failed removal never leads to a deletion.
pub proof fn lemma_delete_only_after_removal(
    pre: RemovalMachine,
    ev: RemovalEvent,
    post: RemovalMachine,
    act: RemovalAction,
)
    requires
        removal_next(pre, ev, post, act),
        act is DeleteBranch,
    ensures
        pre.phase matches RemovalPhase::Removing { name, full_ref } && (act
            matches RemovalAction::DeleteBranch(fr) && fr@ == full_ref@),
        ev matches RemovalEvent::Removed(res) && res is Ok,
        !pre.opts.leave_branches,
{
}

/// Once a target's worktree is removed, the target's outcome is final: a
/// successful branch deletion reports worktree and branch both gone, a failed
/// one reports the worktree gone with the branch still in place, and either
/// way the coordinator moves on to the rest of the queue — the worktree is
/// never recreated and the branch is not retried.
pub proof fn lemma_deletion_outcomes(
    pre: RemovalMachine,
    ev: RemovalEvent,
    post: RemovalMachine,
    act: RemovalAction,
    name: String,
    branch: String,
)
    requires
        removal_next(pre, ev, post, act),
        pre.phase == (RemovalPhase::Deleting { name, branch }),
        ev matches RemovalEvent::Deleted(_),
    ensures
        post.phase is Advancing,
        post.remaining.deep_view() == pre.remaining.deep_view(),
        ev matches RemovalEvent::Deleted(res) ==> match res {
            Ok(u) => act matches RemovalAction::Report(m) && m@ == msg_removed_and_branch(
                name@,
                branch@,
            ),
            Err(cause) => act matches RemovalAction::Report(m) && m@ == msg_delete_failed(
                name@,
                branch@,
                cause@,
            ),
        },
{
}

} // verus!
