//! The two-phase clone bootstrap.
//!
//! A project's final location depends on two facts that only exist after a
//! clone: the repository's canonical name and its default branch.  So the
//! source is first cloned into a disposable temporary directory, the two
//! facts are read off that probe checkout, and only then is the real clone
//! made directly into `<destination>/<repository name>`, checking out the
//! default branch, whose worktree `<destination>/<name>/<branch>` is the
//! result.  The probe checkout is discarded unconditionally once read.
//!
//! The machine here makes every decision of that protocol; its driver only
//! performs the clones and listings the machine asks for and reports each
//! outcome back.  A probe whose branch listing is anything but a single
//! branch is a topology failure, reported rather than guessed away.  The
//! first failure aborts the whole protocol; a commit-phase failure leaves the
//! already-created project directory in place (this system does not roll back
//! partial clones).

use vstd::prelude::*;
use crate::Error;
use crate::path::{PathModel, WtPath, spec_join, spec_rendered, traceable_path};

verus! {

/// A request to bootstrap a project from a repository to clone: the source
/// (URL or local path), an optional destination root, and an optional
/// project name override.
#[derive(Debug, Clone)]
pub struct Clone {
    pub repo: String,
    pub path: Option<WtPath>,
    pub name: Option<String>,
}

/// `p` made absolute against `cwd`: an absolute path stands as it is, a
/// relative one hangs off `cwd`.
pub open spec fn spec_absolutized(cwd: PathModel, p: PathModel) -> PathModel {
    if p.absolute {
        p
    } else {
        PathModel { absolute: cwd.absolute, parts: cwd.parts + p.parts }
    }
}

/// The canonical repository name the probe discovers: the final component of
/// the probe checkout's location.
pub open spec fn derived_repo_name(temp: PathModel) -> Seq<char> {
    temp.parts.last()
}

/// The default branch the probe discovers: the single local branch a fresh
/// clone checks out.  It is read off the listing only when the listing has
/// exactly one entry; any other topology is a failure, never a guess.
pub open spec fn derived_default_branch(branches: Seq<Seq<char>>) -> Seq<char> {
    branches[0]
}

/// What the bootstrap's driver must do next.
pub enum CloneAction {
    /// Report whether this destination root exists.
    CheckPath(WtPath),
    /// Clone the source into a fresh disposable temporary directory.
    ProbeClone(String),
    /// List the local branch names of the checkout at this location.
    ReadBranches(WtPath),
    /// Create this project directory and clone the source into it, checking
    /// out this branch.
    CommitClone(String, WtPath, String),
    /// The bootstrap succeeded; this is the first worktree's location.
    Done(WtPath),
    /// The bootstrap failed; nothing more will be asked.
    Fail(Error),
}

/// What the driver reports back; backend failures carry the backend's text.
pub enum CloneEvent {
    PathChecked(bool),
    ProbeCloned(Result<WtPath, String>),
    BranchesRead(Result<Vec<String>, String>),
    CommitCloned(Result<(), String>),
}

/// Where the bootstrap stands.
pub enum ClonePhase {
    /// Waiting to hear whether the destination root exists.
    Checking,
    /// Waiting for the probe clone.
    Probing,
    /// Waiting for the probe checkout's branch list.
    ReadingBranches { repo_name: String },
    /// Waiting for the final clone.
    Committing { project_path: WtPath, default_branch: String },
    /// Terminal: the first worktree is at this location.
    Finished { worktree: WtPath },
    /// Terminal: the protocol failed.
    Failed,
}

/// The clone bootstrap's state: the source, the resolved destination root,
/// and the phase with what it has discovered so far.
pub struct CloneBootstrap {
    pub repo: String,
    pub base: WtPath,
    pub phase: ClonePhase,
}

/// Starts the bootstrap.  The destination root is the requested path made
/// absolute against the current directory, or the current directory itself;
/// a requested root is first checked for existence (the protocol fails
/// before any cloning when it is missing), an unrequested one is not.
pub fn clone_bootstrap_begin(args: &Clone, current_dir: &WtPath) -> (r: (
    CloneBootstrap,
    CloneAction,
))
    ensures
        r.0.repo@ == args.repo@,
        args.path matches Some(p) ==> {
            &&& r.0.base@ == spec_absolutized(current_dir@, p@)
            &&& r.0.phase is Checking
            &&& r.1 matches CloneAction::CheckPath(q) && q@ == r.0.base@
        },
        args.path is None ==> {
            &&& r.0.base@ == current_dir@
            &&& r.0.phase is Probing
            &&& r.1 matches CloneAction::ProbeClone(rep) && rep@ == args.repo@
        },
{
    match &args.path {
        Some(p) => {
            let base = if p.absolute {
                p.duplicate()
            } else {
                current_dir.join_all(&p.parts)
            };
            let check = base.duplicate();
            let m = CloneBootstrap { repo: args.repo.clone(), base, phase: ClonePhase::Checking };
            (m, CloneAction::CheckPath(check))
        },
        None => {
            let m = CloneBootstrap {
                repo: args.repo.clone(),
                base: current_dir.duplicate(),
                phase: ClonePhase::Probing,
            };
            let probe = args.repo.clone();
            (m, CloneAction::ProbeClone(probe))
        },
    }
}

/// The bootstrap's whole transition relation: what one step does for every
/// phase and event, including that a mismatched event fails the protocol.
pub open spec fn clone_next(
    pre: CloneBootstrap,
    ev: CloneEvent,
    post: CloneBootstrap,
    act: CloneAction,
) -> bool {
    &&& post.repo@ == pre.repo@
    &&& post.base@ == pre.base@
    &&& match (pre.phase, ev) {
        (ClonePhase::Checking, CloneEvent::PathChecked(found)) => {
            if found {
                &&& post.phase is Probing
                &&& (act matches CloneAction::ProbeClone(rep) && rep@ == pre.repo@)
            } else {
                &&& post.phase is Failed
                &&& (act matches CloneAction::Fail(e) && e matches Error::PathMissing(rendered)
                    && rendered@ == spec_rendered(pre.base@))
            }
        },
        (ClonePhase::Probing, CloneEvent::ProbeCloned(probed)) => match probed {
            Ok(temp) => {
                if temp@.parts.len() == 0 {
                    &&& post.phase is Failed
                    &&& (act matches CloneAction::Fail(e) && e == Error::NoRepoName)
                } else {
                    &&& (post.phase matches ClonePhase::ReadingBranches { repo_name }
                        && repo_name@ == derived_repo_name(temp@))
                    &&& (act matches CloneAction::ReadBranches(t) && t@ == temp@)
                }
            },
            Err(msg) => {
                &&& post.phase is Failed
                &&& (act matches CloneAction::Fail(e) && e matches Error::Backend(m)
                    && m@ == msg@)
            },
        },
        (ClonePhase::ReadingBranches { repo_name }, CloneEvent::BranchesRead(read)) => match read {
            Ok(branches) => {
                if branches@.len() == 0 {
                    &&& post.phase is Failed
                    &&& (act matches CloneAction::Fail(e) && e == Error::NoBranches)
                } else if branches@.len() > 1 {
                    &&& post.phase is Failed
                    &&& (act matches CloneAction::Fail(e) && e == Error::ManyBranches)
                } else {
                    &&& (post.phase matches ClonePhase::Committing { project_path, default_branch }
                        && project_path@ == spec_join(pre.base@, repo_name@) && default_branch@
                        == derived_default_branch(branches.deep_view()))
                    &&& (act matches CloneAction::CommitClone(rep, pp, db) && {
                        &&& rep@ == pre.repo@
                        &&& pp@ == spec_join(pre.base@, repo_name@)
                        &&& db@ == derived_default_branch(branches.deep_view())
                    })
                }
            },
            Err(msg) => {
                &&& post.phase is Failed
                &&& (act matches CloneAction::Fail(e) && e matches Error::Backend(m)
                    && m@ == msg@)
            },
        },
        (
            ClonePhase::Committing { project_path, default_branch },
            CloneEvent::CommitCloned(committed),
        ) => match committed {
            Ok(u) => {
                &&& (post.phase matches ClonePhase::Finished { worktree } && worktree@
                    == spec_join(project_path@, default_branch@))
                &&& (act matches CloneAction::Done(w) && w@ == spec_join(
                    project_path@,
                    default_branch@,
                ))
            },
            Err(msg) => {
                &&& post.phase is Failed
                &&& (act matches CloneAction::Fail(e) && e matches Error::Backend(m)
                    && m@ == msg@)
            },
        },
        (_, _) => {
            &&& post.phase is Failed
            &&& (act matches CloneAction::Fail(e) && e == Error::UnexpectedEvent)
        },
    }
}

impl CloneBootstrap {
    /// Takes one reported outcome and decides the next step of the protocol.
    /// A mismatched event fails the protocol rather than guessing.
    pub fn step(&mut self, ev: CloneEvent) -> (act: CloneAction)
        ensures
            clone_next(*old(self), ev, *final(self), act),
    {
        let (next, act): (ClonePhase, CloneAction) = match (&self.phase, ev) {
            (ClonePhase::Checking, CloneEvent::PathChecked(true)) => (
                ClonePhase::Probing,
                CloneAction::ProbeClone(self.repo.clone()),
            ),
            (ClonePhase::Checking, CloneEvent::PathChecked(false)) => (
                ClonePhase::Failed,
                CloneAction::Fail(Error::PathMissing(traceable_path(&self.base))),
            ),
            (ClonePhase::Probing, CloneEvent::ProbeCloned(Ok(temp))) => {
                match temp.file_name() {
                    None => (ClonePhase::Failed, CloneAction::Fail(Error::NoRepoName)),
                    Some(name) => {
                        let repo_name = name.clone();
                        (
                            ClonePhase::ReadingBranches { repo_name },
                            CloneAction::ReadBranches(temp),
                        )
                    },
                }
            },
            (ClonePhase::Probing, CloneEvent::ProbeCloned(Err(msg))) => (
                ClonePhase::Failed,
                CloneAction::Fail(Error::Backend(msg)),
            ),
            (
                ClonePhase::ReadingBranches { repo_name },
                CloneEvent::BranchesRead(Ok(branches)),
            ) => {
                match get_fresh_clone_branch_name(&branches) {
                    Err(e) => (ClonePhase::Failed, CloneAction::Fail(e)),
                    Ok(default_branch) => {
                        let project_path = self.base.join(repo_name);
                        let act = CloneAction::CommitClone(
                            self.repo.clone(),
                            project_path.duplicate(),
                            default_branch.clone(),
                        );
                        (ClonePhase::Committing { project_path, default_branch }, act)
                    },
                }
            },
            (ClonePhase::ReadingBranches { .. }, CloneEvent::BranchesRead(Err(msg))) => (
                ClonePhase::Failed,
                CloneAction::Fail(Error::Backend(msg)),
            ),
            (
                ClonePhase::Committing { project_path, default_branch },
                CloneEvent::CommitCloned(Ok(_)),
            ) => {
                let worktree = project_path.join(default_branch);
                let act = CloneAction::Done(worktree.duplicate());
                (ClonePhase::Finished { worktree }, act)
            },
            (ClonePhase::Committing { .. }, CloneEvent::CommitCloned(Err(msg))) => (
                ClonePhase::Failed,
                CloneAction::Fail(Error::Backend(msg)),
            ),
            (_, _) => (ClonePhase::Failed, CloneAction::Fail(Error::UnexpectedEvent)),
        };
        self.phase = next;
        act
    }
}

/// Clone-bootstrap naming is idempotent: two bootstraps whose probes found
/// the same checkout name and the same branch listing — as probes of one
/// source into two destination roots do — finish at worktrees laid out
/// identically below their roots: the repository's name, then the default
/// branch.  Each run is two steps of the protocol, the branch reading and
/// the successful final clone.
pub proof fn lemma_clone_naming_idempotent(
    pre1: CloneBootstrap,
    branches1: Vec<String>,
    mid1: CloneBootstrap,
    act1: CloneAction,
    fin1: CloneBootstrap,
    done1: CloneAction,
    pre2: CloneBootstrap,
    branches2: Vec<String>,
    mid2: CloneBootstrap,
    act2: CloneAction,
    fin2: CloneBootstrap,
    done2: CloneAction,
)
    requires
        clone_next(pre1, CloneEvent::BranchesRead(Ok(branches1)), mid1, act1),
        clone_next(mid1, CloneEvent::CommitCloned(Ok(())), fin1, done1),
        clone_next(pre2, CloneEvent::BranchesRead(Ok(branches2)), mid2, act2),
        clone_next(mid2, CloneEvent::CommitCloned(Ok(())), fin2, done2),
        pre1.phase matches ClonePhase::ReadingBranches { repo_name: n1 }
            && (pre2.phase matches ClonePhase::ReadingBranches { repo_name: n2 } && n1@ == n2@),
        branches1.deep_view() == branches2.deep_view(),
        branches1@.len() == 1,
    ensures
        fin1.phase matches ClonePhase::Finished { worktree: w1 } && (fin2.phase
            matches ClonePhase::Finished { worktree: w2 } && w1@.parts.skip(
            pre1.base@.parts.len() as int,
        ) == w2@.parts.skip(pre2.base@.parts.len() as int)),
        pre1.phase matches ClonePhase::ReadingBranches { repo_name } ==> (fin1.phase
            matches ClonePhase::Finished { worktree } && worktree@.parts.skip(
            pre1.base@.parts.len() as int,
        ) == seq![repo_name@, derived_default_branch(branches1.deep_view())]),
{
    let n = pre1.phase->ReadingBranches_repo_name@;
    let d = derived_default_branch(branches1.deep_view());
    assert(branches2@.len() == branches2.deep_view().len());
    assert(spec_join(spec_join(pre1.base@, n), d).parts.skip(pre1.base@.parts.len() as int)
        =~= seq![n, d]);
    assert(spec_join(spec_join(pre2.base@, n), d).parts.skip(pre2.base@.parts.len() as int)
        =~= seq![n, d]);
}

/// The default branch checked out in a fresh clone: its only local branch.
/// A fresh clone has exactly one; any other listing is a topology error,
/// reported rather than guessed away.
pub fn get_fresh_clone_branch_name(branches: &Vec<String>) -> (r: Result<String, Error>)
    ensures
        branches@.len() == 1 <==> r is Ok,
        r matches Ok(b) ==> b@ == derived_default_branch(branches.deep_view()),
        r == Err::<String, Error>(Error::NoBranches) <==> branches@.len() == 0,
        r == Err::<String, Error>(Error::ManyBranches) <==> branches@.len() > 1,
{
    if branches.len() == 0 {
        Err(Error::NoBranches)
    } else if branches.len() > 1 {
        Err(Error::ManyBranches)
    } else {
        Ok(branches[0].clone())
    }
}

/// The directory a clone created: the entries under the destination after
/// the clone that were not there before it.
pub open spec fn new_entries(before: Seq<Seq<char>>, after: Seq<Seq<char>>) -> Seq<Seq<char>> {
    after.filter(|d: Seq<char>| !before.contains(d))
}

/// Picks, from the directory listings before and after a clone, the one
/// directory the clone created.  Fails when the clone created none, or more
/// than one, rather than guessing which is the checkout.
pub fn cloned_directory(before: &Vec<String>, after: &Vec<String>) -> (r: Result<String, Error>)
    ensures
        new_entries(before.deep_view(), after.deep_view()).len() == 1 <==> r is Ok,
        r matches Ok(d) ==> d@ == new_entries(before.deep_view(), after.deep_view())[0],
        r matches Err(e) ==> {
            &&& (e == Error::CloneMadeNoDirectory <==> new_entries(
                before.deep_view(),
                after.deep_view(),
            ).len() == 0)
            &&& (e == Error::CloneMadeManyDirectories <==> new_entries(
                before.deep_view(),
                after.deep_view(),
            ).len() > 1)
        },
{
    let ghost pred = |d: Seq<char>| !before.deep_view().contains(d);
    let mut diff: Vec<String> = Vec::new();
    let mut i: usize = 0;
    proof {
        reveal(Seq::filter);
        assert(after.deep_view().subrange(0, 0).filter(pred) =~= Seq::<Seq<char>>::empty());
    }
    while i < after.len()
        invariant
            i <= after.len(),
            after.deep_view().len() == after.len(),
            pred == (|d: Seq<char>| !before.deep_view().contains(d)),
            diff.deep_view() =~= after.deep_view().subrange(0, i as int).filter(pred),
        decreases after.len() - i,
    {
        proof {
            reveal(Seq::filter);
            assert(after.deep_view().subrange(0, i + 1).drop_last() =~= after.deep_view().subrange(
                0,
                i as int,
            ));
            assert(after.deep_view().subrange(0, i + 1).last() == after[i as int]@);
        }
        let ghost prev = diff.deep_view();
        let seen = crate::text::contains_string(before, &after[i]);
        if !seen {
            diff.push(after[i].clone());
            proof {
                assert(diff.deep_view() =~= prev.push(after[i as int]@));
            }
        }
        i = i + 1;
    }
    proof {
        assert(after.deep_view().subrange(0, after.len() as int) =~= after.deep_view());
    }
    if diff.len() == 0 {
        Err(Error::CloneMadeNoDirectory)
    } else if diff.len() > 1 {
        Err(Error::CloneMadeManyDirectories)
    } else {
        let d = diff[0].clone();
        Ok(d)
    }
}

} // verus!
