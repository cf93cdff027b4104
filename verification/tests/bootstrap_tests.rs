use worktrees::Error;
use worktrees::bootstrap::{
    CloneAction, CloneBootstrap, CloneEvent, cloned_directory, get_fresh_clone_branch_name,
};
use worktrees::path::WtPath;

fn path(absolute: bool, parts: &[&str]) -> WtPath {
    WtPath {
        absolute,
        parts: parts.iter().map(|s| s.to_string()).collect(),
    }
}

fn strings(v: &[&str]) -> Vec<String> {
    v.iter().map(|s| s.to_string()).collect()
}

#[test]
fn fresh_clone_branch_is_the_first_listed() {
    let r = get_fresh_clone_branch_name(&strings(&["main"])).unwrap();
    assert_eq!(r, "main");
}

#[test]
fn fresh_clone_without_branches_is_an_error() {
    let r = get_fresh_clone_branch_name(&strings(&[]));
    assert_eq!(r, Err(Error::NoBranches));
}

#[test]
fn fresh_clone_with_two_branches_is_an_error() {
    let r = get_fresh_clone_branch_name(&strings(&["main", "extra"]));
    assert_eq!(r, Err(Error::ManyBranches));
}

#[test]
fn clone_that_made_one_directory_is_found() {
    let before = strings(&["existing"]);
    let after = strings(&["existing", "repo_name"]);
    assert_eq!(cloned_directory(&before, &after).unwrap(), "repo_name");
}

#[test]
fn clone_that_made_no_directory_is_an_error() {
    let before = strings(&["existing"]);
    let after = strings(&["existing"]);
    assert_eq!(cloned_directory(&before, &after), Err(Error::CloneMadeNoDirectory));
}

#[test]
fn clone_that_made_two_directories_is_an_error() {
    let before = strings(&[]);
    let after = strings(&["one", "two"]);
    assert_eq!(cloned_directory(&before, &after), Err(Error::CloneMadeManyDirectories));
}

/// Drives the whole bootstrap for one destination root and returns the final
/// worktree location, checking each requested action on the way.
fn drive_bootstrap(dest: &WtPath, repo: &str, cloned_name: &str, branch: &str) -> WtPath {
    let args = worktrees::bootstrap::Clone {
        repo: repo.to_string(),
        path: Some(dest.clone()),
        name: None,
    };
    let cwd = path(true, &["cwd"]);
    let (mut m, act) = worktrees::bootstrap::clone_bootstrap_begin(&args, &cwd);
    let checked = match act {
        CloneAction::CheckPath(p) => p,
        _ => panic!("expected a path check first"),
    };
    assert_eq!(&checked, dest);

    let act = m.step(CloneEvent::PathChecked(true));
    match act {
        CloneAction::ProbeClone(r) => assert_eq!(r, repo),
        _ => panic!("expected the probe clone"),
    }

    let temp = path(true, &["tmp", "probe", cloned_name]);
    let act = m.step(CloneEvent::ProbeCloned(Ok(temp.clone())));
    match act {
        CloneAction::ReadBranches(t) => assert_eq!(t, temp),
        _ => panic!("expected the branch listing"),
    }

    let act = m.step(CloneEvent::BranchesRead(Ok(strings(&[branch]))));
    let project_path = match act {
        CloneAction::CommitClone(r, pp, db) => {
            assert_eq!(r, repo);
            assert_eq!(db, branch);
            pp
        },
        _ => panic!("expected the final clone"),
    };
    assert_eq!(project_path, dest.join(&cloned_name.to_string()));

    let act = m.step(CloneEvent::CommitCloned(Ok(())));
    match act {
        CloneAction::Done(w) => w,
        _ => panic!("expected the bootstrap to finish"),
    }
}

#[test]
fn does_init_via_clone() {
    let dest = path(true, &["out"]);
    let worktree = drive_bootstrap(&dest, "repo_name src", "repo_name", "main");
    assert_eq!(worktree, path(true, &["out", "repo_name", "main"]));
}

#[test]
fn clone_naming_is_idempotent_across_destinations() {
    let d1 = path(true, &["first", "root"]);
    let d2 = path(true, &["second"]);
    let w1 = drive_bootstrap(&d1, "src", "repo_name", "main");
    let w2 = drive_bootstrap(&d2, "src", "repo_name", "main");
    let tail1 = &w1.parts[d1.parts.len()..];
    let tail2 = &w2.parts[d2.parts.len()..];
    assert_eq!(tail1, tail2);
    assert_eq!(tail1, &["repo_name".to_string(), "main".to_string()]);
}

#[test]
fn missing_destination_fails_before_any_clone() {
    let args = worktrees::bootstrap::Clone {
        repo: "src".to_string(),
        path: Some(path(true, &["gone"])),
        name: None,
    };
    let cwd = path(true, &["cwd"]);
    let (mut m, _) = worktrees::bootstrap::clone_bootstrap_begin(&args, &cwd);
    let act = m.step(CloneEvent::PathChecked(false));
    match act {
        CloneAction::Fail(Error::PathMissing(p)) => assert_eq!(p, "/gone"),
        _ => panic!("expected a missing-path failure"),
    }
}

#[test]
fn relative_destination_hangs_off_the_current_directory() {
    let args = worktrees::bootstrap::Clone {
        repo: "src".to_string(),
        path: Some(path(false, &["out"])),
        name: None,
    };
    let cwd = path(true, &["home", "user"]);
    let (m, act) = worktrees::bootstrap::clone_bootstrap_begin(&args, &cwd);
    assert_eq!(m.base, path(true, &["home", "user", "out"]));
    assert!(matches!(act, CloneAction::CheckPath(_)));
}

#[test]
fn probe_without_branches_fails() {
    let args = worktrees::bootstrap::Clone { repo: "src".to_string(), path: None, name: None };
    let cwd = path(true, &["cwd"]);
    let (mut m, act) = worktrees::bootstrap::clone_bootstrap_begin(&args, &cwd);
    assert!(matches!(act, CloneAction::ProbeClone(_)));
    let temp = path(true, &["tmp", "probe", "repo"]);
    let _ = m.step(CloneEvent::ProbeCloned(Ok(temp)));
    let act = m.step(CloneEvent::BranchesRead(Ok(strings(&[]))));
    assert!(matches!(act, CloneAction::Fail(Error::NoBranches)));
}

#[test]
fn probe_with_two_branches_fails_instead_of_guessing() {
    let args = worktrees::bootstrap::Clone { repo: "src".to_string(), path: None, name: None };
    let cwd = path(true, &["cwd"]);
    let (mut m, _) = worktrees::bootstrap::clone_bootstrap_begin(&args, &cwd);
    let temp = path(true, &["tmp", "probe", "repo"]);
    let _ = m.step(CloneEvent::ProbeCloned(Ok(temp)));
    let act = m.step(CloneEvent::BranchesRead(Ok(strings(&["alpha", "main"]))));
    assert!(matches!(act, CloneAction::Fail(Error::ManyBranches)));
}

#[test]
fn probe_clone_failure_is_surfaced_verbatim() {
    let args = worktrees::bootstrap::Clone { repo: "src".to_string(), path: None, name: None };
    let cwd = path(true, &["cwd"]);
    let (mut m, _) = worktrees::bootstrap::clone_bootstrap_begin(&args, &cwd);
    let act = m.step(CloneEvent::ProbeCloned(Err("fatal: not found".to_string())));
    match act {
        CloneAction::Fail(Error::Backend(msg)) => assert_eq!(msg, "fatal: not found"),
        _ => panic!("expected the backend failure"),
    }
}
