use worktrees::Error;
use worktrees::branch::{New, branch_from_ref, global_default_branch_name, new_worktree_branch_name};

fn new_args(name: &str, branch_name: Option<&str>, new_branch: Option<&str>) -> New {
    New {
        name: name.to_string(),
        branch_name: branch_name.map(|s| s.to_string()),
        new_branch: new_branch.map(|s| s.to_string()),
        symlinks: vec![],
    }
}

#[test]
fn branch_name_only_dir_given() {
    let args = new_args("dir_name", None, None);
    let (branch, needs_creating) = new_worktree_branch_name(&args);
    assert_eq!(branch, "dir_name");
    assert!(needs_creating);
}

#[test]
fn branch_name_existing_branch() {
    let args = new_args("dir_name", Some("existing_branch"), None);
    let (branch, needs_creating) = new_worktree_branch_name(&args);
    assert_eq!(branch, "existing_branch");
    assert!(!needs_creating);
}

#[test]
fn branch_name_new_branch() {
    let args = new_args("dir_name", None, Some("new_branch"));
    let (branch, needs_creating) = new_worktree_branch_name(&args);
    assert_eq!(branch, "new_branch");
    assert!(needs_creating);
}

#[test]
fn ref_with_local_branch_shape_parses() {
    let r = branch_from_ref("refs/heads/feature").unwrap();
    assert_eq!(r, "feature");
}

#[test]
fn ref_with_slashed_branch_name_keeps_whole_name() {
    let r = branch_from_ref("refs/heads/feature/x").unwrap();
    assert_eq!(r, "feature/x");
}

#[test]
fn tag_ref_is_rejected() {
    let r = branch_from_ref("refs/tags/v1");
    assert_eq!(r, Err(Error::NotLocalBranchRef));
}

#[test]
fn remote_tracking_ref_is_rejected() {
    let r = branch_from_ref("refs/remotes/origin/main");
    assert_eq!(r, Err(Error::NotLocalBranchRef));
}

#[test]
fn empty_branch_name_is_rejected() {
    let r = branch_from_ref("refs/heads/");
    assert_eq!(r, Err(Error::NotLocalBranchRef));
}

#[test]
fn short_ref_is_rejected() {
    let r = branch_from_ref("HEAD");
    assert_eq!(r, Err(Error::NotLocalBranchRef));
}

#[test]
fn default_branch_uses_configured_name() {
    let r = global_default_branch_name(Some("trunk".to_string()));
    assert_eq!(r, "trunk");
}

#[test]
fn default_branch_falls_back_to_main() {
    let r = global_default_branch_name(None);
    assert_eq!(r, "main");
}
