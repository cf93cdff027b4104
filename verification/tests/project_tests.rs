use worktrees::branch::New;
use worktrees::init::{Init, init_worktree_path};
use worktrees::path::WtPath;
use worktrees::text::join_with;
use worktrees::worktree::{list_worktrees, plan_new_worktree};

fn path(absolute: bool, parts: &[&str]) -> WtPath {
    WtPath {
        absolute,
        parts: parts.iter().map(|s| s.to_string()).collect(),
    }
}

fn strings(v: &[&str]) -> Vec<String> {
    v.iter().map(|s| s.to_string()).collect()
}

#[test]
fn initializes_project_under_current_directory() {
    let args = Init { name: "proj".to_string(), path: None };
    let cwd = path(true, &["home", "user"]);
    let r = init_worktree_path(&args, &cwd, &"main".to_string());
    assert_eq!(r, path(true, &["home", "user", "proj", "main"]));
}

#[test]
fn initializes_project_under_requested_path() {
    let args = Init {
        name: "proj".to_string(),
        path: Some(path(true, &["elsewhere"])),
    };
    let cwd = path(true, &["home", "user"]);
    let r = init_worktree_path(&args, &cwd, &"main".to_string());
    assert_eq!(r, path(true, &["elsewhere", "proj", "main"]));
}

#[test]
fn plans_new_worktree_from_directory_name() {
    let args = New {
        name: "feature".to_string(),
        branch_name: None,
        new_branch: None,
        symlinks: vec![],
    };
    let main_wt = path(true, &["proj", "main"]);
    let plan = plan_new_worktree(&args, &main_wt).unwrap();
    assert_eq!(plan.worktree_path, path(true, &["proj", "feature"]));
    assert_eq!(plan.branch, "feature");
    assert!(plan.create_branch);
}

#[test]
fn plans_existing_branch_without_creation() {
    let args = New {
        name: "review".to_string(),
        branch_name: Some("hotfix".to_string()),
        new_branch: None,
        symlinks: vec![],
    };
    let main_wt = path(true, &["proj", "main"]);
    let plan = plan_new_worktree(&args, &main_wt).unwrap();
    assert_eq!(plan.worktree_path, path(true, &["proj", "review"]));
    assert_eq!(plan.branch, "hotfix");
    assert!(!plan.create_branch);
}

#[test]
fn listing_hides_the_default_branch_and_sorts() {
    let worktrees = strings(&["zeta", "main", "alpha", "mid"]);
    let r = list_worktrees(&worktrees, &"main".to_string());
    assert_eq!(r, strings(&["alpha", "mid", "zeta"]));
}

#[test]
fn listing_keeps_duplicates_and_orders_them() {
    let worktrees = strings(&["b", "a", "b"]);
    let r = list_worktrees(&worktrees, &"main".to_string());
    assert_eq!(r, strings(&["a", "b", "b"]));
}

#[test]
fn empty_listing_stays_empty() {
    let r = list_worktrees(&strings(&["main"]), &"main".to_string());
    assert_eq!(r, strings(&[]));
}

#[test]
fn join_places_the_separator_between_elements() {
    assert_eq!(join_with(&strings(&["a", "b", "c"]), "\n"), "a\nb\nc");
    assert_eq!(join_with(&strings(&["solo"]), "\n"), "solo");
    assert_eq!(join_with(&strings(&[]), "\n"), "");
}
