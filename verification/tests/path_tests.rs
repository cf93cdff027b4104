use worktrees::Error;
use worktrees::path::{WtPath, new_worktree_path, sibling_worktree_path, traceable_path};
use worktrees::worktree::symlink_target;

fn path(absolute: bool, parts: &[&str]) -> WtPath {
    WtPath {
        absolute,
        parts: parts.iter().map(|s| s.to_string()).collect(),
    }
}

#[test]
fn worktree_path() {
    let main_wt = path(true, &["tmp", "test_proj", "main"]);
    let new_wt_path = new_worktree_path(&main_wt, &"new_wt".to_string()).unwrap();
    assert_eq!(new_wt_path, path(true, &["tmp", "test_proj", "new_wt"]));
}

#[test]
fn sibling_is_parent_joined_with_name() {
    let p = path(true, &["home", "proj", "main"]);
    let sibling = sibling_worktree_path(&p, &"feature".to_string()).unwrap();
    let parent_joined = p.parent().unwrap().join(&"feature".to_string());
    assert_eq!(sibling, parent_joined);
    assert_eq!(sibling, path(true, &["home", "proj", "feature"]));
}

#[test]
fn rootless_worktree_has_no_sibling() {
    let root = path(true, &[]);
    let r = sibling_worktree_path(&root, &"feature".to_string());
    assert_eq!(r, Err(Error::NoParent));
}

#[test]
fn renders_absolute_and_relative_paths() {
    assert_eq!(traceable_path(&path(true, &["home", "proj"])), "/home/proj");
    assert_eq!(traceable_path(&path(false, &["proj", "main"])), "proj/main");
    assert_eq!(traceable_path(&path(true, &[])), "/");
    assert_eq!(traceable_path(&path(false, &[])), "");
}

#[test]
fn symlink_lands_at_same_relative_spot_with_identical_target() {
    let main_root = path(true, &["home", "proj", "main"]);
    let new_wt = path(true, &["home", "proj", "feature"]);
    let source = path(true, &["home", "proj", "main", "cfg", "env"]);
    let spec = symlink_target(&main_root, &new_wt, &source).unwrap();
    assert_eq!(spec.link, path(true, &["home", "proj", "feature", "cfg", "env"]));
    // the link's target is the original source, byte for byte: a link, not a copy
    assert_eq!(spec.target, source);
}

#[test]
fn symlink_source_outside_main_worktree_is_rejected() {
    let main_root = path(true, &["home", "proj", "main"]);
    let new_wt = path(true, &["home", "proj", "feature"]);
    let source = path(true, &["etc", "passwd"]);
    let r = symlink_target(&main_root, &new_wt, &source);
    assert!(matches!(r, Err(Error::NotUnderMainWorktree)));
}

#[test]
fn file_name_is_last_component() {
    let p = path(true, &["home", "proj", "main"]);
    assert_eq!(p.file_name().unwrap(), "main");
    assert!(path(true, &[]).file_name().is_none());
}

#[test]
fn error_messages_read_as_expected() {
    assert_eq!(Error::NoParent.message(), "worktree had no parent");
    assert_eq!(Error::NotLocalBranchRef.message(), "failed to get branch name from ref");
    assert_eq!(Error::NoBranches.message(), "repo had no branches");
    assert_eq!(Error::ManyBranches.message(), "repo had more than one branch");
    assert_eq!(Error::NoRepoName.message(), "repo path had no file name");
    assert_eq!(
        Error::NotUnderMainWorktree.message(),
        "symlink source is not under the main worktree"
    );
    assert_eq!(Error::NoOtherWorktrees.message(), "no other worktrees to remove");
    assert_eq!(Error::Cancelled.message(), "removal cancelled");
    assert_eq!(
        Error::PathMissing("/out".to_string()).message(),
        "path does not exist: /out"
    );
    assert_eq!(Error::CloneMadeNoDirectory.message(), "clone didn't create a directory");
    assert_eq!(
        Error::CloneMadeManyDirectories.message(),
        "clone created more than one directory"
    );
    assert_eq!(Error::Backend("fatal: oops".to_string()).message(), "fatal: oops");
}
