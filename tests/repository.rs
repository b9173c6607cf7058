use std::time::{SystemTime, UNIX_EPOCH};

use git2::{Repository, Signature};
use trees::error::{MergeSide, TreesError};
use trees::ops::merge_plan;
use trees::repo::{
    create_worktree, fetch_all_remotes, fetch_remotes, get_branches, get_worktree_commit_hash,
    is_worktree_dirty, registered_worktrees,
};

/// A fresh repository named `trees` with one commit, in a new directory.
fn fresh_repository(tag: &str) -> (String, String) {
    let nanos = SystemTime::now().duration_since(UNIX_EPOCH).unwrap().as_nanos();
    let parent = format!("/tmp/trees-test-{tag}-{nanos}");
    let path = format!("{parent}/trees");
    let repo = Repository::init(&path).unwrap();
    let sig = Signature::now("Test User", "test@example.com").unwrap();
    let tree_id = repo.index().unwrap().write_tree().unwrap();
    let tree = repo.find_tree(tree_id).unwrap();
    repo.commit(Some("HEAD"), &sig, &sig, "Initial commit", &tree, &[]).unwrap();
    (parent, path)
}

/// Puts a new file into the worktree at `path` without committing it.
fn add_uncommitted_file(path: &str) {
    let repo = Repository::open(path).unwrap();
    let blob = repo.blob(b"new\n").unwrap();
    let mut builder = repo.treebuilder(None).unwrap();
    builder.insert("new.txt", blob, 0o100644).unwrap();
    let tree = repo.find_object(builder.write().unwrap(), None).unwrap();
    let mut checkout = git2::build::CheckoutBuilder::new();
    checkout.force();
    repo.checkout_tree(&tree, Some(&mut checkout)).unwrap();
}

#[test]
fn committed_repository_is_clean() {
    let (_, path) = fresh_repository("clean");
    assert!(!is_worktree_dirty(&path).unwrap());
    assert_eq!(get_worktree_commit_hash(&path).unwrap().len(), 8);
    assert!(registered_worktrees(&path).unwrap().is_empty());
}

#[test]
fn created_worktree_is_registered_on_its_branch() {
    let (parent, path) = fresh_repository("create");
    let created = create_worktree(&path, &parent, "trees", "feat/x", false).unwrap();
    assert_eq!(created.name, "trees-feat-x");
    assert_eq!(created.path, format!("{parent}/trees-feat-x"));
    assert_eq!(registered_worktrees(&path).unwrap(), vec!["trees-feat-x"]);
    let worktree = Repository::open(format!("{parent}/trees-feat-x")).unwrap();
    assert_eq!(worktree.head().unwrap().shorthand().unwrap(), "feat/x");
    let (local, remote) = get_branches(&path).unwrap();
    assert!(local.contains(&"feat/x".to_string()));
    assert!(remote.is_empty());
    let again = create_worktree(&path, &parent, "trees", "feat/x", false);
    assert!(matches!(again, Err(TreesError::AlreadyExists(n)) if n == "trees-feat-x"));
}

#[test]
fn existing_target_directory_is_refused() {
    let (parent, path) = fresh_repository("exists");
    let r = create_worktree(&path, &parent, "trees", "dev", true);
    assert!(matches!(r, Err(TreesError::AlreadyExists(n)) if n == "trees-dev"));
    assert!(registered_worktrees(&path).unwrap().is_empty());
}

#[test]
fn missing_repository_cannot_be_listed() {
    let r = registered_worktrees("/nonexistent/trees/repository");
    assert!(matches!(r, Err(TreesError::RepoOpenError(_))));
}

#[test]
fn merge_with_uncommitted_file_is_refused_and_changes_nothing() {
    let (parent, path) = fresh_repository("merge");
    let a_new = create_worktree(&path, &parent, "trees", "a", false).unwrap();
    let b_new = create_worktree(&path, &parent, "trees", "b", false).unwrap();
    let (a, a_path) = (a_new.name, a_new.path);
    let (b, b_path) = (b_new.name, b_new.path);
    add_uncommitted_file(&a_path);
    let head_before = Repository::open(&b_path).unwrap().head().unwrap().target();
    let a_dirty = is_worktree_dirty(&a_path).unwrap();
    let b_dirty = is_worktree_dirty(&b_path).unwrap();
    assert!(a_dirty);
    assert!(!b_dirty);
    let r = merge_plan(&a, &b, a_dirty, b_dirty, "a");
    assert!(matches!(r, Err(TreesError::DirtyWorktree { side: MergeSide::Source, name }) if name == a));
    let head_after = Repository::open(&b_path).unwrap().head().unwrap().target();
    assert_eq!(head_before, head_after);
}

#[test]
fn commit_hash_is_eight_hex_digits() {
    let (_, path) = fresh_repository("hash");
    let hash = get_worktree_commit_hash(&path).unwrap();
    assert_eq!(hash.len(), 8);
    assert!(hash.chars().all(|c| c.is_ascii_hexdigit()));
    let full = Repository::open(&path).unwrap().head().unwrap().target().unwrap().to_string();
    assert!(full.starts_with(&hash));
}

#[test]
fn repository_without_remotes_fetches_nothing() {
    let (_, path) = fresh_repository("noremote");
    assert!(fetch_all_remotes(&path).unwrap().is_empty());
}

#[test]
fn failing_remote_stops_the_fetch() {
    let (parent, path) = fresh_repository("badremote");
    let repo = Repository::open(&path).unwrap();
    repo.remote("broken", &format!("{parent}/no-such-repository")).unwrap();
    let names = vec!["broken".to_string(), "other".to_string()];
    let r = fetch_remotes(&repo, &names);
    assert!(matches!(r, Err(TreesError::FetchFailed(m)) if m.starts_with("broken: ")));
    assert!(matches!(fetch_all_remotes(&path), Err(TreesError::FetchFailed(_))));
    assert_eq!(fetch_remotes(&repo, &Vec::new()).unwrap(), Vec::<String>::new());
}
