use trees::error::{MergeSide, TreesError};
use trees::inventory::WorktreeInfo;
use trees::ops::{
    check_merge_clean, merge_args, merge_outcome, merge_plan, needs_pull, next_pull_action,
    pull_candidates, pull_outcome, PullAction,
    removal_args, removal_outcome, removal_plan, require_worktree_path,
};
use trees::repo::{
    check_not_registered, clean_branch_names, creation_outcome, dirty_of_count, is_registered,
    is_worktree_dirty, keep_present, short_hash, strip_origin,
};

fn record(name: &str, is_dirty: bool) -> WorktreeInfo {
    WorktreeInfo {
        name: name.to_string(),
        path: format!("/w/{name}"),
        branch: name.to_string(),
        is_dirty,
    }
}

#[test]
fn removing_unknown_worktree_is_not_found() {
    let r = require_worktree_path("ghost", None);
    assert!(matches!(r, Err(TreesError::NotFound(n)) if n == "ghost"));
    assert_eq!(require_worktree_path("w", Some("/w".to_string())).unwrap(), "/w");
}

#[test]
fn removal_command_and_outcome() {
    assert_eq!(removal_args("/w/x"), vec!["worktree", "remove", "--force", "/w/x"]);
    assert!(removal_outcome("/w/x", true, "").is_ok());
    let r = removal_outcome("/w/x", false, "fatal: no");
    assert!(matches!(r, Err(TreesError::RemovalFailed(m)) if m == "/w/x\nfatal: no"));
}

#[test]
fn merge_refuses_dirty_worktrees() {
    let r = check_merge_clean("a", "b", true, false);
    assert!(matches!(r, Err(TreesError::DirtyWorktree { side: MergeSide::Source, name }) if name == "a"));
    let r = check_merge_clean("a", "b", false, true);
    assert!(matches!(r, Err(TreesError::DirtyWorktree { side: MergeSide::Target, name }) if name == "b"));
    let r = check_merge_clean("a", "b", true, true);
    assert!(matches!(r, Err(TreesError::DirtyWorktree { side: MergeSide::Source, .. })));
    assert!(check_merge_clean("a", "b", false, false).is_ok());
}

#[test]
fn merge_command_and_outcome() {
    assert_eq!(merge_args("feat/x"), vec!["merge", "feat/x"]);
    assert!(merge_outcome(true, "", "").is_ok());
    let r = merge_outcome(false, "CONFLICT", "error");
    assert!(matches!(r, Err(TreesError::MergeFailed(m)) if m == "CONFLICT\nerror"));
}

#[test]
fn pull_skips_dirty_worktrees() {
    let inv = vec![record("main", false), record("dirty", true), record("behind", false)];
    let targets = pull_candidates(&inv);
    let names: Vec<&str> = targets.iter().map(|w| w.name.as_str()).collect();
    assert_eq!(names, vec!["main", "behind"]);
}

#[test]
fn behind_status_needs_pull() {
    assert!(needs_pull("## main...origin/main [behind 2]\n"));
    assert!(!needs_pull("## main...origin/main\n"));
    assert!(!needs_pull(""));
}

#[test]
fn branch_names_are_cleaned() {
    let names = vec![
        Some("origin/HEAD".to_string()),
        Some("origin/main".to_string()),
        None,
        Some("origin/origin/x".to_string()),
        Some("dev".to_string()),
    ];
    assert_eq!(clean_branch_names(&names), vec!["main", "x", "dev"]);
    assert_eq!(strip_origin("origin/"), "");
    assert_eq!(keep_present(&vec![None, Some("a".to_string())]), vec!["a"]);
}

#[test]
fn registered_names_are_found() {
    let names = vec!["a".to_string(), "trees-x".to_string()];
    assert!(is_registered(&names, "trees-x"));
    assert!(!is_registered(&names, "trees"));
}

#[test]
fn commit_hash_is_abbreviated() {
    assert_eq!(short_hash("e1e1e1e1e1e1e1e1e1e1e1e1e1e1e1e1e1e1e1e1"), "e1e1e1e1");
    assert_eq!(short_hash("abc"), "abc");
}

#[test]
fn missing_directory_is_no_repository() {
    let r = is_worktree_dirty("/nonexistent/trees/test/path");
    assert!(matches!(r, Err(TreesError::RepoOpenError(p)) if p == "/nonexistent/trees/test/path"));
}

#[test]
fn removal_plan_of_missing_worktree_deletes_nothing() {
    let r = removal_plan("ghost", None);
    assert!(matches!(r, Err(TreesError::NotFound(n)) if n == "ghost"));
    let args = removal_plan("w", Some("/p/w".to_string())).unwrap();
    assert_eq!(args, vec!["worktree", "remove", "--force", "/p/w"]);
}

#[test]
fn merge_plan_only_for_clean_worktrees() {
    let r = merge_plan("a", "b", true, false, "feat");
    assert!(matches!(r, Err(TreesError::DirtyWorktree { side: MergeSide::Source, name }) if name == "a"));
    let r = merge_plan("a", "b", false, true, "feat");
    assert!(matches!(r, Err(TreesError::DirtyWorktree { side: MergeSide::Target, name }) if name == "b"));
    assert_eq!(merge_plan("a", "b", false, false, "feat").unwrap(), vec!["merge", "feat"]);
}

#[test]
fn pull_outcome_reports_failure_per_worktree() {
    assert!(pull_outcome("w", true, "").is_ok());
    let r = pull_outcome("w", false, "fatal: no upstream");
    assert!(matches!(r, Err(TreesError::PullFailed(m)) if m == "w\nfatal: no upstream"));
}

#[test]
fn pull_steps() {
    assert_eq!(next_pull_action(true, &None), PullAction::SkipDirty);
    let behind = Some("## main...origin/main [behind 1]\n".to_string());
    assert_eq!(next_pull_action(true, &behind), PullAction::SkipDirty);
    assert_eq!(next_pull_action(false, &None), PullAction::CheckStatus);
    assert_eq!(next_pull_action(false, &behind), PullAction::Pull);
    let even = Some("## main...origin/main\n".to_string());
    assert_eq!(next_pull_action(false, &even), PullAction::UpToDate);
}

#[test]
fn dirty_means_any_status_entry() {
    assert!(!dirty_of_count(0));
    assert!(dirty_of_count(1));
    assert!(dirty_of_count(42));
}

#[test]
fn registered_name_already_exists() {
    let names = vec!["trees-a".to_string()];
    let r = check_not_registered(&names, "trees-a");
    assert!(matches!(r, Err(TreesError::AlreadyExists(n)) if n == "trees-a"));
    assert!(check_not_registered(&names, "trees-b").is_ok());
}

#[test]
fn branch_creation_outcomes() {
    assert!(creation_outcome(true, false, String::new()).is_ok());
    assert!(creation_outcome(false, true, String::new()).is_ok());
    let r = creation_outcome(false, false, "failed to create branch: bad".to_string());
    assert!(matches!(r, Err(TreesError::GitError(m)) if m == "failed to create branch: bad"));
}
