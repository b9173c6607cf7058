use trees::naming::{compute_worktree_name, sanitize_branch_name};

#[test]
fn test_branch_name_sanitization() {
    let branch_name = "feat/shell-integration";
    let sanitized = sanitize_branch_name(branch_name);
    assert_eq!(sanitized, "feat-shell-integration");
}

#[test]
fn test_worktree_name_format() {
    let repo_name = "trees";
    let branch_name = "feat/shell-integration";
    let worktree_name = compute_worktree_name(repo_name, branch_name);
    assert_eq!(worktree_name, "trees-feat-shell-integration");
}

#[test]
fn test_multiple_slashes_sanitization() {
    let branch_name = "feature/user/authentication";
    let sanitized = sanitize_branch_name(branch_name);
    assert_eq!(sanitized, "feature-user-authentication");
}

#[test]
fn sanitize_is_idempotent_and_removes_every_slash() {
    for name in ["", "/", "//a//", "plain", "a/b/c", "ünï/cødé"] {
        let once = sanitize_branch_name(name);
        assert!(!once.contains('/'));
        assert_eq!(sanitize_branch_name(&once), once);
        assert_eq!(once, name.replace('/', "-"));
    }
}

#[test]
fn worktree_name_without_slashes_keeps_branch() {
    assert_eq!(compute_worktree_name("repo", "main"), "repo-main");
    assert_eq!(compute_worktree_name("repo", ""), "repo-");
    assert_eq!(compute_worktree_name("my/repo", "x/y"), "my/repo-x-y");
}
