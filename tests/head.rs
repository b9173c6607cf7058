use trees::error::TreesError;
use trees::head::{branch_from_head, branch_from_lookup, head_file_path, worktree_branch, HeadRead};
use trees::paths::GitMarker;

#[test]
fn test_get_worktree_branch_head_branch() {
    let branch = branch_from_head("ref: refs/heads/feature/test\n");
    assert_eq!(branch, "feature/test");
}

#[test]
fn test_get_worktree_branch_head_detached() {
    let branch = branch_from_head("e1e1e1e1e1e1e1e1e1e1e1e1e1e1e1e1e1e1e1e1\n");
    assert_eq!(branch, "detached");
}

#[test]
fn head_with_surrounding_space_is_trimmed() {
    assert_eq!(branch_from_head("ref: refs/heads/  main \r\n"), "main");
    assert_eq!(branch_from_head("ref: refs/heads/\n"), "");
}

#[test]
fn head_of_other_reference_is_detached() {
    assert_eq!(branch_from_head("ref: refs/tags/v1\n"), "detached");
    assert_eq!(branch_from_head(""), "detached");
    assert_eq!(branch_from_head(" ref: refs/heads/main"), "detached");
}

#[test]
fn unreadable_head_is_unknown() {
    assert_eq!(branch_from_lookup(&HeadRead::Unreadable), "unknown");
    assert_eq!(branch_from_lookup(&HeadRead::NoHeadFile), "unknown");
    assert_eq!(branch_from_lookup(&HeadRead::Read("ref: refs/heads/dev\n".to_string())), "dev");
}

#[test]
fn head_file_of_main_repository() {
    assert_eq!(
        head_file_path("/work/repo", &GitMarker::NotAFile),
        Some("/work/repo/.git/HEAD".to_string())
    );
    assert_eq!(
        head_file_path("/work/repo/", &GitMarker::NotAFile),
        Some("/work/repo/.git/HEAD".to_string())
    );
}

#[test]
fn head_file_of_linked_worktree() {
    let marker = GitMarker::File("gitdir: /work/repo/.git/worktrees/repo-x\n".to_string());
    assert_eq!(
        head_file_path("/work/repo-x", &marker),
        Some("/work/repo/.git/worktrees/repo-x/HEAD".to_string())
    );
    let odd = GitMarker::File("something else".to_string());
    assert_eq!(head_file_path("/work/repo-x", &odd), None);
}

#[test]
fn unreadable_head_is_a_branch_lookup_error() {
    let r = worktree_branch("/w/x", &HeadRead::Unreadable);
    assert!(matches!(r, Err(TreesError::BranchLookupError(p)) if p == "/w/x"));
    assert_eq!(worktree_branch("/w/x", &HeadRead::NoHeadFile).unwrap(), "unknown");
    let head = HeadRead::Read("ref: refs/heads/feature/test\n".to_string());
    assert_eq!(worktree_branch("/w/x", &head).unwrap(), "feature/test");
}
