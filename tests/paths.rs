use trees::error::TreesError;
use trees::paths::{join_path, parent_dir, resolve_main_repository, sibling_path, GitMarker};
use trees::text::{first_index, has_prefix, same_text, trim};

#[test]
fn parent_of_paths() {
    assert_eq!(parent_dir("/a/b/c"), Some("/a/b".to_string()));
    assert_eq!(parent_dir("/a"), Some("/".to_string()));
    assert_eq!(parent_dir("/"), None);
    assert_eq!(parent_dir(""), None);
    assert_eq!(parent_dir("name"), Some(String::new()));
}

#[test]
fn join_adds_one_separator() {
    assert_eq!(join_path("/a", "b"), "/a/b");
    assert_eq!(join_path("/a/", "b"), "/a/b");
    assert_eq!(join_path("", "b"), "b");
}

#[test]
fn main_repository_resolves_to_itself() {
    let r = resolve_main_repository("/work/trees", &GitMarker::NotAFile).unwrap();
    assert_eq!(r, "/work/trees");
}

#[test]
fn linked_worktree_resolves_to_main_repository() {
    let marker = GitMarker::File("gitdir: /work/trees/.git/worktrees/trees-feat\n".to_string());
    let from_worktree = resolve_main_repository("/work/trees-feat", &marker).unwrap();
    let from_main = resolve_main_repository("/work/trees", &GitMarker::NotAFile).unwrap();
    assert_eq!(from_worktree, "/work/trees");
    assert_eq!(from_worktree, from_main);
}

#[test]
fn malformed_git_file_falls_back_to_path() {
    let marker = GitMarker::File("not a pointer\n".to_string());
    let r = resolve_main_repository("/work/odd", &marker).unwrap();
    assert_eq!(r, "/work/odd");
}

#[test]
fn gitdir_too_shallow_is_a_path_error() {
    let marker = GitMarker::File("gitdir: /x\n".to_string());
    let r = resolve_main_repository("/work/odd", &marker);
    assert!(matches!(r, Err(TreesError::PathError(_))));
}

#[test]
fn trim_removes_unicode_white_space() {
    assert_eq!(trim("  a b\t\n"), "a b");
    assert_eq!(trim("\u{3000}x\u{a0}"), "x");
    assert_eq!(trim(" \n "), "");
    assert_eq!(trim(""), "");
}

#[test]
fn text_searching() {
    assert!(has_prefix("gitdir: x", "gitdir: "));
    assert!(!has_prefix("git", "gitdir: "));
    assert!(same_text("abc", "abc"));
    assert!(!same_text("abc", "abd"));
    assert_eq!(first_index("a -> b -> c", " -> "), Some(1));
    assert_eq!(first_index("abc", " -> "), None);
}

#[test]
fn worktree_directory_is_beside_the_repository() {
    assert_eq!(sibling_path("/work/trees", "trees-feat"), Some("/work/trees-feat".to_string()));
    assert_eq!(sibling_path("/trees", "x"), Some("/x".to_string()));
    assert_eq!(sibling_path("/", "x"), None);
}
