use trees::head::HeadRead;
use trees::inventory::{
    assemble_inventory, find_by_name, other_worktrees, path_listed, LinkedProbe, WorktreeInfo,
};

fn record(name: &str, path: &str, branch: &str, is_dirty: bool) -> WorktreeInfo {
    WorktreeInfo {
        name: name.to_string(),
        path: path.to_string(),
        branch: branch.to_string(),
        is_dirty,
    }
}

fn sample() -> Vec<WorktreeInfo> {
    let linked = vec![
        LinkedProbe {
            name: "trees-feat".to_string(),
            path: Some("/work/trees-feat".to_string()),
            head: HeadRead::Read("ref: refs/heads/feat\n".to_string()),
            is_dirty: Some(true),
        },
        LinkedProbe {
            name: "gone".to_string(),
            path: None,
            head: HeadRead::Read("ref: refs/heads/ignored\n".to_string()),
            is_dirty: Some(true),
        },
        LinkedProbe {
            name: "trees-x".to_string(),
            path: Some("/work/trees-x".to_string()),
            head: HeadRead::Unreadable,
            is_dirty: None,
        },
    ];
    assemble_inventory(
        "/work/trees",
        &HeadRead::Read("ref: refs/heads/main\n".to_string()),
        Some(false),
        &linked,
    )
}

#[test]
fn main_record_comes_first() {
    let inv = sample();
    assert_eq!(inv.len(), 4);
    assert_eq!(inv[0].name, "main");
    assert_eq!(inv[0].path, "/work/trees");
    assert_eq!(inv[0].branch, "main");
    assert!(!inv[0].is_dirty);
}

#[test]
fn failed_lookups_default_to_unknown_and_clean() {
    let inv = sample();
    assert_eq!(inv[1].branch, "feat");
    assert!(inv[1].is_dirty);
    assert_eq!(inv[2].path, "gone");
    assert_eq!(inv[2].branch, "unknown");
    assert!(!inv[2].is_dirty);
    assert_eq!(inv[3].branch, "unknown");
    assert!(!inv[3].is_dirty);
}

#[test]
fn empty_linked_list_gives_main_only() {
    let inv = assemble_inventory("/r", &HeadRead::Unreadable, None, &Vec::new());
    assert_eq!(inv.len(), 1);
    assert_eq!(inv[0].name, "main");
    assert_eq!(inv[0].branch, "unknown");
}

#[test]
fn detached_main_worktree() {
    let inv = assemble_inventory("/r", &HeadRead::Read("0123abcd\n".to_string()), Some(true), &Vec::new());
    assert_eq!(inv[0].branch, "detached");
    assert!(inv[0].is_dirty);
}

#[test]
fn find_record_by_name() {
    let inv = sample();
    assert_eq!(find_by_name(&inv, "trees-x"), Some(3));
    assert_eq!(find_by_name(&inv, "none"), None);
}

#[test]
fn current_directory_is_filtered_out() {
    let inv = vec![record("main", "/a", "m", false), record("b", "/b", "x", true)];
    let others = other_worktrees(&inv, "/a");
    assert_eq!(others.len(), 1);
    assert_eq!(others[0].name, "b");
    assert_eq!(other_worktrees(&inv, "/c").len(), 2);
}

fn probe(name: &str, path: &str) -> LinkedProbe {
    LinkedProbe {
        name: name.to_string(),
        path: Some(path.to_string()),
        head: HeadRead::NoHeadFile,
        is_dirty: Some(false),
    }
}

#[test]
fn only_one_record_is_named_main() {
    let linked = vec![probe("main", "/work/main"), probe("b", "/work/b")];
    let inv = assemble_inventory("/work/trees", &HeadRead::NoHeadFile, None, &linked);
    let names: Vec<&str> = inv.iter().map(|w| w.name.as_str()).collect();
    assert_eq!(names, vec!["main", "b"]);
    assert_eq!(inv[1].branch, "unknown");
}

#[test]
fn paths_are_not_repeated() {
    let linked = vec![
        probe("trees", "/work/trees"),
        probe("b", "/work/b"),
        probe("c", "/work/b"),
        probe("d", "/work/d"),
    ];
    let inv = assemble_inventory("/work/trees", &HeadRead::NoHeadFile, None, &linked);
    let names: Vec<&str> = inv.iter().map(|w| w.name.as_str()).collect();
    assert_eq!(names, vec!["main", "b", "d"]);
    assert!(path_listed(&inv, "/work/d"));
    assert!(!path_listed(&inv, "/work/c"));
}
