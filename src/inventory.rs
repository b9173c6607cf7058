//! The worktree inventory: one record per worktree, the main one first.

use vstd::prelude::*;
use vstd::string::*;

use crate::head::{branch_from_lookup, branch_of_lookup, HeadRead, UNKNOWN};
use crate::text::same_text;

verus! {

/// The name of the main worktree's record.
pub const MAIN_NAME: &'static str = "main";

/// One worktree of the inventory.
#[derive(Clone, Debug)]
pub struct WorktreeInfo {
    /// `main` for the primary checkout, else the registered name.
    pub name: String,
    /// The worktree's directory.
    pub path: String,
    /// The checked-out branch, or `detached` / `unknown`.
    pub branch: String,
    /// Whether the working tree has uncommitted changes.
    pub is_dirty: bool,
}

/// The mathematical value of a record.
pub struct WorktreeRecord {
    pub name: Seq<char>,
    pub path: Seq<char>,
    pub branch: Seq<char>,
    pub is_dirty: bool,
}

impl View for WorktreeInfo {
    type V = WorktreeRecord;

    open spec fn view(&self) -> WorktreeRecord {
        WorktreeRecord {
            name: self.name@,
            path: self.path@,
            branch: self.branch@,
            is_dirty: self.is_dirty,
        }
    }
}

/// What was found out about one registered linked worktree.
#[derive(Clone, Debug)]
pub struct LinkedProbe {
    /// The registered name.
    pub name: String,
    /// Its directory, when one was found.
    pub path: Option<String>,
    /// What reading its `HEAD` gave.
    pub head: HeadRead,
    /// Whether it is dirty, when its status could be read.
    pub is_dirty: Option<bool>,
}

/// A looked-up value, or `default` when the lookup failed.
pub open spec fn text_or(v: Option<String>, default: Seq<char>) -> Seq<char> {
    match v {
        Some(s) => s@,
        None => default,
    }
}

/// The main worktree's record, from its path, what reading its `HEAD` gave,
/// and its dirty state where that could be read.
pub open spec fn main_record(
    main_path: Seq<char>,
    head: HeadRead,
    is_dirty: Option<bool>,
) -> WorktreeRecord {
    WorktreeRecord {
        name: MAIN_NAME@,
        path: main_path,
        branch: branch_of_lookup(head),
        is_dirty: is_dirty == Some(true),
    }
}

/// The record of a linked worktree. Without a directory, the registered
/// name stands in for the path, the branch is `unknown` and the worktree
/// counts as clean.
pub open spec fn linked_record(p: LinkedProbe) -> WorktreeRecord {
    WorktreeRecord {
        name: p.name@,
        path: text_or(p.path, p.name@),
        branch: if p.path is Some {
            branch_of_lookup(p.head)
        } else {
            UNKNOWN@
        },
        is_dirty: p.path is Some && p.is_dirty == Some(true),
    }
}

/// Whether some record of `s` has the path `p`.
pub open spec fn has_path(s: Seq<WorktreeRecord>, p: Seq<char>) -> bool {
    exists|j: int| 0 <= j < s.len() && s[j].path == p
}

/// The inventory: the main worktree, then the linked ones in the order
/// given. A linked worktree registered as `main`, or whose path an earlier
/// record already has, is left out, so that one record alone is named
/// `main` and no two records share a path.
pub open spec fn inventory_of(
    main_path: Seq<char>,
    main_head: HeadRead,
    main_dirty: Option<bool>,
    linked: Seq<LinkedProbe>,
) -> Seq<WorktreeRecord>
    decreases linked.len(),
{
    if linked.len() == 0 {
        seq![main_record(main_path, main_head, main_dirty)]
    } else {
        let prev = inventory_of(main_path, main_head, main_dirty, linked.drop_last());
        let r = linked_record(linked.last());
        if r.name == MAIN_NAME@ || has_path(prev, r.path) {
            prev
        } else {
            prev.push(r)
        }
    }
}

fn text_or_default(v: &Option<String>, default: &str) -> (r: String)
    ensures
        r@ == text_or(*v, default@),
{
    match v {
        Some(s) => s.clone(),
        None => String::from_str(default),
    }
}

/// The main worktree's record, from its canonical path and what the
/// lookups of its `HEAD` and of its dirty state gave.
pub fn main_worktree(main_path: &str, head: &HeadRead, is_dirty: Option<bool>) -> (r:
    WorktreeInfo)
    ensures
        r@ == main_record(main_path@, *head, is_dirty),
{
    WorktreeInfo {
        name: String::from_str(MAIN_NAME),
        path: String::from_str(main_path),
        branch: branch_from_lookup(head),
        is_dirty: match is_dirty {
            Some(d) => d,
            None => false,
        },
    }
}

/// The record of one linked worktree.
pub fn linked_worktree(p: &LinkedProbe) -> (r: WorktreeInfo)
    ensures
        r@ == linked_record(*p),
{
    let branch = match &p.path {
        Some(_) => branch_from_lookup(&p.head),
        None => String::from_str(UNKNOWN),
    };
    WorktreeInfo {
        name: p.name.clone(),
        path: text_or_default(&p.path, p.name.as_str()),
        branch,
        is_dirty: match (&p.path, p.is_dirty) {
            (Some(_), Some(d)) => d,
            _ => false,
        },
    }
}

/// Whether some record of `records` has the path `path`.
pub fn path_listed(records: &Vec<WorktreeInfo>, path: &str) -> (r: bool)
    ensures
        r == has_path(records@.map_values(|w: WorktreeInfo| w@), path@),
{
    let ghost views = records@.map_values(|w: WorktreeInfo| w@);
    let mut i: usize = 0;
    while i < records.len()
        invariant
            i <= records@.len(),
            views == records@.map_values(|w: WorktreeInfo| w@),
            forall|j: int| 0 <= j < i ==> views[j].path != path@,
        decreases records@.len() - i,
    {
        if same_text(records[i].path.as_str(), path) {
            assert(views[i as int].path == path@);
            return true;
        }
        i += 1;
    }
    false
}

/// Builds the inventory (see `inventory_of`): the main worktree's record
/// first, then the records of the linked worktrees in order, leaving out any
/// registered as `main` and any whose path is listed already.
pub fn assemble_inventory(
    main_path: &str,
    main_head: &HeadRead,
    main_dirty: Option<bool>,
    linked: &Vec<LinkedProbe>,
) -> (r: Vec<WorktreeInfo>)
    ensures
        r@.map_values(|w: WorktreeInfo| w@) == inventory_of(
            main_path@,
            *main_head,
            main_dirty,
            linked@,
        ),
        r@.len() >= 1,
        r@[0]@ == main_record(main_path@, *main_head, main_dirty),
        forall|i: int| 1 <= i < r@.len() ==> #[trigger] r@[i].name@ != MAIN_NAME@,
        forall|i: int, j: int|
            0 <= i < j < r@.len() ==> #[trigger] r@[i].path@ != #[trigger] r@[j].path@,
{
    let ghost spec_view = |w: WorktreeInfo| w@;
    let mut out: Vec<WorktreeInfo> = Vec::new();
    out.push(main_worktree(main_path, main_head, main_dirty));
    assert(out@.map_values(spec_view) =~= inventory_of(
        main_path@,
        *main_head,
        main_dirty,
        linked@.subrange(0, 0),
    ));
    let mut i: usize = 0;
    while i < linked.len()
        invariant
            i <= linked@.len(),
            spec_view == (|w: WorktreeInfo| w@),
            out@.map_values(spec_view) == inventory_of(
                main_path@,
                *main_head,
                main_dirty,
                linked@.subrange(0, i as int),
            ),
        decreases linked@.len() - i,
    {
        assert(linked@.subrange(0, i + 1).drop_last() =~= linked@.subrange(0, i as int));
        let rec = linked_worktree(&linked[i]);
        if !same_text(rec.name.as_str(), MAIN_NAME) && !path_listed(&out, rec.path.as_str()) {
            out.push(rec);
            assert(out@.map_values(spec_view) =~= inventory_of(
                main_path@,
                *main_head,
                main_dirty,
                linked@.subrange(0, i as int),
            ).push(linked_record(linked@[i as int])));
        }
        i += 1;
    }
    assert(linked@.subrange(0, linked@.len() as int) =~= linked@);
    proof {
        lemma_inventory_invariants(main_path@, *main_head, main_dirty, linked@);
        let views = out@.map_values(spec_view);
        assert forall|i: int| 0 <= i < out@.len() implies #[trigger] out@[i]@ == views[i] by {}
        assert forall|i: int, j: int| 0 <= i < j < out@.len() implies #[trigger] out@[i].path@
            != #[trigger] out@[j].path@ by {
            assert(views[i].path != views[j].path);
        }
        assert forall|i: int| 1 <= i < out@.len() implies #[trigger] out@[i].name@
            != MAIN_NAME@ by {
            assert(views[i].name != MAIN_NAME@);
        }
    }
    out
}

/// Every inventory starts with the main worktree's record, named `main`
/// and at the canonical main repository path; no other record is named
/// `main`, and no two records share a path.
pub proof fn lemma_inventory_invariants(
    main_path: Seq<char>,
    main_head: HeadRead,
    main_dirty: Option<bool>,
    linked: Seq<LinkedProbe>,
)
    ensures
        inventory_of(main_path, main_head, main_dirty, linked).len() >= 1,
        inventory_of(main_path, main_head, main_dirty, linked)[0] == main_record(
            main_path,
            main_head,
            main_dirty,
        ),
        inventory_of(main_path, main_head, main_dirty, linked)[0].name == MAIN_NAME@,
        inventory_of(main_path, main_head, main_dirty, linked)[0].path == main_path,
        forall|i: int|
            1 <= i < inventory_of(main_path, main_head, main_dirty, linked).len()
                ==> #[trigger] inventory_of(main_path, main_head, main_dirty, linked)[i].name
                != MAIN_NAME@,
        forall|i: int, j: int|
            0 <= i < j < inventory_of(main_path, main_head, main_dirty, linked).len()
                ==> #[trigger] inventory_of(main_path, main_head, main_dirty, linked)[i].path
                != #[trigger] inventory_of(main_path, main_head, main_dirty, linked)[j].path,
    decreases linked.len(),
{
    if linked.len() > 0 {
        lemma_inventory_invariants(main_path, main_head, main_dirty, linked.drop_last());
        let prev = inventory_of(main_path, main_head, main_dirty, linked.drop_last());
        let r = linked_record(linked.last());
        if !(r.name == MAIN_NAME@ || has_path(prev, r.path)) {
            let cur = prev.push(r);
            assert forall|i: int, j: int| 0 <= i < j < cur.len() implies #[trigger] cur[i].path
                != #[trigger] cur[j].path by {
                if j == cur.len() - 1 {
                    assert(prev[i].path != r.path);
                } else {
                    assert(cur[i] == prev[i] && cur[j] == prev[j]);
                }
            }
            assert forall|i: int| 1 <= i < cur.len() implies #[trigger] cur[i].name
                != MAIN_NAME@ by {
                if i < prev.len() {
                    assert(cur[i] == prev[i]);
                }
            }
        }
    }
}

/// The index of the first record named `name`, if any.
pub fn find_by_name(records: &Vec<WorktreeInfo>, name: &str) -> (r: Option<usize>)
    ensures
        match r {
            Some(i) => i < records@.len() && records@[i as int].name@ == name@ && forall|j: int|
                0 <= j < i ==> records@[j].name@ != name@,
            None => forall|j: int| 0 <= j < records@.len() ==> records@[j].name@ != name@,
        },
{
    let mut i: usize = 0;
    while i < records.len()
        invariant
            i <= records@.len(),
            forall|j: int| 0 <= j < i ==> records@[j].name@ != name@,
        decreases records@.len() - i,
    {
        if same_text(records[i].name.as_str(), name) {
            return Some(i);
        }
        i += 1;
    }
    None
}

/// A copy of a record.
pub fn copy_record(w: &WorktreeInfo) -> (r: WorktreeInfo)
    ensures
        r@ == w@,
{
    WorktreeInfo {
        name: w.name.clone(),
        path: w.path.clone(),
        branch: w.branch.clone(),
        is_dirty: w.is_dirty,
    }
}

/// The records whose path is not `current`, in order: the worktrees that a
/// shell standing in `current` can change to.
pub fn other_worktrees(records: &Vec<WorktreeInfo>, current: &str) -> (r: Vec<WorktreeInfo>)
    ensures
        r@.map_values(|w: WorktreeInfo| w@) == records@.map_values(|w: WorktreeInfo| w@).filter(
            |w: WorktreeRecord| w.path != current@,
        ),
{
    let ghost spec_view = |w: WorktreeInfo| w@;
    let ghost keep = |w: WorktreeRecord| w.path != current@;
    let mut out: Vec<WorktreeInfo> = Vec::new();
    let mut i: usize = 0;
    while i < records.len()
        invariant
            i <= records@.len(),
            spec_view == (|w: WorktreeInfo| w@),
            keep == (|w: WorktreeRecord| w.path != current@),
            out@.map_values(spec_view) == records@.subrange(0, i as int).map_values(
                spec_view,
            ).filter(keep),
        decreases records@.len() - i,
    {
        let ghost before = records@.subrange(0, i as int).map_values(spec_view);
        let ghost after = records@.subrange(0, i + 1).map_values(spec_view);
        assert(after =~= before.push(records@[i as int]@));
        proof {
            reveal(Seq::filter);
            assert(after.drop_last() =~= before);
        }
        if !same_text(records[i].path.as_str(), current) {
            out.push(copy_record(&records[i]));
            assert(out@.map_values(spec_view) =~= before.filter(keep).push(records@[i as int]@));
        } else {
            assert(out@.map_values(spec_view) =~= before.filter(keep));
        }
        i += 1;
    }
    assert(records@.subrange(0, records@.len() as int) =~= records@);
    out
}

} // verus!
