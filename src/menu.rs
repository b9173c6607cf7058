//! The text of the choices offered to the user, and reading a choice back.

use vstd::prelude::*;
use vstd::string::*;

use crate::head::DETACHED;
use crate::inventory::{WorktreeInfo, WorktreeRecord};
use crate::text::{head_before, same_text, split_head, split_tail, tail_after};

verus! {

/// Separates a worktree's name from the rest of its menu entry.
pub const ENTRY_SEPARATOR: &'static str = " -> ";

/// Separates a branch's kind from its name in the branch menu.
pub const KIND_SEPARATOR: &'static str = ": ";

/// The branch-menu entry that asks for a new branch.
pub const CREATE_BRANCH: &'static str = "Create new branch";

/// The worktree-menu entry that asks for a new worktree.
pub const CREATE_WORKTREE: &'static str = "Create new worktree";

/// The menu entry of a worktree:
/// `<name> -> <path> (<branch>)`, followed by ` (dirty)` for a dirty one.
pub open spec fn entry_of(w: WorktreeRecord) -> Seq<char> {
    w.name + ENTRY_SEPARATOR@ + w.path + " ("@ + w.branch + ")"@ + if w.is_dirty {
        " (dirty)"@
    } else {
        Seq::empty()
    }
}

/// The menu entry of a worktree (see `entry_of`).
pub fn menu_entry(w: &WorktreeInfo) -> (r: String)
    ensures
        r@ == entry_of(w@),
{
    let mut s = w.name.clone();
    s.append(ENTRY_SEPARATOR);
    s.append(w.path.as_str());
    s.append(" (");
    s.append(w.branch.as_str());
    s.append(")");
    if w.is_dirty {
        s.append(" (dirty)");
    } else {
        assert(s@ + Seq::<char>::empty() =~= s@);
    }
    s
}

/// The menu entries of the worktrees, in order.
pub fn menu_entries(records: &Vec<WorktreeInfo>) -> (r: Vec<String>)
    ensures
        r@.len() == records@.len(),
        forall|i: int| 0 <= i < r@.len() ==> #[trigger] r@[i]@ == entry_of(records@[i]@),
{
    let mut out: Vec<String> = Vec::new();
    let mut i: usize = 0;
    while i < records.len()
        invariant
            i <= records@.len(),
            out@.len() == i,
            forall|j: int| 0 <= j < i ==> #[trigger] out@[j]@ == entry_of(records@[j]@),
        decreases records@.len() - i,
    {
        out.push(menu_entry(&records[i]));
        i += 1;
    }
    out
}

/// The worktree name that a chosen menu entry stands for: what precedes
/// its first ` -> `.
pub fn selected_name(selected: &str) -> (r: String)
    ensures
        r@ == split_head(selected@, ENTRY_SEPARATOR@),
{
    head_before(selected, ENTRY_SEPARATOR)
}

/// The branch that a chosen branch-menu entry stands for: the text between
/// the first `: ` and the next, or the whole entry when it holds no `: `.
pub open spec fn branch_of_choice(selected: Seq<char>) -> Seq<char> {
    match split_tail(selected, KIND_SEPARATOR@) {
        Some(rest) => split_head(rest, KIND_SEPARATOR@),
        None => selected,
    }
}

/// The branch that a chosen branch-menu entry stands for (see
/// `branch_of_choice`).
pub fn branch_choice(selected: &str) -> (r: String)
    ensures
        r@ == branch_of_choice(selected@),
{
    match tail_after(selected, KIND_SEPARATOR) {
        Some(rest) => head_before(rest.as_str(), KIND_SEPARATOR),
        None => String::from_str(selected),
    }
}

fn labelled(label: &str, name: &str) -> (r: String)
    ensures
        r@ == label@ + name@,
{
    let mut s = String::from_str(label);
    s.append(name);
    s
}

/// The branch menu: `local: <b>` for each local branch, `remote: <b>` for
/// each remote one, and the entry that asks for a new branch.
pub fn branch_menu(local: &Vec<String>, remote: &Vec<String>) -> (r: Vec<String>)
    ensures
        r@.len() == local@.len() + remote@.len() + 1,
        forall|i: int| 0 <= i < local@.len() ==> #[trigger] r@[i]@ == "local: "@ + local@[i]@,
        forall|i: int|
            0 <= i < remote@.len() ==> #[trigger] r@[local@.len() + i]@ == "remote: "@
                + remote@[i]@,
        r@[(local@.len() + remote@.len()) as int]@ == CREATE_BRANCH@,
{
    let mut out: Vec<String> = Vec::new();
    let mut i: usize = 0;
    while i < local.len()
        invariant
            i <= local@.len(),
            out@.len() == i,
            forall|j: int| 0 <= j < i ==> #[trigger] out@[j]@ == "local: "@ + local@[j]@,
        decreases local@.len() - i,
    {
        out.push(labelled("local: ", local[i].as_str()));
        i += 1;
    }
    let mut k: usize = 0;
    while k < remote.len()
        invariant
            k <= remote@.len(),
            out@.len() == local@.len() + k,
            forall|j: int| 0 <= j < local@.len() ==> #[trigger] out@[j]@ == "local: "@ + local@[j]@,
            forall|j: int|
                0 <= j < k ==> #[trigger] out@[local@.len() + j]@ == "remote: "@ + remote@[j]@,
        decreases remote@.len() - k,
    {
        out.push(labelled("remote: ", remote[k].as_str()));
        k += 1;
    }
    out.push(String::from_str(CREATE_BRANCH));
    out
}

/// The line that lists a worktree: its path, its abbreviated commit, and
/// its branch in brackets, which a detached worktree leaves out.
pub open spec fn list_line_of(path: Seq<char>, hash: Seq<char>, branch: Seq<char>) -> Seq<char> {
    path + " "@ + hash + " "@ + if branch == DETACHED@ {
        Seq::empty()
    } else {
        " ["@ + branch + "]"@
    }
}

/// The line that lists a worktree (see `list_line_of`).
pub fn list_line(path: &str, hash: &str, branch: &str) -> (r: String)
    ensures
        r@ == list_line_of(path@, hash@, branch@),
{
    let mut s = String::from_str(path);
    s.append(" ");
    s.append(hash);
    s.append(" ");
    if !same_text(branch, DETACHED) {
        s.append(" [");
        s.append(branch);
        s.append("]");
        assert(s@ =~= list_line_of(path@, hash@, branch@));
    } else {
        assert(s@ =~= list_line_of(path@, hash@, branch@));
    }
    s
}

} // verus!
