//! The decisions of the remove, merge and pull operations. The git tool
//! carries out what they decide; its exit status and output come back here
//! to be turned into a result.

use vstd::prelude::*;
use vstd::string::*;

use crate::error::{MergeSide, TreesError};
use crate::inventory::{copy_record, WorktreeInfo, WorktreeRecord};
use crate::text::{contains, contains_str};

verus! {

/// The worktree directory that was found for `name`, or `NotFound`.
pub fn require_worktree_path(name: &str, resolved: Option<String>) -> (r: Result<
    String,
    TreesError,
>)
    ensures
        match resolved {
            Some(p) => r matches Ok(q) && q@ == p@,
            None => r matches Err(TreesError::NotFound(n)) && n@ == name@,
        },
{
    match resolved {
        Some(p) => Ok(p),
        None => Err(TreesError::NotFound(String::from_str(name))),
    }
}

/// The arguments of the git command that force-removes the worktree at
/// `path`: `worktree remove --force <path>`.
pub fn removal_args(path: &str) -> (r: Vec<String>)
    ensures
        r@.map_values(|s: String| s@) == seq!["worktree"@, "remove"@, "--force"@, path@],
{
    let r = vec![
        String::from_str("worktree"),
        String::from_str("remove"),
        String::from_str("--force"),
        String::from_str(path),
    ];
    assert(r@.map_values(|s: String| s@) =~= seq!["worktree"@, "remove"@, "--force"@, path@]);
    r
}

/// `a`, a newline, and `b`.
pub open spec fn two_lines(a: Seq<char>, b: Seq<char>) -> Seq<char> {
    a + seq!['\n'] + b
}

fn join_lines(a: &str, b: &str) -> (r: String)
    ensures
        r@ == two_lines(a@, b@),
{
    let mut s = String::from_str(a);
    s.append("\n");
    proof {
        reveal_strlit("\n");
    }
    s.append(b);
    s
}

/// The result of a worktree removal by the git tool: success, or
/// `RemovalFailed` with the path and the tool's error output.
pub fn removal_outcome(path: &str, success: bool, stderr: &str) -> (r: Result<(), TreesError>)
    ensures
        success ==> r is Ok,
        !success ==> (r matches Err(TreesError::RemovalFailed(m)) && m@ == two_lines(
            path@,
            stderr@,
        )),
{
    if success {
        Ok(())
    } else {
        Err(TreesError::RemovalFailed(join_lines(path, stderr)))
    }
}

/// A merge goes ahead only when both worktrees are clean: otherwise it fails
/// with `DirtyWorktree`, naming the source when the source is dirty and the
/// target when only the target is.
pub fn check_merge_clean(source: &str, target: &str, source_dirty: bool, target_dirty: bool) -> (r:
    Result<(), TreesError>)
    ensures
        r is Ok <==> (!source_dirty && !target_dirty),
        source_dirty ==> (r matches Err(TreesError::DirtyWorktree { side, name }) && side
            == MergeSide::Source && name@ == source@),
        !source_dirty && target_dirty ==> (r matches Err(TreesError::DirtyWorktree { side, name })
            && side == MergeSide::Target && name@ == target@),
{
    if source_dirty {
        Err(TreesError::DirtyWorktree { side: MergeSide::Source, name: String::from_str(source) })
    } else if target_dirty {
        Err(TreesError::DirtyWorktree { side: MergeSide::Target, name: String::from_str(target) })
    } else {
        Ok(())
    }
}

/// The arguments of the git command that merges `branch` into the current
/// worktree: `merge <branch>`.
pub fn merge_args(branch: &str) -> (r: Vec<String>)
    ensures
        r@.map_values(|s: String| s@) == seq!["merge"@, branch@],
{
    let r = vec![String::from_str("merge"), String::from_str(branch)];
    assert(r@.map_values(|s: String| s@) =~= seq!["merge"@, branch@]);
    r
}

/// The result of a merge by the git tool: success, or `MergeFailed` with
/// the tool's standard output and error output.
pub fn merge_outcome(success: bool, stdout: &str, stderr: &str) -> (r: Result<(), TreesError>)
    ensures
        success ==> r is Ok,
        !success ==> (r matches Err(TreesError::MergeFailed(m)) && m@ == two_lines(
            stdout@,
            stderr@,
        )),
{
    if success {
        Ok(())
    } else {
        Err(TreesError::MergeFailed(join_lines(stdout, stderr)))
    }
}

/// The git command that removes the worktree `name`, given the directory
/// found for it. Without a directory the removal fails with `NotFound` and
/// no command is produced, so nothing is deleted.
pub fn removal_plan(name: &str, resolved: Option<String>) -> (r: Result<Vec<String>, TreesError>)
    ensures
        match resolved {
            Some(p) => r matches Ok(args) && args@.map_values(|s: String| s@) == seq![
                "worktree"@,
                "remove"@,
                "--force"@,
                p@,
            ],
            None => r matches Err(TreesError::NotFound(n)) && n@ == name@,
        },
{
    let path = require_worktree_path(name, resolved)?;
    Ok(removal_args(path.as_str()))
}

/// The git command that merges the source worktree's branch
/// `source_branch` into the target worktree. When either worktree is dirty
/// the merge fails with `DirtyWorktree` and no command is produced, so
/// neither worktree is touched.
pub fn merge_plan(
    source: &str,
    target: &str,
    source_dirty: bool,
    target_dirty: bool,
    source_branch: &str,
) -> (r: Result<Vec<String>, TreesError>)
    ensures
        r is Ok <==> (!source_dirty && !target_dirty),
        r matches Ok(args) ==> args@.map_values(|s: String| s@) == seq!["merge"@, source_branch@],
        source_dirty ==> (r matches Err(TreesError::DirtyWorktree { side, name }) && side
            == MergeSide::Source && name@ == source@),
        !source_dirty && target_dirty ==> (r matches Err(TreesError::DirtyWorktree { side, name })
            && side == MergeSide::Target && name@ == target@),
{
    check_merge_clean(source, target, source_dirty, target_dirty)?;
    Ok(merge_args(source_branch))
}

/// The result of a pull by the git tool in the worktree `name`: success,
/// or `PullFailed` with the name and the tool's error output. A failed pull
/// is reported for its worktree alone; the others are still pulled.
pub fn pull_outcome(name: &str, success: bool, stderr: &str) -> (r: Result<(), TreesError>)
    ensures
        success ==> r is Ok,
        !success ==> (r matches Err(TreesError::PullFailed(m)) && m@ == two_lines(
            name@,
            stderr@,
        )),
{
    if success {
        Ok(())
    } else {
        Err(TreesError::PullFailed(join_lines(name, stderr)))
    }
}

/// Whether a record is of a worktree without uncommitted changes.
pub open spec fn is_clean(w: WorktreeRecord) -> bool {
    !w.is_dirty
}

/// The worktrees that a pull may touch: the clean ones, in inventory order.
pub open spec fn pull_targets(records: Seq<WorktreeInfo>) -> Seq<WorktreeRecord> {
    records.map_values(|w: WorktreeInfo| w@).filter(|w: WorktreeRecord| is_clean(w))
}

/// The clean worktrees of the inventory, in order: those that a pull may
/// touch. Dirty ones are skipped.
pub fn pull_candidates(records: &Vec<WorktreeInfo>) -> (r: Vec<WorktreeInfo>)
    ensures
        r@.map_values(|w: WorktreeInfo| w@) == pull_targets(records@),
{
    let ghost spec_view = |w: WorktreeInfo| w@;
    let ghost keep = |w: WorktreeRecord| is_clean(w);
    let mut out: Vec<WorktreeInfo> = Vec::new();
    let mut i: usize = 0;
    while i < records.len()
        invariant
            i <= records@.len(),
            spec_view == (|w: WorktreeInfo| w@),
            keep == (|w: WorktreeRecord| is_clean(w)),
            out@.map_values(spec_view) == records@.subrange(0, i as int).map_values(
                spec_view,
            ).filter(keep),
        decreases records@.len() - i,
    {
        let ghost before = records@.subrange(0, i as int).map_values(spec_view);
        let ghost after = records@.subrange(0, i + 1).map_values(spec_view);
        assert(after =~= before.push(records@[i as int]@));
        proof {
            reveal(Seq::filter);
            assert(after.drop_last() =~= before);
        }
        if !records[i].is_dirty {
            out.push(copy_record(&records[i]));
            assert(out@.map_values(spec_view) =~= before.filter(keep).push(records@[i as int]@));
        } else {
            assert(out@.map_values(spec_view) =~= before.filter(keep));
        }
        i += 1;
    }
    assert(records@.subrange(0, records@.len() as int) =~= records@);
    out
}

/// A pull never touches a dirty worktree: every worktree it may touch is
/// clean, and every clean worktree of the inventory is among them.
pub proof fn lemma_pull_skips_dirty(records: Seq<WorktreeInfo>)
    ensures
        forall|k: int| 0 <= k < pull_targets(records).len() ==> !pull_targets(records)[k].is_dirty,
        forall|i: int|
            0 <= i < records.len() && !records[i].is_dirty ==> pull_targets(records).contains(
                records[i]@,
            ),
{
    let views = records.map_values(|w: WorktreeInfo| w@);
    let keep = |w: WorktreeRecord| is_clean(w);
    assert forall|k: int| 0 <= k < pull_targets(records).len() implies !pull_targets(
        records,
    )[k].is_dirty by {
        views.lemma_filter_pred(keep, k);
    }
    assert forall|i: int| 0 <= i < records.len() && !records[i].is_dirty implies pull_targets(
        records,
    ).contains(records[i]@) by {
        assert(views[i] == records[i]@);
        views.lemma_filter_contains(keep, i);
    }
}

/// The marker by which `git status --porcelain --branch` reports a branch
/// that is behind its upstream.
pub const BEHIND_MARKER: &'static str = "[behind";

/// Whether the output of `git status --porcelain --branch` reports the
/// branch as behind its upstream.
pub fn needs_pull(status: &str) -> (r: bool)
    ensures
        r == contains(status@, BEHIND_MARKER@),
{
    contains_str(status, BEHIND_MARKER)
}

/// What a pull does next with one worktree.
#[derive(Clone, Copy, Debug, PartialEq, Eq, Structural)]
pub enum PullAction {
    /// Leave it alone: it has uncommitted changes.
    SkipDirty,
    /// Ask git for its status against the upstream.
    CheckStatus,
    /// Run `git pull` in it.
    Pull,
    /// Nothing to do: it is not behind.
    UpToDate,
}

/// The next step of a pull for a worktree, from its dirty flag and the
/// output of `git status --porcelain --branch` once there is one. A dirty
/// worktree is never pulled, nor is its status asked for.
pub fn next_pull_action(is_dirty: bool, status: &Option<String>) -> (r: PullAction)
    ensures
        is_dirty ==> r == PullAction::SkipDirty,
        !is_dirty && status is None ==> r == PullAction::CheckStatus,
        !is_dirty ==> (status matches Some(s) ==> r == if contains(s@, BEHIND_MARKER@) {
            PullAction::Pull
        } else {
            PullAction::UpToDate
        }),
{
    if is_dirty {
        return PullAction::SkipDirty;
    }
    match status {
        None => PullAction::CheckStatus,
        Some(s) => if needs_pull(s.as_str()) {
            PullAction::Pull
        } else {
            PullAction::UpToDate
        },
    }
}

} // verus!
