//! The errors of the worktree operations.

use vstd::prelude::*;

verus! {

/// Which side of a merge a worktree stands on.
#[derive(Clone, Copy, Debug, PartialEq, Eq, Structural)]
pub enum MergeSide {
    Source,
    Target,
}

/// What went wrong in an operation; each variant carries the resource it
/// concerns or the underlying cause.
#[derive(Clone, Debug)]
pub enum TreesError {
    /// A path is missing or cannot be resolved.
    PathError(String),
    /// A directory is not a valid git repository.
    RepoOpenError(String),
    /// The `.git` entry or the `HEAD` file of a worktree could not be read.
    BranchLookupError(String),
    /// The worktree directory or registration exists already.
    AlreadyExists(String),
    /// No worktree of that name could be found.
    NotFound(String),
    /// A worktree taking part in a merge has uncommitted changes.
    DirtyWorktree { side: MergeSide, name: String },
    /// The git tool failed to remove a worktree.
    RemovalFailed(String),
    /// The git tool failed to merge.
    MergeFailed(String),
    /// The git tool failed to pull.
    PullFailed(String),
    /// Fetching from a remote failed.
    FetchFailed(String),
    /// A shell for which no integration script exists.
    UnsupportedShell(String),
    /// Any other failure of the repository library.
    GitError(String),
}

} // verus!
