//! The command line: global options and subcommands.

use vstd::prelude::*;

verus! {

/// The repository path used when none is given.
pub const DEFAULT_PATH: &'static str = "./";

/// The parsed command line.
#[derive(Clone, Debug)]
pub struct Cli {
    pub config: Config,
    /// The subcommand; none for the default listing, selection and creation
    /// flow.
    pub command: Option<Commands>,
}

/// The options that every subcommand takes.
#[derive(Clone, Debug)]
pub struct Config {
    /// The repository path.
    pub path: String,
    /// Print directory paths only, for shell integration.
    pub dir_only: bool,
}

/// The subcommands.
#[derive(Clone, Debug)]
pub enum Commands {
    /// List worktrees.
    List,
    /// Add a new worktree.
    Add,
    /// Remove a worktree.
    Rm,
    /// Merge two worktrees.
    Merge,
    /// Pull updates for all worktrees.
    Pull,
    /// Show the shell integration script of a shell (zsh, bash, fish).
    Shell { shell: String },
}

} // verus!
