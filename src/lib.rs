//! Management of the worktrees of a git repository: locating the main
//! repository, building the worktree inventory, and the decisions behind
//! creating, removing, merging and pulling worktrees.

pub mod cli;
pub mod error;
pub mod head;
pub mod inventory;
pub mod menu;
pub mod naming;
pub mod ops;
pub mod paths;
pub mod repo;
pub mod shell;
pub mod text;
pub mod tui;
