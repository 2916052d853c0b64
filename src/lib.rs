//! Watches a remote repository for new branches and provisions a local
//! worktree for each one, one at a time, with an optional setup command.

pub mod branch_list;
pub mod config;
pub mod executor;
pub mod fetch;
pub mod laws;
pub mod logs;
pub mod protocol;
pub mod registry;
pub mod repository;
pub mod state;
pub mod status;
pub mod text;
pub mod watcher;
pub mod worktree;
