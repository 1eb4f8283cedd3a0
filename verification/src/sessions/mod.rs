//! Sessions panel: the projects and sessions list, the per-row action menu
//! with its inline rename and worktree inputs, and the archive manager.

pub mod types;
pub mod panel;
pub mod laws;
pub mod labels;
