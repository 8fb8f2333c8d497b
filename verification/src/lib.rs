//! Workspace and session switcher core: path translation between a restricted
//! filesystem view and real host paths, a deduplicated workspace registry, a
//! session registry, a cursor-based picker with a bounded viewport, and the
//! activation decision for switching sessions.

pub mod activation;
pub mod config;
pub mod events;
pub mod paths;
pub mod picker;
pub mod session_detail;
pub mod session_manager;
pub mod workspace;
pub mod workspace_dir;
pub mod workspace_manager;
