//! Decisions behind two parts of a coding session: the repository snapshot that is taken
//! before a turn may run tools, and the runtime that applies a patch.

pub mod apply_patch;
pub mod exec_output;
pub mod ghost_snapshot;
pub mod patch_changes;
pub mod patch_request;
pub mod path;
pub mod snapshot_laws;
pub mod snapshot_warnings;
pub mod text;
