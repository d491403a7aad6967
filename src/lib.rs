//! Merge-queue agent core: approval and test tracks published as commit
//! statuses, the per-request state machine, and the per-branch scheduler.

pub mod status;
pub mod text;
pub mod build_state;
pub mod command;
pub mod merge_request;
pub mod queue;
pub mod config;
