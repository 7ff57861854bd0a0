//! Pending-work, handoff, note and session policy of the `pwf` workflow tool.
pub mod handoff;
pub mod note;
pub mod patterns;
pub mod pending_work;
pub mod ports;
pub mod text;
