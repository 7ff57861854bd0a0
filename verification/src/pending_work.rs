//! Pending-work policy: sections, identifiers, the done queue, listing and routing.
pub mod add;
pub mod cancel;
pub mod close;
pub mod commit_provenance;
pub mod complete_pending_work;
pub mod done;
pub mod done_queue;
pub mod dto;
pub mod enrich;
pub mod find;
pub mod identifier;
pub mod list;
pub mod prerequisite;
pub mod project_registry;
pub mod reject_pending_work_create;
pub mod remove;
pub mod remove_pending_work_item;
pub mod reopen;
pub mod section;
pub mod session;
pub mod tags;
