//! Views of pending-work items handed to list, verify and session callers.
use vstd::prelude::*;

use crate::ports::WorkItemStatus;

verus! {

/// The status of one prerequisite, or `None` when it could not be found.
#[derive(Debug, Clone, PartialEq, Eq)]
pub struct PrerequisiteStatus {
    pub id: String,
    pub status: Option<WorkItemStatus>,
}

/// A pending-work item with its project and launch diagnostics.
#[derive(Debug, Clone, PartialEq, Eq)]
pub struct PendingWorkItemView {
    pub id: String,
    pub project: String,
    pub status: WorkItemStatus,
    pub session: String,
    pub prompt: String,
    pub repo: Option<String>,
    pub note: String,
    pub item_file: Option<String>,
    pub line: usize,
    pub format: String,
    pub launchable: bool,
    pub needs_prompt: bool,
    pub issues: Vec<String>,
    pub section: Option<String>,
    pub prereq: Option<String>,
    pub prerequisite_statuses: Vec<PrerequisiteStatus>,
    pub effort: Option<String>,
    pub tags: Option<String>,
    pub created: Option<String>,
}

} // verus!
