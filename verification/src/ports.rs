//! Records that the storage adapters hand to the pending-work and handoff policies.
use vstd::prelude::*;

verus! {

/// State of one pending-work link in a project's index.
#[derive(Debug, Clone, PartialEq, Eq)]
pub enum IndexEntryState {
    /// The link is open.
    Open,
    /// The link is checked off with its completion date.
    Done(String),
}

/// One pending-work link in a project's index.
#[derive(Debug, Clone, PartialEq, Eq)]
pub struct IndexEntry {
    /// Canonical work-item identifier.
    pub id: String,
    /// Open or done state.
    pub state: IndexEntryState,
    /// Raw label of the index section holding the link; empty for the general section.
    pub section: String,
}

/// Identity of a pending-work record: a canonical identifier, or the ordinal of a legacy
/// inline entry.
#[derive(Debug, Clone, PartialEq, Eq)]
pub enum RecordId {
    Item(String),
    Inline(usize),
}

/// Lifecycle status of a pending-work item.
#[derive(Debug, Clone, Copy, PartialEq, Eq, Structural)]
pub enum WorkItemStatus {
    Active,
    Done,
    Cancelled,
}

/// How a pending-work record is stored.
#[derive(Debug, Clone, PartialEq, Eq)]
pub enum Materialization {
    /// A note file of its own.
    NoteFile,
    /// An index link whose note file is missing at `expected`.
    MissingNote { expected: String },
    /// A legacy entry written inline in the index.
    InlineLegacy,
}

/// Where an item's open link sits in its project's index.
#[derive(Debug, Clone, PartialEq, Eq)]
pub struct IndexPlacement {
    pub index_path: String,
    pub line: usize,
}

/// One persisted pending-work record.
#[derive(Debug, Clone, PartialEq, Eq)]
pub struct PendingWorkItem {
    pub id: RecordId,
    pub title: String,
    pub status: WorkItemStatus,
    pub created: Option<String>,
    pub completed: Option<String>,
    pub commits: Option<String>,
    pub tags: Option<String>,
    pub effort: Option<String>,
    pub prereq: Option<String>,
    pub section: Option<String>,
    pub body: String,
    pub source: String,
    /// Path of the record's note, or of the index for inline entries.
    pub locator: String,
    pub placement: Option<IndexPlacement>,
    pub materialization: Materialization,
}

/// Today's date, for requests that were given none.
pub trait Clock {
    fn today(&self) -> String;
}

/// The metadata-safe title rules item frontmatter is written with.
pub trait TitleRules {
    /// The form an explicit title is persisted in.
    fn normalize(&self, title: &str) -> String;

    /// Whether persisting an explicit title changes it.
    fn was_normalized(&self, title: &str) -> bool;

    /// The title inferred from a prompt given without one.
    fn inferred(&self, prompt: &str) -> String;
}

/// One section header of a project's index.
#[derive(Debug, Clone, PartialEq, Eq)]
pub struct IndexSection {
    /// Raw header label.
    pub label: String,
}

} // verus!
