//! Handoff documents: naming, lifecycle moves, the derived ledger and listing.
//!
//! Paths are `/`-separated strings; joining follows `PathBuf::join` on Unix.
pub mod add;
pub mod ledger;
pub mod lifecycle;
pub mod list;
pub mod naming;
pub mod ports;

use vstd::prelude::*;

use crate::text::{concat, displays};

verus! {

/// Which handoff directory holds a document.
#[derive(Debug, Clone, Copy, PartialEq, Eq, Structural)]
pub enum HandoffLocation {
    /// `docs/handoffs`.
    Active,
    /// `docs/handoffs/archived`.
    Archived,
}

/// Lifecycle status recorded in a handoff's frontmatter.
#[derive(Debug, Clone, Copy, PartialEq, Eq, Structural)]
pub enum HandoffStatus {
    Active,
    Done,
    Cancelled,
}

/// What a repository holds for handoff documents.
#[derive(Debug, Clone, Copy, PartialEq, Eq, Structural)]
pub enum HandoffDocumentScopePresence {
    /// The handoff directory exists.
    Present,
    /// The repository exists without a handoff directory.
    DirectoryMissing,
    /// The repository itself does not exist.
    RepositoryMissing,
}

/// The repository whose handoff documents are addressed.
#[derive(Debug, Clone, PartialEq, Eq)]
pub struct HandoffScope {
    pub repository_root: String,
}

/// A handoff document's file name and directory.
#[derive(Debug, Clone, PartialEq, Eq)]
pub struct HandoffDocumentIdentifier {
    pub file_name: String,
    pub location: HandoffLocation,
}

/// One handoff document as the store reads it.
#[derive(Debug, Clone, PartialEq, Eq)]
pub struct HandoffDocument {
    pub identifier: HandoffDocumentIdentifier,
    pub location: HandoffLocation,
    pub project: Option<String>,
    pub title: String,
    pub status: Option<HandoffStatus>,
    pub created: Option<String>,
    pub completed: Option<String>,
    /// The `pw:` link as written, when present.
    pub pending_work_identifier_raw: Option<String>,
    pub goals_completed: u64,
    pub goals_total: u64,
    pub body: String,
    pub source: String,
    /// Path of the document file.
    pub locator: String,
    /// Modification time in nanoseconds relative to the Unix epoch.
    pub modified_nanos: i128,
}

/// A new handoff document to insert.
#[derive(Debug, Clone, PartialEq, Eq)]
pub struct NewHandoffDocument {
    pub file_name: String,
    pub project: String,
    pub title: String,
    pub created: String,
    pub body: String,
    pub pending_work_identifier: Option<String>,
}

/// Changes to apply to a stored handoff document; `None` keeps a field.
#[derive(Debug, Clone, PartialEq, Eq)]
pub struct HandoffPatch {
    pub location: Option<HandoffLocation>,
    pub status: Option<HandoffStatus>,
    pub completed: Option<Option<String>>,
    pub body: Option<String>,
    pub pending_work_identifier: Option<String>,
}

/// One row of the derived handoff ledger.
#[derive(Debug, Clone, PartialEq, Eq)]
pub struct HandoffLedgerRow {
    pub pending_work_identifier: String,
    pub title: String,
    pub file_name: String,
    pub goals_completed: u64,
    pub goals_total: u64,
    pub created: String,
}

/// Describes the linked handoff side effect of a pending-work mutation.
#[derive(Debug, Clone, PartialEq, Eq)]
pub enum HandoffMutationOk {
    /// The pending-work item is not linked to a handoff.
    NotLinked,
    /// A linked handoff was created.
    Created { path: String },
    /// A linked handoff was archived.
    Archived { path: String },
    /// A linked handoff was restored to the active directory.
    Reopened { path: String },
    /// A linked handoff was removed.
    Removed { path: String },
    /// The handoff already had the requested lifecycle state.
    AlreadyInTargetState,
}

/// Reports handoff validation, persistence, and recovery failures; `E` is the storage
/// adapter's error.
#[derive(Debug)]
pub enum HandoffError<E> {
    /// Reading the pending-work record used by the handoff gate failed.
    ReadPendingWork { source: E },
    /// A handoff-tagged pending-work record has malformed tags.
    InvalidTags { id: String, raw: String },
    /// A handoff-tagged item belongs to a managed project without a repository.
    UnmanagedProject { id: String, project: String },
    /// A handoff-tagged item maps to a repository that is absent.
    RepositoryMissing { id: String, path: String },
    /// A handoff continuation requires an active handoff directory.
    HandoffDirectoryMissing { path: String },
    /// A handoff continuation requires at least one Markdown document.
    HandoffMarkdownMissing { path: String },
    /// No handoff in the expected directory links the pending-work item.
    HandoffNotFound { id: String, directory: String },
    /// Several handoffs in one directory link the same pending-work item.
    AmbiguousHandoff { id: String, directory: String },
    /// The target active handoff path is already occupied.
    ActiveDestinationExists { path: String },
    /// The target archived handoff path is already occupied.
    ArchivedDestinationExists { path: String },
    /// Reading handoff records failed.
    ReadDocuments { path: String, source: E },
    /// Writing or moving one handoff record failed.
    WriteDocument { operation: String, path: String, source: E },
    /// Deleting one handoff record failed.
    DeleteDocument { path: String, source: E },
    /// Rebuilding the derived handoff ledger failed.
    RebuildLedger { path: String, source: E },
}

/// The message a handoff failure is reported with, given the message of the adapter
/// failure it carries; the failures that carry one are reported with that message alone.
pub open spec fn handoff_message<E>(e: HandoffError<E>, source_message: Seq<char>) -> Seq<char> {
    match e {
        HandoffError::ReadPendingWork { .. } => source_message,
        HandoffError::InvalidTags { id, raw } => "item "@ + id@ + " has invalid tags frontmatter: "@
            + raw@,
        HandoffError::UnmanagedProject { id, project } => "item "@ + id@
            + " is tagged `handoff` but the managed project record for "@ + project@
            + " has no directory source for its repository; inspect it with `pwf project ls`"@,
        HandoffError::RepositoryMissing { id, path } => "item "@ + id@
            + " is tagged `handoff` but its repo path does not exist: "@ + path@,
        HandoffError::HandoffDirectoryMissing { path } => "No handoff directory found for project at "@
            + path@ + "."@,
        HandoffError::HandoffMarkdownMissing { path } => "No handoff Markdown files found in "@
            + path@ + "."@,
        HandoffError::HandoffNotFound { id, directory } => "item "@ + id@
            + " is tagged `handoff` but no handoff with `pw: "@ + id@ + "` exists in "@ + directory@
            + " \u{2014} untag it (`pwf update --id "@ + id@ + " --tags-clear`) or create the handoff"@,
        HandoffError::AmbiguousHandoff { id, directory } => "more than one handoff in "@
            + directory@ + " claims `pw: "@ + id@ + "` \u{2014} fix the duplicate frontmatter"@,
        HandoffError::ActiveDestinationExists { path } => "active handoff already exists: "@ + path@,
        HandoffError::ArchivedDestinationExists { path } => "archived handoff already exists: "@
            + path@,
        HandoffError::ReadDocuments { .. } => source_message,
        HandoffError::WriteDocument { .. } => source_message,
        HandoffError::DeleteDocument { .. } => source_message,
        HandoffError::RebuildLedger { .. } => source_message,
    }
}

impl<E> HandoffError<E> {
    /// The message of this failure, given the message of the adapter failure it carries.
    pub fn message_with(&self, source_message: &str) -> (r: String)
        ensures
            r@ == handoff_message(*self, source_message@),
    {
        match self {
            HandoffError::ReadPendingWork { .. } => source_message.to_owned(),
            HandoffError::InvalidTags { id, raw } => {
                let a = concat("item ", id.as_str());
                let b = concat(a.as_str(), " has invalid tags frontmatter: ");
                concat(b.as_str(), raw.as_str())
            },
            HandoffError::UnmanagedProject { id, project } => {
                let a = concat("item ", id.as_str());
                let b = concat(a.as_str(), " is tagged `handoff` but the managed project record for ");
                let c = concat(b.as_str(), project.as_str());
                concat(
                    c.as_str(),
                    " has no directory source for its repository; inspect it with `pwf project ls`",
                )
            },
            HandoffError::RepositoryMissing { id, path } => {
                let a = concat("item ", id.as_str());
                let b = concat(a.as_str(), " is tagged `handoff` but its repo path does not exist: ");
                concat(b.as_str(), path.as_str())
            },
            HandoffError::HandoffDirectoryMissing { path } => {
                let a = concat("No handoff directory found for project at ", path.as_str());
                concat(a.as_str(), ".")
            },
            HandoffError::HandoffMarkdownMissing { path } => {
                let a = concat("No handoff Markdown files found in ", path.as_str());
                concat(a.as_str(), ".")
            },
            HandoffError::HandoffNotFound { id, directory } => {
                let a = concat("item ", id.as_str());
                let b = concat(a.as_str(), " is tagged `handoff` but no handoff with `pw: ");
                let c = concat(b.as_str(), id.as_str());
                let d = concat(c.as_str(), "` exists in ");
                let e = concat(d.as_str(), directory.as_str());
                let f = concat(e.as_str(), " \u{2014} untag it (`pwf update --id ");
                let g = concat(f.as_str(), id.as_str());
                concat(g.as_str(), " --tags-clear`) or create the handoff")
            },
            HandoffError::AmbiguousHandoff { id, directory } => {
                let a = concat("more than one handoff in ", directory.as_str());
                let b = concat(a.as_str(), " claims `pw: ");
                let c = concat(b.as_str(), id.as_str());
                concat(c.as_str(), "` \u{2014} fix the duplicate frontmatter")
            },
            HandoffError::ActiveDestinationExists { path } => concat(
                "active handoff already exists: ",
                path.as_str(),
            ),
            HandoffError::ArchivedDestinationExists { path } => concat(
                "archived handoff already exists: ",
                path.as_str(),
            ),
            HandoffError::ReadDocuments { .. } => source_message.to_owned(),
            HandoffError::WriteDocument { .. } => source_message.to_owned(),
            HandoffError::DeleteDocument { .. } => source_message.to_owned(),
            HandoffError::RebuildLedger { .. } => source_message.to_owned(),
        }
    }

    /// The adapter failure this failure carries, if any.
    pub fn source_error(&self) -> (r: Option<&E>)
        ensures
            match self {
                HandoffError::ReadPendingWork { source } => r == Some(source),
                HandoffError::ReadDocuments { source, .. } => r == Some(source),
                HandoffError::WriteDocument { source, .. } => r == Some(source),
                HandoffError::DeleteDocument { source, .. } => r == Some(source),
                HandoffError::RebuildLedger { source, .. } => r == Some(source),
                _ => r is None,
            },
    {
        match self {
            HandoffError::ReadPendingWork { source } => Some(source),
            HandoffError::ReadDocuments { source, .. } => Some(source),
            HandoffError::WriteDocument { source, .. } => Some(source),
            HandoffError::DeleteDocument { source, .. } => Some(source),
            HandoffError::RebuildLedger { source, .. } => Some(source),
            _ => None,
        }
    }
}

/// Whether `r` is the message of `h`: the adapter failure's own message for the failures
/// that carry one.
pub open spec fn handoff_reports<E: std::fmt::Display>(h: &HandoffError<E>, r: Seq<char>) -> bool {
    match h {
        HandoffError::ReadPendingWork { source } => displays(source, r),
        HandoffError::ReadDocuments { source, .. } => displays(source, r),
        HandoffError::WriteDocument { source, .. } => displays(source, r),
        HandoffError::DeleteDocument { source, .. } => displays(source, r),
        HandoffError::RebuildLedger { source, .. } => displays(source, r),
        _ => r == handoff_message(*h, Seq::empty()),
    }
}

impl<E: std::fmt::Display> HandoffError<E> {
    /// The message of this failure.
    pub fn message(&self) -> (r: String)
        ensures
            handoff_reports(self, r@),
    {
        match self {
            HandoffError::ReadPendingWork { source } => source.to_string(),
            HandoffError::ReadDocuments { source, .. } => source.to_string(),
            HandoffError::WriteDocument { source, .. } => source.to_string(),
            HandoffError::DeleteDocument { source, .. } => source.to_string(),
            HandoffError::RebuildLedger { source, .. } => source.to_string(),
            _ => {
                let r = self.message_with("");
                proof {
                    reveal_strlit("");
                }
                r
            },
        }
    }
}

} // verus!
