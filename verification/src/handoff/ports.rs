//! Storage and allocation boundaries the handoff policy runs against.
//!
//! Adapters implement these traits; every answer they give is an observation of the outside
//! world, so the policy's contracts hold whatever the answers are.
use vstd::prelude::*;

use crate::handoff::{
    HandoffDocument, HandoffDocumentIdentifier, HandoffDocumentScopePresence, HandoffLedgerRow,
    HandoffLocation, HandoffPatch, HandoffScope, NewHandoffDocument,
};

verus! {

/// A pending-work item as the handoff gate reads it.
#[derive(Debug, Clone, PartialEq, Eq)]
pub struct LinkedPendingWork {
    /// Canonical identifier.
    pub id: String,
    /// Its raw `tags` frontmatter, when it has one.
    pub tags: Option<String>,
}

/// The derived ledger as stored.
#[derive(Debug, Clone, PartialEq, Eq)]
pub struct HandoffLedger {
    /// Path of the ledger file.
    pub locator: String,
    /// Complete ledger Markdown.
    pub source: String,
}

/// A new pending-work item that continues a handoff.
#[derive(Debug, Clone, PartialEq, Eq)]
pub struct NewContinuationItem {
    pub prompt: String,
    pub title: String,
    pub created: String,
    /// Tags to apply, already canonical.
    pub tags: Vec<String>,
}

/// Handoff documents, their ledger, and the pending-work records they link.
pub trait HandoffStore {
    /// Concrete adapter failure.
    type Error;

    /// Whether the repository and its handoff directory exist.
    fn scope_presence(&self, scope: &HandoffScope) -> Result<
        HandoffDocumentScopePresence,
        Self::Error,
    >;

    /// Whether a document file exists at `identifier`.
    fn document_exists(&self, scope: &HandoffScope, identifier: &HandoffDocumentIdentifier) -> Result<
        bool,
        Self::Error,
    >;

    /// The documents of one directory.
    fn list_location(&self, scope: &HandoffScope, location: HandoffLocation) -> Result<
        Vec<HandoffDocument>,
        Self::Error,
    >;

    /// Writes a new active document.
    fn insert_document(&self, scope: &HandoffScope, document: NewHandoffDocument) -> Result<
        HandoffDocument,
        Self::Error,
    >;

    /// Applies a patch to a stored document, moving it when the location changes.
    fn update_document(
        &self,
        scope: &HandoffScope,
        identifier: &HandoffDocumentIdentifier,
        patch: HandoffPatch,
    ) -> Result<HandoffDocument, Self::Error>;

    /// Deletes a stored document.
    fn delete_document(&self, scope: &HandoffScope, identifier: &HandoffDocumentIdentifier) -> Result<
        (),
        Self::Error,
    >;

    /// Puts a moved document back where `snapshot` was.
    fn restore_document_after_move(&self, scope: &HandoffScope, snapshot: &HandoffDocument) -> Result<
        (),
        Self::Error,
    >;

    /// Writes a deleted document back from `snapshot`.
    fn restore_document_after_delete(
        &self,
        scope: &HandoffScope,
        snapshot: &HandoffDocument,
    ) -> Result<(), Self::Error>;

    /// Replaces the ledger with `rows`.
    fn write_ledger(&self, scope: &HandoffScope, rows: Vec<HandoffLedgerRow>) -> Result<
        HandoffLedger,
        Self::Error,
    >;

    /// Reads the ledger, when it exists.
    fn read_ledger(&self, scope: &HandoffScope) -> Result<Option<HandoffLedger>, Self::Error>;

    /// Reads one pending-work item of a managed project.
    fn pending_work(&self, project: &str, identifier: &str) -> Result<
        Option<LinkedPendingWork>,
        Self::Error,
    >;

    /// Creates a pending-work item and returns its canonical identifier.
    fn create_pending_work(&self, project: &str, item: NewContinuationItem) -> Result<
        String,
        Self::Error,
    >;
}

/// Request sent to an out-of-process pending-work allocator.
#[derive(Debug, Clone, PartialEq, Eq)]
pub struct AllocatePendingWork {
    /// Date supplied to pending-work creation.
    pub created: String,
    /// Managed project receiving the allocated item.
    pub project: String,
    /// Canonical tag applied by the allocator command.
    pub tag: String,
}

/// Allocates one pending-work identifier through an external boundary.
pub trait PendingWorkAllocatorClient {
    /// Concrete process or transport failure.
    type Error;

    /// Allocates one canonical identifier.
    fn allocate(&self, request: &AllocatePendingWork) -> Result<String, Self::Error>;
}

} // verus!
