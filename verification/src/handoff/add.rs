//! Creates one handoff together with the pending-work item that continues it.
use vstd::prelude::*;
use crate::text::{display_text, displays};
use crate::pending_work::project_registry::resolution_message;

use crate::handoff::ledger::{rebuild, RebuildLedgerError};
use crate::handoff::lifecycle::{handoff_body, handoff_body_of, join_path, path_join};
use crate::handoff::naming::{continuation_title, continuation_title_of, slug, slug_of};
use crate::handoff::ports::{
    AllocatePendingWork, HandoffStore, NewContinuationItem, PendingWorkAllocatorClient,
};
use crate::handoff::{
    HandoffDocumentIdentifier, HandoffLocation, HandoffPatch, HandoffScope, NewHandoffDocument,
};
use crate::pending_work::project_registry::{
    names, normalize_repository, repository_is, resolution_of, ProjectRegistry,
    ProjectResolutionError, Resolution,
};
use crate::text::concat;

verus! {

/// Selects typed in-process allocation or the legacy external CLI protocol.
#[derive(Debug, Clone, PartialEq, Eq)]
pub enum HandoffAllocation {
    /// Creates the linked item through the shared application primitive.
    InProcess,
    /// Invokes the configured allocator.
    External,
}

/// Requests one linked handoff and pending-work item.
#[derive(Debug, Clone, PartialEq, Eq)]
pub struct AddHandoff {
    /// Repository receiving the handoff document.
    pub scope: HandoffScope,
    /// Handoff heading.
    pub title: String,
    /// Optional caller-selected file slug.
    pub slug: Option<String>,
    /// Authored creation date.
    pub created: String,
    /// Pending-work allocation boundary.
    pub allocation: HandoffAllocation,
}

/// Identifies all records created by a successful handoff add.
#[derive(Debug, Clone, PartialEq, Eq)]
pub struct AddedHandoff {
    /// Linked pending-work identifier.
    pub pending_work_identifier: String,
    /// Created handoff document path.
    pub handoff_path: String,
    /// Rebuilt ledger path.
    pub ledger_path: String,
}

/// Why allocation failed: the store behind in-process allocation, or the external allocator.
#[derive(Debug)]
pub enum AllocationFailure<E, A> {
    Store(E),
    Allocator(A),
}

/// Reports the exact phase in which handoff creation failed.
#[derive(Debug)]
pub enum AddHandoffError<E, A> {
    /// The repository is not mapped to one managed project.
    ProjectResolution { source: ProjectResolutionError },
    /// The requested dated handoff file already exists.
    DestinationExists { path: String },
    /// Storage failed before a pending-work identifier was allocated.
    StoreBeforeAllocation { source: E },
    /// The typed or external pending-work allocator failed.
    AllocationFailed { source: AllocationFailure<E, A> },
    /// Allocation succeeded but the handoff could not be linked.
    LinkAfterAllocation { pending_work_identifier: String, handoff_path: String, source: E },
    /// Allocation and linking succeeded but ledger replacement failed.
    LedgerAfterAllocation {
        pending_work_identifier: String,
        handoff_path: String,
        source: RebuildLedgerError<E>,
    },
}

/// The file name of the handoff an add creates: `{created}-{slug}.md`, the slug taken from
/// the caller's slug when given, else from the title.
pub open spec fn added_file_name(command: AddHandoff) -> Seq<char> {
    command.created@ + "-"@ + slug_of(
        match command.slug {
            Some(s) => s@,
            None => command.title@,
        },
    ) + ".md"@
}

/// Where that handoff is checked for a collision.
pub open spec fn added_path(command: AddHandoff) -> Seq<char> {
    path_join(
        path_join(path_join(command.scope.repository_root@, "docs"@), "handoffs"@),
        added_file_name(command),
    )
}

/// The prompt of the item that continues a handoff created as `file_name`.
pub open spec fn continuation_item_prompt(file_name: Seq<char>) -> Seq<char> {
    "Continue the handoff at @docs/handoffs/"@ + file_name + "."@
}

/// The pending-work item that continues the handoff `file_name`, created on `created`.
pub fn continuation_item(file_name: &str, created: &str) -> (r: NewContinuationItem)
    ensures
        r.prompt@ == continuation_item_prompt(file_name@),
        r.title@ == continuation_title_of(file_name@),
        r.created@ == created@,
        r.tags@.len() == 1,
        r.tags@[0]@ == "handoff"@,
{
    let relative_path = concat("docs/handoffs/", file_name);
    let opening = concat("Continue the handoff at @", relative_path.as_str());
    let prompt = concat(opening.as_str(), ".");
    proof {
        reveal_strlit("docs/handoffs/");
        reveal_strlit("Continue the handoff at @");
        reveal_strlit("Continue the handoff at @docs/handoffs/");
        assert(prompt@ =~= continuation_item_prompt(file_name@));
    }
    let mut tags: Vec<String> = Vec::new();
    tags.push("handoff".to_owned());
    NewContinuationItem {
        prompt,
        title: continuation_title(file_name),
        created: created.to_owned(),
        tags,
    }
}

/// The unlinked document an add writes first: the file name, the resolved project, the
/// command's title and date, and the body scaffolded from the title.
pub fn provisional_document(command: &AddHandoff, project: &str, file_name: &str) -> (r: NewHandoffDocument)
    ensures
        r.file_name@ == file_name@,
        r.project@ == project@,
        r.title == command.title,
        r.created == command.created,
        r.body@ == handoff_body_of(command.title@),
        r.pending_work_identifier is None,
{
    NewHandoffDocument {
        file_name: file_name.to_owned(),
        project: project.to_owned(),
        title: command.title.clone(),
        created: command.created.clone(),
        body: handoff_body(command.title.as_str()),
        pending_work_identifier: None,
    }
}

/// The patch that links the written document to its allocated item and changes nothing else.
pub fn link_patch(pending_work_identifier: &str) -> (r: HandoffPatch)
    ensures
        r.location is None,
        r.status is None,
        r.completed is None,
        r.body is None,
        r.pending_work_identifier matches Some(id) && id@ == pending_work_identifier@,
{
    HandoffPatch {
        location: None,
        status: None,
        completed: None,
        body: None,
        pending_work_identifier: Some(pending_work_identifier.to_owned()),
    }
}

/// The request an external allocator gets: the handoff's date, its project, and the
/// `handoff` tag.
pub fn allocation_request(created: &str, project: &str) -> (r: AllocatePendingWork)
    ensures
        r.created@ == created@,
        r.project@ == project@,
        r.tag@ == "handoff"@,
{
    proof {
        reveal_strlit("handoff");
    }
    AllocatePendingWork { created: created.to_owned(), project: project.to_owned(), tag: "handoff".to_owned() }
}

/// Creates, links, and indexes one handoff: resolves the repository's project, refuses an
/// existing file, writes the unlinked document, allocates its pending-work item (deleting the
/// document again when that fails), links the document and rebuilds the ledger.
pub fn execute<S: HandoffStore, C: PendingWorkAllocatorClient>(
    command: AddHandoff,
    store: &S,
    projects: &ProjectRegistry,
    allocator: &C,
) -> (r: Result<AddedHandoff, AddHandoffError<S::Error, C::Error>>)
    ensures
        ({
            let found = projects.rows().filter(
                repository_is(normalize_repository(command.scope.repository_root@)),
            );
            &&& found.len() == 0 ==> (r matches Err(AddHandoffError::ProjectResolution { source })
                && resolution_of(Err(source)) == Resolution::Unknown(
                command.scope.repository_root@,
                names(projects.rows()),
            ))
            &&& r matches Err(AddHandoffError::DestinationExists { path }) ==> path@ == added_path(
                command,
            )
            &&& found.len() > 0 ==> !(r matches Err(AddHandoffError::ProjectResolution { source: _ }))
            &&& r matches Ok(added) ==> found.len() > 0
        }),
{
    let project = match projects.project_for_repository(command.scope.repository_root.as_str()) {
        Ok(project) => project.clone(),
        Err(source) => return Err(AddHandoffError::ProjectResolution { source }),
    };
    let ghost original = command;
    let slug = match &command.slug {
        Some(s) => slug(s.as_str()),
        None => slug(command.title.as_str()),
    };
    let dated = concat(command.created.as_str(), "-");
    let named = concat(dated.as_str(), slug.as_str());
    let file_name = concat(named.as_str(), ".md");
    let identifier = HandoffDocumentIdentifier {
        file_name: file_name.clone(),
        location: HandoffLocation::Active,
    };
    let docs = join_path(command.scope.repository_root.as_str(), "docs");
    let handoffs = join_path(docs.as_str(), "handoffs");
    let handoff_path = join_path(handoffs.as_str(), file_name.as_str());
    assert(handoff_path@ == added_path(original));
    match store.document_exists(&command.scope, &identifier) {
        Err(source) => return Err(AddHandoffError::StoreBeforeAllocation { source }),
        Ok(true) => return Err(AddHandoffError::DestinationExists { path: handoff_path }),
        Ok(false) => {},
    }
    let document = provisional_document(&command, project.as_str(), file_name.as_str());
    let provisional = match store.insert_document(&command.scope, document) {
        Ok(document) => document,
        Err(source) => return Err(AddHandoffError::StoreBeforeAllocation { source }),
    };
    let handoff_path = provisional.locator;
    let allocated = match command.allocation {
        HandoffAllocation::InProcess => {
            let item = continuation_item(file_name.as_str(), command.created.as_str());
            match store.create_pending_work(project.as_str(), item) {
                Ok(identifier) => Ok(identifier),
                Err(source) => Err(AllocationFailure::Store(source)),
            }
        },
        HandoffAllocation::External => {
            match allocator.allocate(
                &allocation_request(command.created.as_str(), project.as_str()),
            ) {
                Ok(identifier) => Ok(identifier),
                Err(source) => Err(AllocationFailure::Allocator(source)),
            }
        },
    };
    let pending_work_identifier = match allocated {
        Ok(identifier) => identifier,
        Err(source) => {
            let _ = store.delete_document(&command.scope, &identifier);
            return Err(AddHandoffError::AllocationFailed { source });
        },
    };
    match store.update_document(&command.scope, &identifier, link_patch(pending_work_identifier.as_str())) {
        Ok(_) => {},
        Err(source) => {
            return Err(
                AddHandoffError::LinkAfterAllocation {
                    pending_work_identifier,
                    handoff_path,
                    source,
                },
            );
        },
    }
    match rebuild(&command.scope, store) {
        Ok(ledger) => Ok(
            AddedHandoff { pending_work_identifier, handoff_path, ledger_path: ledger.locator },
        ),
        Err(source) => Err(
            AddHandoffError::LedgerAfterAllocation { pending_work_identifier, handoff_path, source },
        ),
    }
}

impl<E: std::fmt::Display, A: std::fmt::Display> AddHandoffError<E, A> {
    /// The message this failure is reported with: the failure it carries, or the path that
    /// is already taken.
    pub fn message(&self) -> (r: String)
        ensures
            match self {
                AddHandoffError::ProjectResolution { source } => r@ == resolution_message(*source),
                AddHandoffError::DestinationExists { path } => r@ == "Handoff already exists: "@
                    + path@,
                AddHandoffError::StoreBeforeAllocation { source } => displays(source, r@),
                AddHandoffError::AllocationFailed { source } => match source {
                    AllocationFailure::Store(e) => displays(e, r@),
                    AllocationFailure::Allocator(e) => displays(e, r@),
                },
                AddHandoffError::LinkAfterAllocation { source, .. } => displays(source, r@),
                AddHandoffError::LedgerAfterAllocation { source, .. } => match source {
                    RebuildLedgerError::ReadDocuments(e) => displays(e, r@),
                    RebuildLedgerError::WriteLedger(e) => displays(e, r@),
                },
            },
    {
        match self {
            AddHandoffError::ProjectResolution { source } => source.message(),
            AddHandoffError::DestinationExists { path } => concat(
                "Handoff already exists: ",
                path.as_str(),
            ),
            AddHandoffError::StoreBeforeAllocation { source } => display_text(source),
            AddHandoffError::AllocationFailed { source } => match source {
                AllocationFailure::Store(e) => display_text(e),
                AllocationFailure::Allocator(e) => display_text(e),
            },
            AddHandoffError::LinkAfterAllocation { source, .. } => display_text(source),
            AddHandoffError::LedgerAfterAllocation { source, .. } => source.message(),
        }
    }
}

} // verus!
