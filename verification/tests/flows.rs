use std::cell::RefCell;
use std::collections::{BTreeMap, BTreeSet};
use std::fmt;

use pwf_application::handoff::add::{self, AddHandoff, AddHandoffError, HandoffAllocation};
use pwf_application::handoff::ledger::rebuild;
use pwf_application::handoff::lifecycle::commit::commit_after_pending_work;
use pwf_application::handoff::list::{self, ListHandoffs, ListedHandoffs};
use pwf_application::handoff::lifecycle::preflight::{
    preflight_close, preflight_delete, preflight_reopen,
};
use pwf_application::handoff::lifecycle::{CloseHandoffAction, PendingHandoffMutation};
use pwf_application::handoff::ports::{
    AllocatePendingWork, HandoffLedger, HandoffStore, LinkedPendingWork,
    NewContinuationItem, PendingWorkAllocatorClient,
};
use pwf_application::handoff::{
    HandoffDocument, HandoffDocumentIdentifier, HandoffDocumentScopePresence, HandoffError,
    HandoffLedgerRow, HandoffLocation, HandoffMutationOk, HandoffPatch, HandoffScope,
    HandoffStatus, NewHandoffDocument,
};
use pwf_application::pending_work::add::{
    self as add_item, resolve_section, AddPendingWorkError, AddPendingWorkItem,
    AddPendingWorkSource, PendingWorkSection,
};
use pwf_application::pending_work::cancel::{self, CancelPendingWork, CancelPendingWorkError};
use pwf_application::pending_work::done::{
    self, ClosedItemAction, CompletePendingWork, CompletePendingWorkError, IndexStore,
};
use pwf_application::pending_work::complete_pending_work::{
    self as dated_done, CompletePendingWork as DatedCompletePendingWork,
};
use pwf_application::pending_work::find::{
    CreateItemFailure, CreatedItem, ItemPatch, NewItem, PendingWorkStore,
};
use pwf_application::pending_work::project_registry::ProjectRegistry;
use pwf_application::pending_work::remove::{
    self as unconfirmed_remove, RemovePendingWorkError as UnconfirmedRemoveError,
    RemovePendingWorkItem as UnconfirmedRemove,
};
use pwf_application::pending_work::remove_pending_work_item::{
    self, RemovalConfirmation, RemovalInteraction, RemovePendingWorkError, RemovePendingWorkItem,
    RemovePendingWorkOutcome,
};
use pwf_application::pending_work::reopen::{self, ReopenPendingWork, ReopenPendingWorkError};
use pwf_application::ports::{
    Clock, TitleRules, IndexEntry, IndexEntryState, IndexSection, Materialization, PendingWorkItem, RecordId,
    WorkItemStatus,
};

// ---------------------------------------------------------------------------------------
// An in-memory adapter for every storage boundary of the library.

#[derive(Debug, Clone, PartialEq)]
struct StoreError(String);

impl fmt::Display for StoreError {
    fn fmt(&self, formatter: &mut fmt::Formatter<'_>) -> fmt::Result {
        formatter.write_str(&self.0)
    }
}

impl std::error::Error for StoreError {}

#[derive(Debug, Clone, Copy, PartialEq, Eq, PartialOrd, Ord)]
enum FailurePoint {
    DocumentExists,
    DocumentUpdate,
    DocumentDelete,
    DocumentRestoreMove,
    LedgerInsert,
    ItemCreate,
}

impl FailurePoint {
    fn label(self) -> &'static str {
        match self {
            FailurePoint::DocumentExists => "handoff-document-exists",
            FailurePoint::DocumentUpdate => "handoff-document-update",
            FailurePoint::DocumentDelete => "handoff-document-delete",
            FailurePoint::DocumentRestoreMove => "handoff-document-restore-move",
            FailurePoint::LedgerInsert => "handoff-ledger-insert",
            FailurePoint::ItemCreate => "pending-work-create",
        }
    }
}

#[derive(Default)]
struct MemoryStore {
    prefixes: BTreeMap<String, String>,
    items: RefCell<BTreeMap<String, Vec<PendingWorkItem>>>,
    entries: RefCell<BTreeMap<String, Vec<IndexEntry>>>,
    sections: RefCell<BTreeMap<String, Vec<IndexSection>>>,
    documents: RefCell<BTreeMap<String, Vec<HandoffDocument>>>,
    ledgers: RefCell<BTreeMap<String, HandoffLedger>>,
    failures: BTreeSet<FailurePoint>,
}

fn handoff_directory(root: &str, location: HandoffLocation) -> String {
    match location {
        HandoffLocation::Active => format!("{root}/docs/handoffs"),
        HandoffLocation::Archived => format!("{root}/docs/handoffs/archived"),
    }
}

fn record_id(item: &PendingWorkItem) -> Option<&str> {
    match &item.id {
        RecordId::Item(id) => Some(id.as_str()),
        RecordId::Inline(_) => None,
    }
}

impl MemoryStore {
    fn with_prefix(mut self, project: &str, prefix: &str) -> Self {
        self.prefixes.insert(project.to_string(), prefix.to_string());
        self
    }

    fn with_project(self, project: &str, items: Vec<PendingWorkItem>) -> Self {
        self.items.borrow_mut().insert(project.to_string(), items);
        self
    }

    fn with_entries(self, project: &str, entries: Vec<IndexEntry>) -> Self {
        self.entries.borrow_mut().insert(project.to_string(), entries);
        self
    }

    fn with_sections(self, project: &str, labels: &[&str]) -> Self {
        self.sections.borrow_mut().insert(
            project.to_string(),
            labels.iter().map(|label| IndexSection { label: label.to_string() }).collect(),
        );
        self
    }

    fn with_handoff_documents(self, root: &str, documents: Vec<HandoffDocument>) -> Self {
        self.documents.borrow_mut().insert(root.to_string(), documents);
        self
    }

    fn with_failure(mut self, failure: FailurePoint) -> Self {
        self.failures.insert(failure);
        self
    }

    fn fail(&self, failure: FailurePoint) -> Result<(), StoreError> {
        if self.failures.contains(&failure) {
            Err(StoreError(failure.label().to_string()))
        } else {
            Ok(())
        }
    }

    fn items(&self, project: &str) -> Vec<PendingWorkItem> {
        self.items.borrow().get(project).cloned().unwrap_or_default()
    }

    fn entries(&self, project: &str) -> Vec<IndexEntry> {
        self.entries.borrow().get(project).cloned().unwrap_or_default()
    }

    fn section_labels(&self, project: &str) -> Vec<String> {
        self.sections
            .borrow()
            .get(project)
            .map(|sections| sections.iter().map(|s| s.label.clone()).collect())
            .unwrap_or_default()
    }

    fn handoff_documents(&self, root: &str) -> Vec<HandoffDocument> {
        self.documents.borrow().get(root).cloned().unwrap_or_default()
    }

    fn ledger(&self, root: &str) -> Option<HandoffLedger> {
        self.ledgers.borrow().get(root).cloned()
    }

    fn next_id(&self, project: &str) -> String {
        let prefix = self.prefixes.get(project).cloned().unwrap_or_else(|| "PWF".to_string());
        let highest = self
            .items(project)
            .iter()
            .filter_map(record_id)
            .filter_map(|id| id.rsplit('-').next().and_then(|n| n.parse::<u32>().ok()))
            .max()
            .unwrap_or(0);
        format!("{prefix}-{:04}", highest + 1)
    }
}

impl HandoffStore for MemoryStore {
    type Error = StoreError;

    fn scope_presence(
        &self,
        scope: &HandoffScope,
    ) -> Result<HandoffDocumentScopePresence, Self::Error> {
        if self.documents.borrow().contains_key(&scope.repository_root) {
            Ok(HandoffDocumentScopePresence::Present)
        } else {
            Ok(HandoffDocumentScopePresence::DirectoryMissing)
        }
    }

    fn document_exists(
        &self,
        scope: &HandoffScope,
        identifier: &HandoffDocumentIdentifier,
    ) -> Result<bool, Self::Error> {
        self.fail(FailurePoint::DocumentExists)?;
        Ok(self.handoff_documents(&scope.repository_root).iter().any(|document| {
            document.identifier.file_name == identifier.file_name
                && document.location == identifier.location
        }))
    }

    fn list_location(
        &self,
        scope: &HandoffScope,
        location: HandoffLocation,
    ) -> Result<Vec<HandoffDocument>, Self::Error> {
        Ok(self
            .handoff_documents(&scope.repository_root)
            .into_iter()
            .filter(|document| document.location == location)
            .collect())
    }

    fn insert_document(
        &self,
        scope: &HandoffScope,
        document: NewHandoffDocument,
    ) -> Result<HandoffDocument, Self::Error> {
        let root = &scope.repository_root;
        let stored = HandoffDocument {
            identifier: HandoffDocumentIdentifier {
                file_name: document.file_name.clone(),
                location: HandoffLocation::Active,
            },
            location: HandoffLocation::Active,
            project: Some(document.project.clone()),
            title: document.title.clone(),
            status: Some(HandoffStatus::Active),
            created: Some(document.created.clone()),
            completed: None,
            pending_work_identifier_raw: document.pending_work_identifier.clone(),
            goals_completed: 0,
            goals_total: document.body.matches("- [ ]").count() as u64,
            body: document.body.clone(),
            source: document.body.clone(),
            locator: format!(
                "{}/{}",
                handoff_directory(root, HandoffLocation::Active),
                document.file_name
            ),
            modified_nanos: 0,
        };
        self.documents.borrow_mut().entry(root.clone()).or_default().push(stored.clone());
        Ok(stored)
    }

    fn update_document(
        &self,
        scope: &HandoffScope,
        identifier: &HandoffDocumentIdentifier,
        patch: HandoffPatch,
    ) -> Result<HandoffDocument, Self::Error> {
        self.fail(FailurePoint::DocumentUpdate)?;
        let root = &scope.repository_root;
        let mut documents = self.documents.borrow_mut();
        let documents = documents.entry(root.clone()).or_default();
        let document = documents
            .iter_mut()
            .find(|document| {
                document.identifier.file_name == identifier.file_name
                    && document.location == identifier.location
            })
            .ok_or_else(|| StoreError("no such handoff".to_string()))?;
        if let Some(location) = patch.location {
            document.location = location;
            document.identifier.location = location;
            document.locator = format!(
                "{}/{}",
                handoff_directory(root, location),
                document.identifier.file_name
            );
        }
        if let Some(status) = patch.status {
            document.status = Some(status);
        }
        if let Some(completed) = patch.completed {
            document.completed = completed;
        }
        if let Some(body) = patch.body {
            document.body = body.clone();
            document.source = body;
        }
        if let Some(link) = patch.pending_work_identifier {
            document.pending_work_identifier_raw = Some(link);
        }
        Ok(document.clone())
    }

    fn delete_document(
        &self,
        scope: &HandoffScope,
        identifier: &HandoffDocumentIdentifier,
    ) -> Result<(), Self::Error> {
        self.fail(FailurePoint::DocumentDelete)?;
        if let Some(documents) = self.documents.borrow_mut().get_mut(&scope.repository_root) {
            documents.retain(|document| {
                !(document.identifier.file_name == identifier.file_name
                    && document.location == identifier.location)
            });
        }
        Ok(())
    }

    fn restore_document_after_move(
        &self,
        scope: &HandoffScope,
        snapshot: &HandoffDocument,
    ) -> Result<(), Self::Error> {
        self.fail(FailurePoint::DocumentRestoreMove)?;
        let mut documents = self.documents.borrow_mut();
        let documents = documents.entry(scope.repository_root.clone()).or_default();
        documents.retain(|document| {
            !(document.identifier.file_name == snapshot.identifier.file_name
                && document.location != snapshot.location)
        });
        documents.push(snapshot.clone());
        Ok(())
    }

    fn restore_document_after_delete(
        &self,
        scope: &HandoffScope,
        snapshot: &HandoffDocument,
    ) -> Result<(), Self::Error> {
        self.documents
            .borrow_mut()
            .entry(scope.repository_root.clone())
            .or_default()
            .push(snapshot.clone());
        Ok(())
    }

    fn write_ledger(
        &self,
        scope: &HandoffScope,
        rows: Vec<HandoffLedgerRow>,
    ) -> Result<HandoffLedger, Self::Error> {
        self.fail(FailurePoint::LedgerInsert)?;
        let mut source = String::from("# Handoffs\n\n| PW | Handoff | Goals | Created |\n|---|---|---|---|\n");
        for row in &rows {
            source.push_str(&format!(
                "| {} | [{}]({}) | {}/{} | {} |\n",
                row.pending_work_identifier,
                row.title,
                row.file_name,
                row.goals_completed,
                row.goals_total,
                row.created
            ));
        }
        let ledger = HandoffLedger {
            locator: format!("{}/docs/handoffs/LEDGER.md", scope.repository_root),
            source,
        };
        self.ledgers.borrow_mut().insert(scope.repository_root.clone(), ledger.clone());
        Ok(ledger)
    }

    fn read_ledger(&self, scope: &HandoffScope) -> Result<Option<HandoffLedger>, Self::Error> {
        Ok(self.ledger(&scope.repository_root))
    }

    fn pending_work(
        &self,
        project: &str,
        identifier: &str,
    ) -> Result<Option<LinkedPendingWork>, Self::Error> {
        Ok(self
            .items(project)
            .iter()
            .find(|item| record_id(item) == Some(identifier))
            .map(|item| LinkedPendingWork {
                id: identifier.to_string(),
                tags: item.tags.clone(),
            }))
    }

    fn create_pending_work(
        &self,
        project: &str,
        item: NewContinuationItem,
    ) -> Result<String, Self::Error> {
        let id = self.next_id(project);
        let record = PendingWorkItem {
            tags: Some(format!("[{}]", item.tags.join(", "))),
            title: item.title,
            created: Some(item.created),
            body: item.prompt.clone(),
            source: item.prompt,
            ..record(&id, WorkItemStatus::Active)
        };
        self.items.borrow_mut().entry(project.to_string()).or_default().push(record);
        Ok(id)
    }
}

impl PendingWorkStore for MemoryStore {
    type Error = StoreError;

    fn list_items(&self, project: &str) -> Result<Vec<PendingWorkItem>, Self::Error> {
        Ok(self.items(project))
    }

    fn get_item(&self, project: &str, id: &str) -> Result<Option<PendingWorkItem>, Self::Error> {
        Ok(self.items(project).into_iter().find(|item| record_id(item) == Some(id)))
    }

    fn update_item(&self, project: &str, id: &str, patch: ItemPatch) -> Result<(), Self::Error> {
        let mut items = self.items.borrow_mut();
        let item = items
            .get_mut(project)
            .and_then(|items| items.iter_mut().find(|item| record_id(item) == Some(id)))
            .ok_or_else(|| StoreError("no such item".to_string()))?;
        if let Some(status) = patch.status {
            item.status = status;
        }
        if let Some(completed) = patch.completed {
            item.completed = completed;
        }
        if let Some(commits) = patch.commits {
            item.commits = commits;
        }
        if let Some(report) = patch.report {
            item.body = format!("{}\n\n{}\n", item.body.trim_end(), report);
        }
        Ok(())
    }

    fn delete_item(&self, project: &str, id: &str) -> Result<(), Self::Error> {
        if let Some(items) = self.items.borrow_mut().get_mut(project) {
            items.retain(|item| record_id(item) != Some(id));
        }
        Ok(())
    }

    fn create_item(
        &self,
        project: &str,
        item: NewItem,
    ) -> Result<CreatedItem, CreateItemFailure<Self::Error>> {
        let mut created_section = None;
        if let Some(section) = &item.section {
            if !self.section_labels(project).contains(section) {
                self.sections
                    .borrow_mut()
                    .entry(project.to_string())
                    .or_default()
                    .push(IndexSection { label: section.clone() });
                created_section = Some(section.clone());
            }
        }
        if let Err(source) = self.fail(FailurePoint::ItemCreate) {
            return Err(CreateItemFailure { created_section, source });
        }
        let id = self.next_id(project);
        let title = match &item.title {
            Some(title) => YamlSafeTitles.normalize(title),
            None => item.prompt.split(" / ").next().unwrap_or("").to_string(),
        };
        let locator = format!("/mem/{project}/{id}.md");
        let record = PendingWorkItem {
            title: title.clone(),
            created: Some(item.created.clone()),
            section: item.section.clone(),
            body: item.prompt.clone(),
            source: item.prompt.clone(),
            locator: locator.clone(),
            prereq: item.prereq.clone(),
            effort: item.effort.map(|tier| tier.to_string()),
            tags: item.tags.as_ref().map(|tags| format!("[{}]", tags.join(", "))),
            ..record(&id, WorkItemStatus::Active)
        };
        self.items.borrow_mut().entry(project.to_string()).or_default().push(record);
        self.entries.borrow_mut().entry(project.to_string()).or_default().push(IndexEntry {
            id: id.clone(),
            state: IndexEntryState::Open,
            section: item.section.unwrap_or_default(),
        });
        Ok(CreatedItem { id, title, locator, created_section })
    }
}

impl IndexStore for MemoryStore {
    type Error = StoreError;

    fn list_entries(&self, project: &str) -> Result<Vec<IndexEntry>, Self::Error> {
        Ok(self.entries(project))
    }

    fn list_sections(&self, project: &str) -> Result<Vec<IndexSection>, Self::Error> {
        Ok(self.sections.borrow().get(project).cloned().unwrap_or_default())
    }

    fn update_entry(&self, project: &str, id: &str, entry: IndexEntry) -> Result<(), Self::Error> {
        if let Some(entries) = self.entries.borrow_mut().get_mut(project) {
            for existing in entries.iter_mut().filter(|existing| existing.id == id) {
                let section = existing.section.clone();
                *existing = entry.clone();
                if existing.section.is_empty() {
                    existing.section = section;
                }
            }
        }
        Ok(())
    }

    fn delete_entry(&self, project: &str, id: &str) -> Result<(), Self::Error> {
        if let Some(entries) = self.entries.borrow_mut().get_mut(project) {
            entries.retain(|entry| entry.id != id);
        }
        Ok(())
    }

    fn insert_entry(&self, project: &str, entry: IndexEntry) -> Result<(), Self::Error> {
        self.entries.borrow_mut().entry(project.to_string()).or_default().push(entry);
        Ok(())
    }

    fn update_section(
        &self,
        project: &str,
        label: &str,
        section: IndexSection,
    ) -> Result<(), Self::Error> {
        if let Some(sections) = self.sections.borrow_mut().get_mut(project) {
            for existing in sections.iter_mut().filter(|existing| existing.label == label) {
                *existing = section.clone();
            }
        }
        if let Some(entries) = self.entries.borrow_mut().get_mut(project) {
            for entry in entries.iter_mut().filter(|entry| entry.section == label) {
                entry.section = section.label.clone();
            }
        }
        Ok(())
    }
}

struct FixedClock;

/// Metadata-safe titles as the adapters write them: trimmed, lowercased, `:` as `;`, no `#`.
struct YamlSafeTitles;

impl TitleRules for YamlSafeTitles {
    fn normalize(&self, title: &str) -> String {
        title.trim().to_lowercase().replace(':', ";").replace('#', "")
    }

    fn was_normalized(&self, title: &str) -> bool {
        self.normalize(title) != title
    }

    fn inferred(&self, prompt: &str) -> String {
        self.normalize(prompt.lines().next().unwrap_or(""))
    }
}

impl Clock for FixedClock {
    fn today(&self) -> String {
        "2026-07-26".to_string()
    }
}

fn record(id: &str, status: WorkItemStatus) -> PendingWorkItem {
    PendingWorkItem {
        id: RecordId::Item(id.to_string()),
        title: "tray gui".to_string(),
        status,
        created: Some("2026-01-01".to_string()),
        completed: None,
        commits: None,
        tags: None,
        effort: None,
        prereq: None,
        section: None,
        body: "\nbody\n".to_string(),
        source: "body".to_string(),
        locator: format!("/mem/glep-shimeji/{id}.md"),
        placement: None,
        materialization: Materialization::NoteFile,
    }
}

fn tagged(mut item: PendingWorkItem) -> PendingWorkItem {
    item.tags = Some("[handoff]".to_string());
    item
}

fn entry(id: &str, state: IndexEntryState, section: &str) -> IndexEntry {
    IndexEntry { id: id.to_string(), state, section: section.to_string() }
}

fn done_on(date: &str) -> IndexEntryState {
    IndexEntryState::Done(date.to_string())
}

// ---------------------------------------------------------------------------------------
// Handoff lifecycle.

const REPOSITORY_ROOT: &str = "/repo/pwf";
const FILE_NAME: &str = "2026-07-19-managed-flow.md";

fn pwf_registry(repository: Option<&str>) -> ProjectRegistry {
    ProjectRegistry::new(vec![(
        "pwf".to_string(),
        repository.map(str::to_string),
        Some("PWF".to_string()),
    )])
}

fn lifecycle_document(
    location: HandoffLocation,
    status: Option<HandoffStatus>,
    pending_work_identifier: &str,
) -> HandoffDocument {
    let status_line = match status {
        None => "legacy: true\n".to_string(),
        Some(HandoffStatus::Active) => "status: active\n".to_string(),
        Some(HandoffStatus::Done) => "status: done\n".to_string(),
        Some(HandoffStatus::Cancelled) => "status: cancelled\n".to_string(),
    };
    let body = "\n# Managed Flow\n\nlegacy spacing  \n".to_string();
    HandoffDocument {
        identifier: HandoffDocumentIdentifier { file_name: FILE_NAME.to_string(), location },
        location,
        project: Some("pwf".to_string()),
        title: "Managed Flow".to_string(),
        status,
        created: Some("2026-07-19".to_string()),
        completed: if location == HandoffLocation::Archived {
            Some("2026-07-20".to_string())
        } else {
            None
        },
        pending_work_identifier_raw: Some(pending_work_identifier.to_string()),
        goals_completed: 0,
        goals_total: 0,
        source: format!(
            "---\n{status_line}project: pwf\ncreated: 2026-07-19\npw: {pending_work_identifier}\n---\n{body}"
        ),
        body,
        locator: format!("{}/{}", handoff_directory(REPOSITORY_ROOT, location), FILE_NAME),
        modified_nanos: 0,
    }
}

fn lifecycle_item(tags: Option<&str>) -> PendingWorkItem {
    PendingWorkItem {
        id: RecordId::Item("PWF-0001".to_string()),
        title: "managed flow".to_string(),
        status: WorkItemStatus::Active,
        created: Some("2026-07-19".to_string()),
        completed: None,
        commits: None,
        tags: tags.map(str::to_string),
        effort: None,
        prereq: None,
        section: None,
        body: "body".to_string(),
        source: "body".to_string(),
        locator: "/notes/pwf/PWF-0001.md".to_string(),
        placement: None,
        materialization: Materialization::NoteFile,
    }
}

fn lifecycle_store(documents: Vec<HandoffDocument>) -> MemoryStore {
    MemoryStore::default()
        .with_project("pwf", vec![lifecycle_item(Some("[handoff]"))])
        .with_handoff_documents(REPOSITORY_ROOT, documents)
}

#[test]
fn close_selects_one_active_link_case_insensitively_and_archives_it() {
    let store = lifecycle_store(vec![lifecycle_document(
        HandoffLocation::Active,
        Some(HandoffStatus::Active),
        "pwf-0001",
    )]);
    let pending = preflight_close(
        &store,
        &pwf_registry(Some(REPOSITORY_ROOT)),
        "PWF-0001",
        CloseHandoffAction::Done,
        "2026-07-20",
        None,
    )
    .unwrap();

    let outcome = commit_after_pending_work(&store, pending).unwrap();

    assert_eq!(
        outcome,
        HandoffMutationOk::Archived {
            path: format!("{REPOSITORY_ROOT}/docs/handoffs/archived/{FILE_NAME}"),
        }
    );
    let documents = store.handoff_documents(REPOSITORY_ROOT);
    assert_eq!(documents.len(), 1);
    assert_eq!(documents[0].location, HandoffLocation::Archived);
    assert_eq!(documents[0].status, Some(HandoffStatus::Done));
    assert_eq!(documents[0].completed, Some("2026-07-20".to_string()));
}

#[test]
fn close_cancelled_appends_the_exact_reason_spacing() {
    let store = lifecycle_store(vec![lifecycle_document(
        HandoffLocation::Active,
        Some(HandoffStatus::Active),
        "PWF-0001",
    )]);
    let pending = preflight_close(
        &store,
        &pwf_registry(Some(REPOSITORY_ROOT)),
        "PWF-0001",
        CloseHandoffAction::Cancelled,
        "2026-07-20",
        Some("obsolete"),
    )
    .unwrap();

    commit_after_pending_work(&store, pending).unwrap();

    let archived = &store.handoff_documents(REPOSITORY_ROOT)[0];
    assert_eq!(archived.body, "\n# Managed Flow\n\nlegacy spacing\n\n> Cancelled: obsolete\n");
}

#[test]
fn close_already_archived_returns_a_typed_idempotent_mutation() {
    let store = lifecycle_store(vec![lifecycle_document(
        HandoffLocation::Archived,
        Some(HandoffStatus::Done),
        "PWF-0001",
    )]);

    let pending = preflight_close(
        &store,
        &pwf_registry(Some(REPOSITORY_ROOT)),
        "PWF-0001",
        CloseHandoffAction::Done,
        "2026-07-20",
        None,
    )
    .unwrap();

    assert!(matches!(pending, PendingHandoffMutation::AlreadyInTargetState));
    assert_eq!(
        commit_after_pending_work(&store, pending).unwrap(),
        HandoffMutationOk::AlreadyInTargetState
    );
}

#[test]
fn close_duplicate_active_links_are_rejected_before_mutation() {
    let mut second =
        lifecycle_document(HandoffLocation::Active, Some(HandoffStatus::Active), "PWF-0001");
    second.identifier.file_name = "2026-07-18-other.md".to_string();
    second.locator = format!("{REPOSITORY_ROOT}/docs/handoffs/2026-07-18-other.md");
    let store = lifecycle_store(vec![
        lifecycle_document(HandoffLocation::Active, Some(HandoffStatus::Active), "PWF-0001"),
        second,
    ]);

    let error = preflight_close(
        &store,
        &pwf_registry(Some(REPOSITORY_ROOT)),
        "PWF-0001",
        CloseHandoffAction::Done,
        "2026-07-20",
        None,
    )
    .unwrap_err();

    assert!(matches!(error, HandoffError::AmbiguousHandoff { .. }));
    assert_eq!(
        error.message(),
        "more than one handoff in /repo/pwf/docs/handoffs claims `pw: PWF-0001` \u{2014} fix the duplicate frontmatter"
    );
    assert_eq!(store.handoff_documents(REPOSITORY_ROOT).len(), 2);
}

#[test]
fn reopen_accepts_a_legacy_archived_document_without_a_valid_status() {
    let store = lifecycle_store(vec![lifecycle_document(HandoffLocation::Archived, None, "PWF-0001")]);
    let pending =
        preflight_reopen(&store, &pwf_registry(Some(REPOSITORY_ROOT)), "PWF-0001").unwrap();

    let outcome = commit_after_pending_work(&store, pending).unwrap();

    assert!(matches!(outcome, HandoffMutationOk::Reopened { .. }));
    let active = &store.handoff_documents(REPOSITORY_ROOT)[0];
    assert_eq!(active.location, HandoffLocation::Active);
    assert_eq!(active.status, Some(HandoffStatus::Active));
    assert_eq!(active.completed, None);
}

#[test]
fn ledger_failure_after_close_restores_the_exact_original_document() {
    let original =
        lifecycle_document(HandoffLocation::Active, Some(HandoffStatus::Active), "PWF-0001");
    let source = original.source.clone();
    let store = lifecycle_store(vec![original]).with_failure(FailurePoint::LedgerInsert);
    let pending = preflight_close(
        &store,
        &pwf_registry(Some(REPOSITORY_ROOT)),
        "PWF-0001",
        CloseHandoffAction::Done,
        "2026-07-20",
        None,
    )
    .unwrap();

    let error = commit_after_pending_work(&store, pending).unwrap_err();

    assert!(matches!(error, HandoffError::RebuildLedger { .. }));
    let documents = store.handoff_documents(REPOSITORY_ROOT);
    assert_eq!(documents.len(), 1);
    assert_eq!(documents[0].location, HandoffLocation::Active);
    assert_eq!(documents[0].source, source);
}

#[test]
fn ledger_and_restoration_failure_returns_the_primary_ledger_error() {
    let original =
        lifecycle_document(HandoffLocation::Active, Some(HandoffStatus::Active), "PWF-0001");
    let store = lifecycle_store(vec![original])
        .with_failure(FailurePoint::LedgerInsert)
        .with_failure(FailurePoint::DocumentRestoreMove);
    let pending = preflight_close(
        &store,
        &pwf_registry(Some("/repo/pwf")),
        "PWF-0001",
        CloseHandoffAction::Done,
        "2026-07-20",
        None,
    )
    .unwrap();

    let error = commit_after_pending_work(&store, pending).unwrap_err();

    assert!(matches!(error, HandoffError::RebuildLedger { .. }));
    assert!(error.commit_message().contains("handoff-ledger-insert"));
    assert_eq!(
        store.handoff_documents(REPOSITORY_ROOT)[0].location,
        HandoffLocation::Archived,
        "failed best-effort restoration must not replace the primary ledger error"
    );
}

#[test]
fn delete_ledger_failure_restores_active_without_touching_same_name_archive() {
    let active =
        lifecycle_document(HandoffLocation::Active, Some(HandoffStatus::Active), "PWF-0001");
    let archived =
        lifecycle_document(HandoffLocation::Archived, Some(HandoffStatus::Done), "PWF-9999");
    let archived_source = archived.source.clone();
    let store = lifecycle_store(vec![active, archived]).with_failure(FailurePoint::LedgerInsert);
    let pending =
        preflight_delete(&store, &pwf_registry(Some(REPOSITORY_ROOT)), "PWF-0001").unwrap();

    let error = commit_after_pending_work(&store, pending).unwrap_err();

    assert!(matches!(error, HandoffError::RebuildLedger { .. }));
    let documents = store.handoff_documents(REPOSITORY_ROOT);
    assert_eq!(documents.len(), 2);
    assert!(documents.iter().any(|document| {
        document.location == HandoffLocation::Archived && document.source == archived_source
    }));
}

#[test]
fn malformed_tags_fail_before_handoff_document_mutation() {
    let store = MemoryStore::default().with_project("pwf", vec![lifecycle_item(Some("handoff"))]);

    let error =
        preflight_delete(&store, &pwf_registry(Some(REPOSITORY_ROOT)), "PWF-0001").unwrap_err();

    assert!(matches!(error, HandoffError::InvalidTags { .. }));
    assert_eq!(error.message(), "item PWF-0001 has invalid tags frontmatter: handoff");
}

#[test]
fn untagged_item_has_no_handoff_side_effect() {
    let store = MemoryStore::default().with_project("pwf", vec![lifecycle_item(None)]);

    let pending = preflight_close(
        &store,
        &pwf_registry(Some(REPOSITORY_ROOT)),
        "PWF-0001",
        CloseHandoffAction::Done,
        "2026-07-20",
        None,
    )
    .unwrap();

    assert!(matches!(pending, PendingHandoffMutation::NotLinked));
    assert_eq!(commit_after_pending_work(&store, pending).unwrap(), HandoffMutationOk::NotLinked);
}

#[test]
fn tagged_item_of_a_project_without_repository_is_unmanaged() {
    let store = lifecycle_store(Vec::new());

    let error = preflight_close(
        &store,
        &pwf_registry(None),
        "PWF-0001",
        CloseHandoffAction::Done,
        "2026-07-20",
        None,
    )
    .unwrap_err();

    assert!(matches!(
        error,
        HandoffError::UnmanagedProject { ref id, ref project } if id == "PWF-0001" && project == "pwf"
    ));
}

// ---------------------------------------------------------------------------------------
// Closing, cancelling, reopening and removing items.

fn glp_registry() -> ProjectRegistry {
    ProjectRegistry::new(vec![(
        "glep-shimeji".to_string(),
        Some("/repo".to_string()),
        Some("GLP".to_string()),
    )])
}

fn staged(items: Vec<PendingWorkItem>, entries: Vec<IndexEntry>) -> MemoryStore {
    MemoryStore::default()
        .with_prefix("glep-shimeji", "GLP")
        .with_project("glep-shimeji", items)
        .with_entries("glep-shimeji", entries)
}

fn done_command(id: &str) -> CompletePendingWork {
    CompletePendingWork {
        id: id.to_string(),
        completed: "2026-07-07".to_string(),
        report: None,
        commits: Vec::new(),
        review: false,
    }
}

fn tray_handoff() -> HandoffDocument {
    HandoffDocument {
        identifier: HandoffDocumentIdentifier {
            file_name: "2026-01-01-tray-gui.md".to_string(),
            location: HandoffLocation::Active,
        },
        location: HandoffLocation::Active,
        project: Some("glep-shimeji".to_string()),
        title: "Tray GUI".to_string(),
        status: Some(HandoffStatus::Active),
        created: Some("2026-01-01".to_string()),
        completed: None,
        pending_work_identifier_raw: Some("glp-0001".to_string()),
        goals_completed: 0,
        goals_total: 1,
        body: "\n# Tray GUI\n".to_string(),
        source: "---\nstatus: active\nproject: glep-shimeji\ncreated: 2026-01-01\npw: glp-0001\n---\n\n# Tray GUI\n".to_string(),
        locator: "/repo/docs/handoffs/2026-01-01-tray-gui.md".to_string(),
        modified_nanos: 0,
    }
}

fn archived_tray_handoff() -> HandoffDocument {
    HandoffDocument {
        identifier: HandoffDocumentIdentifier {
            file_name: "2026-01-01-tray-gui.md".to_string(),
            location: HandoffLocation::Archived,
        },
        location: HandoffLocation::Archived,
        status: Some(HandoffStatus::Done),
        completed: Some("2026-01-02".to_string()),
        pending_work_identifier_raw: Some("GLP-0001".to_string()),
        goals_completed: 1,
        source: "---\nstatus: done\ncompleted: 2026-01-02\nproject: glep-shimeji\ncreated: 2026-01-01\npw: GLP-0001\n---\n\n# Tray GUI\n".to_string(),
        locator: "/repo/docs/handoffs/archived/2026-01-01-tray-gui.md".to_string(),
        ..tray_handoff()
    }
}

#[test]
fn done_done_marks_entry_and_evicts_past_cap() {
    let mut items = vec![record("GLP-0007", WorkItemStatus::Active)];
    let mut entries = Vec::new();
    for n in 1..=6 {
        let id = format!("GLP-{n:04}");
        items.push(record(&id, WorkItemStatus::Done));
        entries.push(entry(&id, done_on(&format!("2026-01-{n:02}")), "General"));
    }
    entries.push(entry("GLP-0007", IndexEntryState::Open, "General"));
    let store = staged(items, entries);

    let out = done::execute(&done_command("GLP-0007"), &store, &glp_registry()).unwrap();

    assert_eq!(out.action, ClosedItemAction::Done);
    assert_eq!(out.evicted_ids, vec!["GLP-0001".to_string()]);
    assert_eq!(out.futuro_renamed_project, None);
    assert_eq!(store.items("glep-shimeji")[0].status, WorkItemStatus::Done);
    let marked = store
        .entries("glep-shimeji")
        .into_iter()
        .find(|e| e.id == "GLP-0007")
        .unwrap();
    assert_eq!(marked.state, done_on("2026-07-07"));
    assert!(
        !store.entries("glep-shimeji").iter().any(|e| e.id == "GLP-0001"),
        "evicted entry must be unlinked"
    );
}

#[test]
fn done_done_normalizes_futuro_header_entries() {
    let store = staged(
        vec![record("GLP-0001", WorkItemStatus::Active)],
        vec![entry("GLP-0001", IndexEntryState::Open, "Futuro")],
    )
    .with_sections("glep-shimeji", &["Futuro"]);

    let out = done::execute(&done_command("GLP-0001"), &store, &glp_registry()).unwrap();

    assert_eq!(out.futuro_renamed_project, Some("glep-shimeji".to_string()));
    assert_eq!(store.section_labels("glep-shimeji"), vec!["Future".to_string()]);
}

#[test]
fn done_done_review_inserts_review_item_and_open_entry() {
    let store = staged(
        vec![record("GLP-0001", WorkItemStatus::Active)],
        vec![entry("GLP-0001", IndexEntryState::Open, "General")],
    );
    let cmd = CompletePendingWork {
        review: true,
        commits: vec!["a..b".to_string()],
        ..done_command("GLP-0001")
    };

    let out = done::execute(&cmd, &store, &glp_registry()).unwrap();

    let review = out.review_item.expect("review item present");
    assert_eq!(review.id, "GLP-0002");
    assert_eq!(review.project, "glep-shimeji");
    assert!(
        store
            .entries("glep-shimeji")
            .iter()
            .any(|e| e.id == "GLP-0002" && e.state == IndexEntryState::Open),
        "review task must get an open index entry"
    );
    let reviewed = store.items("glep-shimeji");
    assert_eq!(
        reviewed[1].body,
        "review GLP-0001, commits: a..b / git-tools diff a..b / git-tools diff-subrepos"
    );
    assert_eq!(reviewed[1].section.as_deref(), Some("Human"));
    assert_eq!(reviewed[0].commits.as_deref(), Some("a..b"));
}

#[test]
fn done_done_review_preserves_add_project_mapping_policy() {
    let store = staged(
        vec![record("GLP-0001", WorkItemStatus::Active)],
        vec![entry("GLP-0001", IndexEntryState::Open, "General")],
    );
    let projects = ProjectRegistry::new(vec![(
        "glep-shimeji".to_string(),
        None,
        Some("GLP".to_string()),
    )]);
    let command = CompletePendingWork { review: true, ..done_command("GLP-0001") };

    let error = done::execute(&command, &store, &projects).unwrap_err();

    assert!(matches!(
        error,
        CompletePendingWorkError::ReviewTask(
            AddPendingWorkError::ProjectHasNoDirectorySource { ref project }
        ) if project == "glep-shimeji"
    ));
    assert_eq!(
        error.message(),
        "Project 'glep-shimeji' has no directory source; update the managed project record."
    );
}

#[test]
fn done_done_on_missing_item_reports_item_not_found() {
    let store = staged(Vec::new(), Vec::new());

    let error = done::execute(&done_command("GLP-9999"), &store, &glp_registry()).unwrap_err();

    assert!(matches!(
        error,
        CompletePendingWorkError::ItemNotFound { ref id } if id == "GLP-9999"
    ));
    assert_eq!(error.message(), "Open pending-work item not found: GLP-9999");
}

#[test]
fn done_done_reports_an_unknown_configured_prefix() {
    let store = staged(Vec::new(), Vec::new());

    let error = done::execute(&done_command("XYZ-0001"), &store, &glp_registry()).unwrap_err();

    assert_eq!(error.message(), "Unknown task id prefix `XYZ` for XYZ-0001");
}

#[test]
fn done_archives_the_linked_handoff_after_closing_pending_work() {
    let store = staged(
        vec![tagged(record("GLP-0001", WorkItemStatus::Active))],
        vec![entry("GLP-0001", IndexEntryState::Open, "General")],
    )
    .with_handoff_documents("/repo", vec![tray_handoff()]);

    let outcome = done::execute(&done_command("GLP-0001"), &store, &glp_registry()).unwrap();

    assert!(matches!(outcome.handoff, HandoffMutationOk::Archived { .. }));
    assert_eq!(store.items("glep-shimeji")[0].status, WorkItemStatus::Done);
    assert_eq!(store.handoff_documents("/repo")[0].location, HandoffLocation::Archived);
}

#[test]
fn done_reports_handoff_failure_after_pending_work_is_closed() {
    let store = staged(
        vec![tagged(record("GLP-0001", WorkItemStatus::Active))],
        vec![entry("GLP-0001", IndexEntryState::Open, "General")],
    )
    .with_handoff_documents("/repo", vec![tray_handoff()])
    .with_failure(FailurePoint::DocumentUpdate);

    let error = done::execute(&done_command("GLP-0001"), &store, &glp_registry()).unwrap_err();

    assert!(matches!(
        error,
        CompletePendingWorkError::HandoffAfterPendingWork { ref pending_work_identifier, .. }
            if pending_work_identifier == "GLP-0001"
    ));
    assert_eq!(error.message(), "handoff-document-update");
    assert_eq!(store.items("glep-shimeji")[0].status, WorkItemStatus::Done);
}

#[test]
fn done_handoff_preflight_precedes_blank_report_validation() {
    let store = staged(
        vec![tagged(record("GLP-0001", WorkItemStatus::Active))],
        vec![entry("GLP-0001", IndexEntryState::Open, "General")],
    );
    let command = CompletePendingWork {
        report: Some(" \t\n".to_string()),
        ..done_command("GLP-0001")
    };

    let error = done::execute(&command, &store, &glp_registry()).unwrap_err();

    assert!(matches!(error, CompletePendingWorkError::HandoffPreflight(_)));
    assert_eq!(store.items("glep-shimeji")[0].status, WorkItemStatus::Active);
}

#[test]
fn done_rejects_a_blank_report_and_appends_a_real_one() {
    let store = staged(
        vec![record("GLP-0001", WorkItemStatus::Active)],
        vec![entry("GLP-0001", IndexEntryState::Open, "General")],
    );
    let blank = CompletePendingWork { report: Some("  ".to_string()), ..done_command("GLP-0001") };
    let error = done::execute(&blank, &store, &glp_registry()).unwrap_err();
    assert!(matches!(error, CompletePendingWorkError::EmptyReport));
    assert_eq!(error.message(), "--report cannot be empty.");
    assert_eq!(store.items("glep-shimeji")[0].status, WorkItemStatus::Active);

    let reported =
        CompletePendingWork { report: Some("  shipped \n".to_string()), ..done_command("GLP-0001") };
    done::execute(&reported, &store, &glp_registry()).unwrap();
    assert_eq!(store.items("glep-shimeji")[0].body, "\nbody\n\nshipped\n");
}

#[test]
fn done_rejects_an_item_that_is_not_open() {
    let store = staged(vec![record("GLP-0001", WorkItemStatus::Done)], Vec::new());

    let error = done::execute(&done_command("glp-0001"), &store, &glp_registry()).unwrap_err();

    assert!(matches!(error, CompletePendingWorkError::ItemNotFound { ref id } if id == "GLP-0001"));
}

fn cancel_command(date: Option<&str>, report: &str, commits: Vec<String>) -> CancelPendingWork {
    CancelPendingWork::new(
        "GLP-0001".to_string(),
        date.map(str::to_string),
        report.to_string(),
        commits,
        false,
    )
}

fn cancel_staged() -> MemoryStore {
    staged(vec![record("GLP-0001", WorkItemStatus::Active)], Vec::new())
}

#[test]
fn cancel_rejects_blank_report_during_execution() {
    let command = cancel_command(Some("2026-07-14"), " \t\n", Vec::new());

    let error =
        cancel::execute(&command, &cancel_staged(), &glp_registry(), &FixedClock).unwrap_err();

    assert!(matches!(error, CancelPendingWorkError::EmptyReport));
    assert_eq!(error.message(), "--report cannot be empty.");
}

#[test]
fn cancel_handoff_preflight_precedes_blank_report_validation() {
    let store = staged(vec![tagged(record("GLP-0001", WorkItemStatus::Active))], Vec::new());
    let command = cancel_command(Some("2026-07-14"), " \t\n", Vec::new());

    let error = cancel::execute(&command, &store, &glp_registry(), &FixedClock).unwrap_err();

    assert!(matches!(error, CancelPendingWorkError::HandoffPreflight(_)));
    assert_eq!(store.items("glep-shimeji")[0].status, WorkItemStatus::Active);
}

#[test]
fn cancel_marks_item_cancelled() {
    let store = cancel_staged();
    let command = cancel_command(
        Some("2026-07-14"),
        "obsoleted",
        vec![" a..b, c..d ".to_string(), "a..b".to_string()],
    );

    let out = cancel::execute(&command, &store, &glp_registry(), &FixedClock).unwrap();

    assert_eq!(out.action, ClosedItemAction::Cancelled);
    assert_eq!(store.items("glep-shimeji")[0].status, WorkItemStatus::Cancelled);
    assert_eq!(store.items("glep-shimeji")[0].completed, Some("2026-07-14".to_string()));
    assert_eq!(store.items("glep-shimeji")[0].commits.as_deref(), Some("a..b, c..d"));
}

#[test]
fn cancel_uses_clock_date_when_no_date_is_explicit() {
    let store = cancel_staged();
    let command = cancel_command(None, "obsoleted", Vec::new());

    cancel::execute(&command, &store, &glp_registry(), &FixedClock).unwrap();

    assert_eq!(store.items("glep-shimeji")[0].completed, Some("2026-07-26".to_string()));
}

#[test]
fn cancel_reports_an_unknown_configured_prefix() {
    let command = CancelPendingWork::new(
        "XYZ-0001".to_string(),
        Some("2026-07-14".to_string()),
        "obsolete".to_string(),
        Vec::new(),
        false,
    );

    let error =
        cancel::execute(&command, &cancel_staged(), &glp_registry(), &FixedClock).unwrap_err();

    assert_eq!(error.message(), "Unknown task id prefix `XYZ` for XYZ-0001");
}

#[test]
fn cancel_reports_handoff_failure_after_pending_work_is_cancelled() {
    let mut handoff = tray_handoff();
    handoff.pending_work_identifier_raw = Some("GLP-0001".to_string());
    let store = staged(vec![tagged(record("GLP-0001", WorkItemStatus::Active))], Vec::new())
        .with_handoff_documents("/repo", vec![handoff])
        .with_failure(FailurePoint::DocumentUpdate);
    let command = cancel_command(Some("2026-07-14"), "obsoleted", Vec::new());

    let error = cancel::execute(&command, &store, &glp_registry(), &FixedClock).unwrap_err();

    assert!(matches!(
        error,
        CancelPendingWorkError::HandoffAfterPendingWork { ref pending_work_identifier, .. }
            if pending_work_identifier == "GLP-0001"
    ));
    assert_eq!(store.items("glep-shimeji")[0].status, WorkItemStatus::Cancelled);
}

fn reopen_record(status: WorkItemStatus) -> PendingWorkItem {
    let mut item = record("GLP-0001", status);
    if status != WorkItemStatus::Active {
        item.completed = Some("2026-01-02".to_string());
    }
    item.commits = Some("a..b".to_string());
    item
}

fn reopen_command() -> ReopenPendingWork {
    ReopenPendingWork { id: "GLP-0001".to_string() }
}

#[test]
fn reopen_restores_done_entry() {
    let store = staged(
        vec![reopen_record(WorkItemStatus::Done)],
        vec![entry("GLP-0001", done_on("2026-01-02"), "")],
    );

    let out = reopen::execute(&reopen_command(), &store, &glp_registry()).unwrap();

    assert!(!out.already_active);
    assert_eq!(store.items("glep-shimeji")[0].status, WorkItemStatus::Active);
    assert_eq!(store.items("glep-shimeji")[0].completed, None);
    assert_eq!(store.items("glep-shimeji")[0].commits, None);
    assert_eq!(store.entries("glep-shimeji")[0].state, IndexEntryState::Open);
}

#[test]
fn reopen_re_adds_evicted_entry() {
    let store = staged(vec![reopen_record(WorkItemStatus::Done)], Vec::new());

    let out = reopen::execute(&reopen_command(), &store, &glp_registry()).unwrap();

    assert!(!out.already_active);
    let entries = store.entries("glep-shimeji");
    assert_eq!(entries.len(), 1, "evicted link must be re-added");
    assert_eq!(entries[0].id, "GLP-0001");
    assert_eq!(entries[0].state, IndexEntryState::Open);
}

#[test]
fn reopen_already_active_is_idempotent_skip() {
    let store = staged(
        vec![reopen_record(WorkItemStatus::Active)],
        vec![entry("GLP-0001", IndexEntryState::Open, "")],
    );

    let out = reopen::execute(&reopen_command(), &store, &glp_registry()).unwrap();

    assert!(out.already_active);
    assert_eq!(store.items("glep-shimeji")[0].commits.as_deref(), Some("a..b"));
}

#[test]
fn reopen_reports_an_unknown_configured_prefix() {
    let store = staged(vec![reopen_record(WorkItemStatus::Done)], Vec::new());
    let command = ReopenPendingWork { id: "XYZ-0001".to_string() };

    let error = reopen::execute(&command, &store, &glp_registry()).unwrap_err();

    assert_eq!(error.message(), "Unknown task id prefix `XYZ` for XYZ-0001");
}

#[test]
fn reopen_restores_the_linked_archived_handoff() {
    let store = staged(vec![tagged(reopen_record(WorkItemStatus::Done))], Vec::new())
        .with_handoff_documents("/repo", vec![archived_tray_handoff()]);

    let outcome = reopen::execute(&reopen_command(), &store, &glp_registry()).unwrap();

    assert!(matches!(outcome.handoff, HandoffMutationOk::Reopened { .. }));
    assert_eq!(store.handoff_documents("/repo")[0].location, HandoffLocation::Active);
}

#[test]
fn reopen_reports_handoff_failure_after_pending_work_is_reopened() {
    let store = staged(vec![tagged(reopen_record(WorkItemStatus::Done))], Vec::new())
        .with_handoff_documents("/repo", vec![archived_tray_handoff()])
        .with_failure(FailurePoint::DocumentUpdate);

    let error = reopen::execute(&reopen_command(), &store, &glp_registry()).unwrap_err();

    assert!(matches!(
        error,
        ReopenPendingWorkError::HandoffAfterPendingWork { ref pending_work_identifier, .. }
            if pending_work_identifier == "GLP-0001"
    ));
    assert_eq!(store.items("glep-shimeji")[0].status, WorkItemStatus::Active);
}

#[test]
fn close_then_reopen_gives_back_an_open_link() {
    let store = staged(
        vec![record("GLP-0001", WorkItemStatus::Active)],
        vec![entry("GLP-0001", IndexEntryState::Open, "")],
    );

    done::execute(&done_command("GLP-0001"), &store, &glp_registry()).unwrap();
    assert_eq!(store.entries("glep-shimeji")[0].state, done_on("2026-07-07"));

    let reopened = reopen::execute(&reopen_command(), &store, &glp_registry()).unwrap();
    assert!(!reopened.already_active);
    assert_eq!(store.items("glep-shimeji")[0].status, WorkItemStatus::Active);
    assert_eq!(store.items("glep-shimeji")[0].completed, None);
    assert_eq!(store.entries("glep-shimeji")[0].state, IndexEntryState::Open);
}

fn pwf_record(id: &str, status: WorkItemStatus) -> PendingWorkItem {
    PendingWorkItem {
        title: "stale task".to_string(),
        created: Some("2026-07-01".to_string()),
        body: "body".to_string(),
        locator: format!("/notes/pwf/{id}.md"),
        ..record(id, status)
    }
}

fn remove_staged(status: WorkItemStatus) -> MemoryStore {
    MemoryStore::default()
        .with_prefix("pwf", "PWF")
        .with_project("pwf", vec![pwf_record("PWF-0001", status)])
        .with_entries("pwf", vec![entry("PWF-0001", IndexEntryState::Open, "")])
}

fn remove_command(id: &str) -> RemovePendingWorkItem {
    RemovePendingWorkItem { id: id.to_string() }
}

fn stale_handoff() -> HandoffDocument {
    HandoffDocument {
        identifier: HandoffDocumentIdentifier {
            file_name: "2026-07-01-stale-task.md".to_string(),
            location: HandoffLocation::Active,
        },
        location: HandoffLocation::Active,
        project: Some("pwf".to_string()),
        title: "Stale task".to_string(),
        status: Some(HandoffStatus::Active),
        created: Some("2026-07-01".to_string()),
        completed: None,
        pending_work_identifier_raw: Some("PWF-0001".to_string()),
        goals_completed: 0,
        goals_total: 1,
        body: "\n# Stale task\n".to_string(),
        source: "---\nstatus: active\nproject: pwf\ncreated: 2026-07-01\npw: PWF-0001\n---\n\n# Stale task\n".to_string(),
        locator: "/repo/pwf/docs/handoffs/2026-07-01-stale-task.md".to_string(),
        modified_nanos: 0,
    }
}

struct StaticInteraction {
    accepted: bool,
    seen: RefCell<Vec<RemovalConfirmation>>,
}

impl StaticInteraction {
    fn accepting() -> Self {
        StaticInteraction { accepted: true, seen: RefCell::new(Vec::new()) }
    }

    fn declining() -> Self {
        StaticInteraction { accepted: false, seen: RefCell::new(Vec::new()) }
    }
}

impl RemovalInteraction for StaticInteraction {
    fn confirm(&self, confirmation: &RemovalConfirmation) -> bool {
        self.seen.borrow_mut().push(confirmation.clone());
        self.accepted
    }
}

#[test]
fn remove_pending_work_item_remove_deletes_record_and_index_entry() {
    let store = remove_staged(WorkItemStatus::Active);

    let outcome = remove_pending_work_item::execute(
        &remove_command("PWF-0001"),
        &store,
        &pwf_registry(Some("/repo/pwf")),
        &StaticInteraction::accepting(),
    )
    .unwrap();
    let RemovePendingWorkOutcome::Removed(removed) = outcome else {
        panic!("accepted removal must remove the item");
    };

    assert_eq!(removed.id, "PWF-0001");
    assert_eq!(removed.project, "pwf");
    assert_eq!(removed.title, "stale task");
    assert!(store.items("pwf").is_empty(), "record must be deleted");
    assert!(store.entries("pwf").is_empty(), "index entry must be unlinked");
}

#[test]
fn remove_pending_work_item_remove_rejects_closed_item_with_open_not_found_display() {
    let store = remove_staged(WorkItemStatus::Done);

    let error = remove_pending_work_item::execute(
        &remove_command("PWF-0001"),
        &store,
        &pwf_registry(Some("/repo/pwf")),
        &StaticInteraction::accepting(),
    )
    .unwrap_err();

    assert!(matches!(error, RemovePendingWorkError::ItemNotFound { ref id } if id == "PWF-0001"));
    assert_eq!(error.message(), "Open pending-work item not found: PWF-0001");
    assert_eq!(store.items("pwf").len(), 1, "nothing may be deleted");
}

#[test]
fn remove_pending_work_item_remove_missing_item_preserves_requested_id() {
    let store = remove_staged(WorkItemStatus::Active);

    let error = remove_pending_work_item::execute(
        &remove_command("PWF-9999"),
        &store,
        &pwf_registry(Some("/repo/pwf")),
        &StaticInteraction::accepting(),
    )
    .unwrap_err();

    assert!(matches!(error, RemovePendingWorkError::ItemNotFound { ref id } if id == "PWF-9999"));
}

#[test]
fn remove_reports_an_unknown_configured_prefix() {
    let store = remove_staged(WorkItemStatus::Active);

    let error = remove_pending_work_item::execute(
        &remove_command("XYZ-0001"),
        &store,
        &pwf_registry(Some("/repo/pwf")),
        &StaticInteraction::accepting(),
    )
    .unwrap_err();

    assert_eq!(error.message(), "Unknown task id prefix `XYZ` for XYZ-0001");
}

#[test]
fn remove_reports_handoff_failure_after_pending_work_is_deleted() {
    let store = remove_staged(WorkItemStatus::Active)
        .with_project("pwf", vec![tagged(pwf_record("PWF-0001", WorkItemStatus::Active))])
        .with_handoff_documents("/repo/pwf", vec![stale_handoff()])
        .with_failure(FailurePoint::DocumentDelete);

    let error = remove_pending_work_item::execute(
        &remove_command("PWF-0001"),
        &store,
        &pwf_registry(Some("/repo/pwf")),
        &StaticInteraction::accepting(),
    )
    .unwrap_err();

    assert!(matches!(
        error,
        RemovePendingWorkError::HandoffAfterPendingWork { ref pending_work_identifier, .. }
            if pending_work_identifier == "PWF-0001"
    ));
    assert!(store.items("pwf").is_empty());
}

#[test]
fn remove_pending_work_item_remove_rejects_missing_note_wikilink_with_legacy_display() {
    let mut ghost = pwf_record("PWF-0001", WorkItemStatus::Active);
    ghost.materialization =
        Materialization::MissingNote { expected: "/notes/pwf/PWF-0001.md".to_string() };
    let store = MemoryStore::default().with_prefix("pwf", "PWF").with_project("pwf", vec![ghost]);

    let error = remove_pending_work_item::execute(
        &remove_command("PWF-0001"),
        &store,
        &pwf_registry(Some("/repo/pwf")),
        &StaticInteraction::accepting(),
    )
    .unwrap_err();

    assert!(matches!(
        error,
        RemovePendingWorkError::NoteMissing { ref path } if path == "/notes/pwf/PWF-0001.md"
    ));
    assert_eq!(error.message(), "Work-item note missing: /notes/pwf/PWF-0001.md");
}

#[test]
fn remove_deletes_record_and_index_entry_after_confirmation() {
    let store = remove_staged(WorkItemStatus::Active);
    let interaction = StaticInteraction::accepting();

    let outcome = remove_pending_work_item::execute(
        &remove_command("PWF-0001"),
        &store,
        &pwf_registry(Some("/repo/pwf")),
        &interaction,
    )
    .unwrap();
    let RemovePendingWorkOutcome::Removed(removed) = outcome else {
        panic!("accepted removal must remove the item");
    };

    assert_eq!(removed.id, "PWF-0001");
    assert!(store.items("pwf").is_empty());
    assert!(store.entries("pwf").is_empty());
    let seen = interaction.seen.borrow();
    assert_eq!(seen.len(), 1);
    assert_eq!(seen[0].pending_work_identifier, "PWF-0001");
    assert_eq!(seen[0].title, "stale task");
}

#[test]
fn remove_decline_returns_aborted_without_mutating_pending_work() {
    let store = remove_staged(WorkItemStatus::Active);

    let outcome = remove_pending_work_item::execute(
        &remove_command("PWF-0001"),
        &store,
        &pwf_registry(Some("/repo/pwf")),
        &StaticInteraction::declining(),
    )
    .unwrap();

    assert_eq!(
        outcome,
        RemovePendingWorkOutcome::Aborted { pending_work_identifier: "PWF-0001".to_string() }
    );
    assert_eq!(store.items("pwf").len(), 1);
    assert_eq!(store.entries("pwf").len(), 1);
}

// ---------------------------------------------------------------------------------------
// Adding handoffs, their ledger and its listing.

const TEST_ROOT: &str = "/repo/test-project";

#[derive(Debug, Clone, PartialEq)]
struct AllocatorError;

impl fmt::Display for AllocatorError {
    fn fmt(&self, formatter: &mut fmt::Formatter<'_>) -> fmt::Result {
        formatter.write_str("allocator rejected the request")
    }
}

struct RecordingAllocator {
    request: RefCell<Option<AllocatePendingWork>>,
    result: Result<String, AllocatorError>,
}

impl RecordingAllocator {
    fn returning(result: Result<String, AllocatorError>) -> Self {
        RecordingAllocator { request: RefCell::new(None), result }
    }
}

impl PendingWorkAllocatorClient for RecordingAllocator {
    type Error = AllocatorError;

    fn allocate(&self, request: &AllocatePendingWork) -> Result<String, Self::Error> {
        *self.request.borrow_mut() = Some(request.clone());
        self.result.clone()
    }
}

fn test_registry() -> ProjectRegistry {
    ProjectRegistry::new(vec![(
        "test-project".to_string(),
        Some(TEST_ROOT.to_string()),
        Some("TST".to_string()),
    )])
}

fn add_request(slug: Option<&str>, allocation: HandoffAllocation) -> AddHandoff {
    AddHandoff {
        scope: HandoffScope { repository_root: TEST_ROOT.to_string() },
        title: "Managed Flow".to_string(),
        slug: slug.map(str::to_string),
        created: "2026-01-01".to_string(),
        allocation,
    }
}

fn test_store() -> MemoryStore {
    MemoryStore::default().with_prefix("test-project", "TST")
}

#[test]
fn in_process_add_inserts_links_and_reconciles_records() {
    let store = test_store();
    let allocator = RecordingAllocator::returning(Err(AllocatorError));

    let added = add::execute(
        add_request(Some("managed-flow"), HandoffAllocation::InProcess),
        &store,
        &test_registry(),
        &allocator,
    )
    .unwrap();

    assert!(allocator.request.borrow().is_none(), "in-process allocation skips the client");
    assert_eq!(added.pending_work_identifier, "TST-0001");
    assert_eq!(added.handoff_path, format!("{TEST_ROOT}/docs/handoffs/2026-01-01-managed-flow.md"));
    assert_eq!(added.ledger_path, format!("{TEST_ROOT}/docs/handoffs/LEDGER.md"));

    let documents = store.handoff_documents(TEST_ROOT);
    assert_eq!(documents.len(), 1);
    assert_eq!(documents[0].pending_work_identifier_raw.as_deref(), Some("TST-0001"));

    let items = store.items("test-project");
    assert_eq!(items.len(), 1);
    assert_eq!(items[0].id, RecordId::Item("TST-0001".to_string()));
    assert_eq!(items[0].title, "continue managed flow");
    assert_eq!(items[0].body, "Continue the handoff at @docs/handoffs/2026-01-01-managed-flow.md.");
    assert_eq!(items[0].created, Some("2026-01-01".to_string()));
    assert_eq!(items[0].tags.as_deref(), Some("[handoff]"));

    let ledger = store.ledger(TEST_ROOT).expect("ledger was rebuilt");
    assert!(ledger
        .source
        .contains("| TST-0001 | [Managed Flow](2026-01-01-managed-flow.md) | 0/1 | 2026-01-01 |"));
}

#[test]
fn external_add_calls_the_allocator_with_typed_context_and_links_its_identifier() {
    let store = test_store();
    let allocator = RecordingAllocator::returning(Ok("TST-0042".to_string()));

    let added = add::execute(
        add_request(None, HandoffAllocation::External),
        &store,
        &test_registry(),
        &allocator,
    )
    .unwrap();

    assert_eq!(added.pending_work_identifier, "TST-0042");
    assert!(store.items("test-project").is_empty());
    let allocated = allocator.request.borrow().clone().unwrap();
    assert_eq!(allocated.created, "2026-01-01");
    assert_eq!(allocated.project, "test-project");
    assert_eq!(allocated.tag, "handoff");
    assert_eq!(
        store.handoff_documents(TEST_ROOT)[0].pending_work_identifier_raw.as_deref(),
        Some("TST-0042")
    );
}

#[test]
fn allocator_failure_removes_the_provisional_document() {
    let store = test_store();
    let allocator = RecordingAllocator::returning(Err(AllocatorError));

    let error = add::execute(
        add_request(None, HandoffAllocation::External),
        &store,
        &test_registry(),
        &allocator,
    )
    .unwrap_err();

    assert!(matches!(error, AddHandoffError::AllocationFailed { .. }));
    assert_eq!(error.message(), "allocator rejected the request");
    assert!(store.handoff_documents(TEST_ROOT).is_empty());
    assert!(store.ledger(TEST_ROOT).is_none());
}

#[test]
fn destination_collision_fails_before_allocation() {
    let store = test_store();
    store
        .insert_document(
            &HandoffScope { repository_root: TEST_ROOT.to_string() },
            NewHandoffDocument {
                file_name: "2026-01-01-managed-flow.md".to_string(),
                project: "test-project".to_string(),
                title: "Existing".to_string(),
                created: "2026-01-01".to_string(),
                body: "\n# Existing\n".to_string(),
                pending_work_identifier: None,
            },
        )
        .unwrap();
    let allocator = RecordingAllocator::returning(Ok("TST-0042".to_string()));

    let error = add::execute(
        add_request(None, HandoffAllocation::InProcess),
        &store,
        &test_registry(),
        &allocator,
    )
    .unwrap_err();

    assert!(matches!(
        error,
        AddHandoffError::DestinationExists { ref path }
            if path == "/repo/test-project/docs/handoffs/2026-01-01-managed-flow.md"
    ));
    assert_eq!(
        error.message(),
        "Handoff already exists: /repo/test-project/docs/handoffs/2026-01-01-managed-flow.md"
    );
    assert!(store.items("test-project").is_empty());
    assert!(allocator.request.borrow().is_none());
}

fn failed_add(point: FailurePoint) -> AddHandoffError<StoreError, AllocatorError> {
    add::execute(
        add_request(None, HandoffAllocation::External),
        &test_store().with_failure(point),
        &test_registry(),
        &RecordingAllocator::returning(Ok("TST-0042".to_string())),
    )
    .expect_err("injected store failure must fail handoff creation")
}

fn expected_handoff_path() -> String {
    "/repo/test-project/docs/handoffs/2026-01-01-managed-flow.md".to_string()
}

#[test]
fn store_before_allocation_retains_the_adapter_source() {
    let error = failed_add(FailurePoint::DocumentExists);

    assert!(matches!(
        error,
        AddHandoffError::StoreBeforeAllocation { ref source }
            if *source == StoreError("handoff-document-exists".to_string())
    ));
}

#[test]
fn link_after_allocation_retains_context_and_the_adapter_source() {
    let error = failed_add(FailurePoint::DocumentUpdate);

    assert!(matches!(
        &error,
        AddHandoffError::LinkAfterAllocation { pending_work_identifier, handoff_path, source }
            if pending_work_identifier == "TST-0042"
                && *handoff_path == expected_handoff_path()
                && *source == StoreError("handoff-document-update".to_string())
    ));
}

#[test]
fn ledger_after_allocation_chains_through_rebuild_to_the_adapter_source() {
    let error = failed_add(FailurePoint::LedgerInsert);

    assert!(matches!(
        &error,
        AddHandoffError::LedgerAfterAllocation { pending_work_identifier, handoff_path, .. }
            if pending_work_identifier == "TST-0042" && *handoff_path == expected_handoff_path()
    ));
    assert_eq!(error.message(), "handoff-ledger-insert");
}

#[test]
fn add_from_an_unmanaged_repository_is_a_resolution_failure() {
    let store = test_store();
    let request = AddHandoff {
        scope: HandoffScope { repository_root: "/elsewhere".to_string() },
        ..add_request(None, HandoffAllocation::InProcess)
    };

    let error = add::execute(
        request,
        &store,
        &test_registry(),
        &RecordingAllocator::returning(Ok("TST-0042".to_string())),
    )
    .unwrap_err();

    assert!(matches!(error, AddHandoffError::ProjectResolution { .. }));
    assert!(store.handoff_documents("/elsewhere").is_empty());
}

fn ledger_document(
    file_name: &str,
    created: &str,
    status: HandoffStatus,
    pending_work_identifier_raw: Option<&str>,
) -> HandoffDocument {
    HandoffDocument {
        identifier: HandoffDocumentIdentifier {
            file_name: file_name.to_string(),
            location: HandoffLocation::Active,
        },
        location: HandoffLocation::Active,
        project: Some("test-project".to_string()),
        title: file_name
            .trim_end_matches(".md")
            .trim_start_matches(created)
            .trim_start_matches('-')
            .replace('-', " "),
        status: Some(status),
        created: Some(created.to_string()),
        completed: None,
        pending_work_identifier_raw: pending_work_identifier_raw.map(str::to_string),
        goals_completed: 1,
        goals_total: 2,
        body: String::new(),
        source: String::new(),
        locator: format!("/unused/{file_name}"),
        modified_nanos: 0,
    }
}

#[test]
fn rebuild_filters_active_documents_and_sorts_newest_first() {
    let scope = HandoffScope { repository_root: TEST_ROOT.to_string() };
    let store = MemoryStore::default().with_handoff_documents(
        TEST_ROOT,
        vec![
            ledger_document("2026-01-01-alpha.md", "2026-01-01", HandoffStatus::Active, Some("TST-0001")),
            ledger_document("2026-01-02-beta.md", "2026-01-02", HandoffStatus::Done, Some("TST-0002")),
            ledger_document("2026-01-03-zeta.md", "2026-01-03", HandoffStatus::Active, None),
            ledger_document("2026-01-03-gamma.md", "2026-01-03", HandoffStatus::Active, Some("TST-0003")),
        ],
    );

    let ledger = rebuild(&scope, &store).unwrap();

    let gamma = ledger.source.find("TST-0003").unwrap();
    let zeta = ledger.source.find("2026-01-03-zeta").unwrap();
    let alpha = ledger.source.find("TST-0001").unwrap();
    assert!(zeta < gamma && gamma < alpha, "{}", ledger.source);
    assert!(!ledger.source.contains("TST-0002"));
}

#[test]
fn list_distinguishes_a_missing_ledger_from_present_markdown() {
    let scope = HandoffScope { repository_root: TEST_ROOT.to_string() };
    let store = MemoryStore::default();

    assert_eq!(
        list::execute(ListHandoffs { scope: scope.clone() }, &store).unwrap(),
        ListedHandoffs::LedgerMissing
    );

    store
        .write_ledger(
            &scope,
            vec![HandoffLedgerRow {
                pending_work_identifier: "TST-0001".to_string(),
                title: "Managed Flow".to_string(),
                file_name: "2026-01-01-managed-flow.md".to_string(),
                goals_completed: 0,
                goals_total: 1,
                created: "2026-01-01".to_string(),
            }],
        )
        .unwrap();

    let listed = list::execute(ListHandoffs { scope }, &store).unwrap();
    let ListedHandoffs::Ledger { markdown } = listed else {
        panic!("expected the persisted ledger")
    };
    assert!(markdown.contains("| TST-0001 | [Managed Flow]"));
}

#[test]
fn ledger_identifier_is_a_singleton_key() {
    let store = MemoryStore::default();
    let scope = HandoffScope { repository_root: TEST_ROOT.to_string() };

    assert!(store.read_ledger(&scope).unwrap().is_none());
    assert_eq!(
        list::execute(ListHandoffs { scope }, &store).unwrap(),
        ListedHandoffs::LedgerMissing
    );
}

#[test]
fn allocator_port_returns_a_typed_identifier() {
    let allocator = RecordingAllocator::returning(Ok("TST-0001".to_string()));

    let identifier = allocator
        .allocate(&AllocatePendingWork {
            created: "2026-01-01".to_string(),
            project: "test-project".to_string(),
            tag: "handoff".to_string(),
        })
        .unwrap();

    assert_eq!(identifier, "TST-0001");
    let request = allocator.request.borrow().clone().unwrap();
    assert_eq!(request.created, "2026-01-01");
    assert_eq!(request.project, "test-project");
    assert_eq!(request.tag, "handoff");
}

// ---------------------------------------------------------------------------------------
// Adding items.

fn add_command(section: Option<&str>) -> AddPendingWorkItem {
    AddPendingWorkItem {
        project_identifier: Some("pwf".to_string()),
        source: Some(AddPendingWorkSource::Prompt {
            prompt: "do the thing".to_string(),
            title: Some("ship it".to_string()),
        }),
        date: Some("2026-07-15".to_string()),
        section: section.and_then(PendingWorkSection::from_name),
        prerequisites: Vec::new(),
        effort: None,
        tags: Vec::new(),
    }
}

fn add(
    command: &AddPendingWorkItem,
    store: &MemoryStore,
    registry: &ProjectRegistry,
) -> Result<add_item::AddedItem, AddPendingWorkError<StoreError>> {
    add_item::execute(command, store, registry, &FixedClock, &YamlSafeTitles)
}

fn pwf_store() -> MemoryStore {
    MemoryStore::default().with_prefix("pwf", "PWF")
}

fn existing_handoff(file_name: &str, modified_nanos: i128) -> HandoffDocument {
    HandoffDocument {
        identifier: HandoffDocumentIdentifier {
            file_name: file_name.to_string(),
            location: HandoffLocation::Active,
        },
        location: HandoffLocation::Active,
        project: Some("pwf".to_string()),
        title: "existing handoff".to_string(),
        status: Some(HandoffStatus::Active),
        created: Some("2026-07-14".to_string()),
        completed: None,
        pending_work_identifier_raw: None,
        goals_completed: 0,
        goals_total: 1,
        body: "\n# Existing handoff\n".to_string(),
        source: String::new(),
        locator: format!("{REPOSITORY_ROOT}/docs/handoffs/{file_name}"),
        modified_nanos,
    }
}

#[test]
fn tests_add_inserts_record_and_open_index_entry() {
    let store = pwf_store();

    let added = add(&add_command(None), &store, &pwf_registry(Some("/repo/pwf"))).unwrap();

    assert_eq!(added.id, "PWF-0001");
    assert_eq!(added.project, "pwf");
    assert_eq!(added.title, "ship it");
    assert!(!added.title_normalized);
    assert_eq!(added.handoff, HandoffMutationOk::NotLinked);
    assert_eq!(added.created_section, None);
    let entries = store.entries("pwf");
    assert_eq!(entries.len(), 1);
    assert_eq!(entries[0].id, "PWF-0001");
    assert_eq!(entries[0].state, IndexEntryState::Open);
    assert_eq!(store.items("pwf").len(), 1);
    assert_eq!(store.items("pwf")[0].created.as_deref(), Some("2026-07-15"));
}

#[test]
fn add_explicit_prompt_title_is_normalized_once() {
    let store = pwf_store();
    let mut command = add_command(None);
    command.source = Some(AddPendingWorkSource::Prompt {
        prompt: "do the thing".to_string(),
        title: Some("fix # metadata".to_string()),
    });

    let added = add(&command, &store, &pwf_registry(Some("/repo/pwf"))).unwrap();

    assert_eq!(added.title, "fix  metadata");
    assert_eq!(store.items("pwf")[0].title, "fix  metadata");
}

#[test]
fn add_forwards_an_explicit_task_title() {
    let store = pwf_store();
    let mut command = add_command(None);
    command.source = Some(AddPendingWorkSource::Prompt {
        prompt: "do the thing".to_string(),
        title: Some("fix # metadata".to_string()),
    });

    let added = add(&command, &store, &pwf_registry(Some("/repo/pwf"))).unwrap();

    assert_eq!(added.title, "fix  metadata");
    assert!(added.title_normalized);
    assert_eq!(store.items("pwf")[0].title, "fix  metadata");
}

#[test]
fn tests_add_inferred_prompt_title_is_normalized_once() {
    let store = pwf_store();
    let mut command = add_command(None);
    command.source = Some(AddPendingWorkSource::Prompt {
        prompt: "fix # metadata".to_string(),
        title: None,
    });

    let added = add(&command, &store, &pwf_registry(Some("/repo/pwf"))).unwrap();

    assert_eq!(added.title, "fix  metadata");
    assert!(!added.title_normalized);
    assert_eq!(store.items("pwf")[0].title, "fix  metadata");
}

#[test]
fn add_blank_explicit_title_falls_back_to_the_inferred_one() {
    let store = pwf_store();
    let mut command = add_command(None);
    command.source = Some(AddPendingWorkSource::Prompt {
        prompt: "Tidy the tray".to_string(),
        title: Some("   ".to_string()),
    });

    let added = add(&command, &store, &pwf_registry(Some("/repo/pwf"))).unwrap();

    assert_eq!(added.title, "tidy the tray");
    assert!(!added.title_normalized);
}

#[test]
fn tests_add_uses_clock_date_when_no_date_is_explicit() {
    let store = pwf_store();
    let mut command = add_command(None);
    command.date = None;

    add(&command, &store, &pwf_registry(Some("/repo/pwf"))).unwrap();

    assert_eq!(store.items("pwf")[0].created.as_deref(), Some("2026-07-26"));
}

#[test]
fn tests_add_reports_created_section_only_when_region_absent() {
    let store = pwf_store();

    let added = add(&add_command(Some("Human")), &store, &pwf_registry(Some("/repo/pwf"))).unwrap();

    assert_eq!(added.created_section.as_deref(), Some("Human"));
}

#[test]
fn tests_add_does_not_report_created_section_for_existing_empty_region() {
    let store = pwf_store().with_sections("pwf", &["Human"]);

    let added = add(&add_command(Some("Human")), &store, &pwf_registry(Some("/repo/pwf"))).unwrap();

    assert_eq!(added.created_section, None);
}

#[test]
fn tests_add_plan_normalizes_yaml_significant_filename_title() {
    let store = pwf_store();
    let mut command = add_command(None);
    command.source = Some(AddPendingWorkSource::Plan {
        path: "docs/plans/2026-07-15-fix-#-metadata.md".to_string(),
    });

    let added = add(&command, &store, &pwf_registry(Some("/repo/pwf"))).unwrap();

    assert_eq!(added.title, "pwf fix  metadata");
    assert_eq!(store.items("pwf")[0].title, "pwf fix  metadata");
    assert_eq!(
        store.items("pwf")[0].body,
        "continue the plan at docs/plans/2026-07-15-fix-#-metadata.md"
    );
}

#[test]
fn tests_add_rejects_project_without_directory_source() {
    let store = pwf_store();

    for registry in [pwf_registry(None), pwf_registry(Some("  "))] {
        let error = add(&add_command(None), &store, &registry).unwrap_err();
        assert!(matches!(
            error,
            AddPendingWorkError::ProjectHasNoDirectorySource { ref project } if project == "pwf"
        ));
        assert_eq!(
            error.message(),
            "Project 'pwf' has no directory source; update the managed project record."
        );
    }
}

#[test]
fn add_stores_prerequisites_effort_and_canonical_tags() {
    let store = pwf_store();
    store
        .items
        .borrow_mut()
        .entry("pwf".to_string())
        .or_default()
        .push(PendingWorkItem {
            source: "---\nstatus: active\n---\nbody\n".to_string(),
            ..record("PWF-0007", WorkItemStatus::Active)
        });
    let mut command = add_command(None);
    command.prerequisites = vec!["PWF-0007".to_string()];
    command.effort = Some(2);
    command.tags = vec!["SQLite, godot".to_string()];

    let added = add(&command, &store, &pwf_registry(Some("/repo/pwf"))).unwrap();

    let stored = store.get_item("pwf", &added.id).unwrap().unwrap();
    assert_eq!(stored.prereq.as_deref(), Some("[[PWF-0007]]"));
    assert_eq!(stored.effort.as_deref(), Some("2"));
    assert_eq!(stored.tags.as_deref(), Some("[sqlite, godot]"));
    assert_eq!(added.handoff, HandoffMutationOk::NotLinked);
}

#[test]
fn add_invalid_tag_precedes_every_other_check() {
    let store = pwf_store();
    let command = AddPendingWorkItem {
        project_identifier: None,
        source: None,
        date: None,
        section: None,
        prerequisites: vec!["PWF-99999".to_string()],
        effort: None,
        tags: vec!["ok, bad__tag".to_string()],
    };

    let error = add(&command, &store, &pwf_registry(Some("/repo/pwf"))).unwrap_err();

    assert!(matches!(error, AddPendingWorkError::InvalidTag { ref raw } if raw == "bad__tag"));
    assert_eq!(
        error.message(),
        "Invalid --tag value \"bad__tag\"; use lowercase/uppercase ASCII letters, digits, '_' or '-', without leading, trailing, or repeated separators."
    );
    assert!(store.items("pwf").is_empty());
}

#[test]
fn add_normalizes_explicit_title_and_creates_linked_handoff() {
    let store = pwf_store();
    let mut command = add_command(None);
    command.source = Some(AddPendingWorkSource::Prompt {
        prompt: "do the thing".to_string(),
        title: Some("Ship: It".to_string()),
    });
    command.tags = vec!["handoff".to_string()];

    let added = add(&command, &store, &pwf_registry(Some(REPOSITORY_ROOT))).unwrap();

    assert_eq!(added.title, "ship; it");
    assert!(added.title_normalized);
    assert_eq!(
        added.handoff,
        HandoffMutationOk::Created {
            path: format!("{REPOSITORY_ROOT}/docs/handoffs/2026-07-15-ship-it.md")
        }
    );
    let documents = store.handoff_documents(REPOSITORY_ROOT);
    assert_eq!(documents.len(), 1);
    assert_eq!(documents[0].pending_work_identifier_raw.as_deref(), Some("PWF-0001"));
    assert!(store.ledger(REPOSITORY_ROOT).unwrap().source.contains("PWF-0001"));
}

#[test]
fn add_handoff_destination_collision_preflights_before_pending_work_insert() {
    let store = pwf_store()
        .with_handoff_documents(REPOSITORY_ROOT, vec![existing_handoff("2026-07-15-ship-it.md", 0)]);
    let mut command = add_command(None);
    command.tags = vec!["handoff".to_string()];

    let error = add(&command, &store, &pwf_registry(Some(REPOSITORY_ROOT))).unwrap_err();

    assert!(matches!(error, AddPendingWorkError::HandoffPreflight(_)));
    assert!(store.items("pwf").is_empty());
    assert_eq!(store.handoff_documents(REPOSITORY_ROOT).len(), 1);
}

#[test]
fn add_ledger_failure_reports_post_pending_work_phase_and_removes_scaffold() {
    let store = pwf_store().with_failure(FailurePoint::LedgerInsert);
    let mut command = add_command(Some("Human"));
    command.source = Some(AddPendingWorkSource::Prompt {
        prompt: "do the thing".to_string(),
        title: Some("Ship: It".to_string()),
    });
    command.tags = vec!["handoff".to_string()];

    let error = add(&command, &store, &pwf_registry(Some(REPOSITORY_ROOT))).unwrap_err();

    let AddPendingWorkError::HandoffAfterPendingWork { pending_work_identifier, diagnostics, source } =
        &error
    else {
        panic!("expected post-pending-work handoff failure");
    };
    assert_eq!(pending_work_identifier, "PWF-0001");
    assert_eq!(diagnostics.project, "pwf");
    assert_eq!(diagnostics.created_section.as_deref(), Some("Human"));
    assert!(diagnostics.title_normalized);
    assert!(matches!(source, HandoffError::RebuildLedger { .. }));
    assert!(error.message().starts_with("PWF-0001 was mutated, but its handoff was not: "));
    assert_eq!(store.items("pwf").len(), 1);
    assert!(
        store.handoff_documents(REPOSITORY_ROOT).is_empty(),
        "failed ledger rebuild must compensate the scaffold"
    );
}

#[test]
fn add_newest_handoff_selects_by_modified_timestamp_without_scaffolding() {
    let store = pwf_store().with_handoff_documents(
        REPOSITORY_ROOT,
        vec![
            existing_handoff("2026-07-14-old.md", 0),
            existing_handoff("2026-07-15-api-cleanup.md", 1_000_000_000),
        ],
    );
    let mut command = add_command(None);
    command.source = Some(AddPendingWorkSource::NewestHandoff);
    command.tags = vec!["handoff".to_string()];

    let added = add(&command, &store, &pwf_registry(Some(REPOSITORY_ROOT))).unwrap();

    assert_eq!(added.title, "continue api cleanup");
    assert_eq!(added.handoff, HandoffMutationOk::NotLinked);
    assert_eq!(store.handoff_documents(REPOSITORY_ROOT).len(), 2);
    assert_eq!(
        store.items("pwf")[0].body,
        "Continue the handoff at @docs/handoffs/2026-07-15-api-cleanup.md."
    );
}

#[test]
fn add_newest_handoff_normalizes_yaml_significant_filename_title() {
    let store = pwf_store().with_handoff_documents(
        REPOSITORY_ROOT,
        vec![existing_handoff("2026-07-15-fix-#-metadata.md", 0)],
    );
    let mut command = add_command(None);
    command.source = Some(AddPendingWorkSource::NewestHandoff);

    let added = add(&command, &store, &pwf_registry(Some(REPOSITORY_ROOT))).unwrap();

    assert_eq!(added.title, "continue fix  metadata");
    assert_eq!(store.items("pwf")[0].title, "continue fix  metadata");
}

#[test]
fn add_newest_handoff_distinguishes_missing_directory_from_empty_directory() {
    let mut command = add_command(None);
    command.source = Some(AddPendingWorkSource::NewestHandoff);

    let missing = pwf_store();
    let error = add(&command, &missing, &pwf_registry(Some(REPOSITORY_ROOT))).unwrap_err();
    assert_eq!(
        error.message(),
        "No handoff directory found for project at /repo/pwf/docs/handoffs."
    );

    let empty = pwf_store().with_handoff_documents(REPOSITORY_ROOT, Vec::new());
    let error = add(&command, &empty, &pwf_registry(Some(REPOSITORY_ROOT))).unwrap_err();
    assert_eq!(error.message(), "No handoff Markdown files found in /repo/pwf/docs/handoffs.");
}

#[test]
fn tests_add_prerequisite_error_precedes_missing_project_and_source() {
    let store = pwf_store();
    let command = AddPendingWorkItem {
        project_identifier: None,
        source: None,
        date: Some("2026-07-15".to_string()),
        section: None,
        prerequisites: vec!["PWF-99999".to_string()],
        effort: None,
        tags: Vec::new(),
    };

    let error = add(&command, &store, &pwf_registry(Some("/repo/pwf"))).unwrap_err();

    assert_eq!(error.message(), "Invalid --prereq id: PWF-99999.");
    assert!(store.items("pwf").is_empty());
}

#[test]
fn tests_add_blank_prompt_precedes_unknown_project_resolution() {
    let store = pwf_store();
    let command = AddPendingWorkItem {
        project_identifier: Some("unknown".to_string()),
        source: Some(AddPendingWorkSource::Prompt { prompt: " \t".to_string(), title: None }),
        date: Some("2026-07-15".to_string()),
        section: None,
        prerequisites: Vec::new(),
        effort: None,
        tags: Vec::new(),
    };

    let error = add(&command, &store, &pwf_registry(Some("/repo/pwf"))).unwrap_err();

    assert!(matches!(error, AddPendingWorkError::Usage));
    assert_eq!(error.message(), "Use: pwf add <project> \"<prompt>\"");
}

#[test]
fn add_unknown_project_is_a_resolution_error() {
    let store = pwf_store();
    let mut command = add_command(None);
    command.project_identifier = Some("unknown".to_string());

    let error = add(&command, &store, &pwf_registry(Some("/repo/pwf"))).unwrap_err();

    assert!(matches!(error, AddPendingWorkError::ProjectResolution(_)));
    assert!(store.items("pwf").is_empty());
}

#[test]
fn invalid_section_is_rejected_before_mutation() {
    let store = pwf_store();

    let error = resolve_section::<StoreError>(Some("someday"), false).unwrap_err();

    assert!(matches!(error, AddPendingWorkError::InvalidSection { ref value } if value == "someday"));
    assert!(store.items("pwf").is_empty());
}

// ---------------------------------------------------------------------------------------
// Closing as done on an optional date.

fn foo_registry() -> ProjectRegistry {
    ProjectRegistry::new(vec![("foo-bar".to_string(), Some("/repo".to_string()), Some("FOO".to_string()))])
}

fn foo_staged(items: Vec<PendingWorkItem>, entries: Vec<IndexEntry>) -> MemoryStore {
    MemoryStore::default()
        .with_prefix("foo-bar", "FOO")
        .with_project("foo-bar", items)
        .with_entries("foo-bar", entries)
}

fn dated_done_command(id: &str) -> DatedCompletePendingWork {
    DatedCompletePendingWork {
        id: id.to_string(),
        date: Some("2026-07-07".to_string()),
        report: None,
        commits: Vec::new(),
        review: false,
    }
}

#[test]
fn complete_pending_work_done_marks_entry_and_evicts_past_cap() {
    let mut items = vec![record("FOO-0007", WorkItemStatus::Active)];
    let mut entries = Vec::new();
    for n in 1..=6 {
        let id = format!("FOO-{n:04}");
        items.push(record(&id, WorkItemStatus::Done));
        entries.push(entry(&id, done_on(&format!("2026-01-{n:02}")), "General"));
    }
    entries.push(entry("FOO-0007", IndexEntryState::Open, "General"));
    let store = foo_staged(items, entries);

    let out =
        dated_done::execute(&dated_done_command("FOO-0007"), &store, &foo_registry(), &FixedClock)
            .unwrap();

    assert_eq!(out.action, ClosedItemAction::Done);
    assert_eq!(out.evicted_ids, vec!["FOO-0001".to_string()]);
    assert_eq!(out.futuro_renamed_project, None);
    assert_eq!(store.items("foo-bar")[0].status, WorkItemStatus::Done);
    let marked = store.entries("foo-bar").into_iter().find(|e| e.id == "FOO-0007").unwrap();
    assert_eq!(marked.state, done_on("2026-07-07"));
    assert!(
        !store.entries("foo-bar").iter().any(|e| e.id == "FOO-0001"),
        "evicted entry must be unlinked"
    );
}

#[test]
fn done_uses_clock_date_when_no_date_is_explicit() {
    let store = foo_staged(
        vec![record("FOO-0001", WorkItemStatus::Active)],
        vec![entry("FOO-0001", IndexEntryState::Open, "General")],
    );
    let mut command = dated_done_command("FOO-0001");
    command.date = None;

    dated_done::execute(&command, &store, &foo_registry(), &FixedClock).unwrap();

    assert_eq!(store.items("foo-bar")[0].completed.as_deref(), Some("2026-07-26"));
}

#[test]
fn complete_pending_work_done_normalizes_futuro_header_entries() {
    let store = foo_staged(
        vec![record("FOO-0001", WorkItemStatus::Active)],
        vec![entry("FOO-0001", IndexEntryState::Open, "Futuro")],
    )
    .with_sections("foo-bar", &["Futuro"]);

    let out =
        dated_done::execute(&dated_done_command("FOO-0001"), &store, &foo_registry(), &FixedClock)
            .unwrap();

    assert_eq!(out.futuro_renamed_project.as_deref(), Some("foo-bar"));
}

#[test]
fn complete_pending_work_done_review_inserts_review_item_and_open_entry() {
    let store = foo_staged(
        vec![record("FOO-0001", WorkItemStatus::Active)],
        vec![entry("FOO-0001", IndexEntryState::Open, "General")],
    );
    let command = DatedCompletePendingWork {
        review: true,
        commits: vec!["a..b".to_string()],
        ..dated_done_command("FOO-0001")
    };

    let out = dated_done::execute(&command, &store, &foo_registry(), &FixedClock).unwrap();

    let review = out.review_item.expect("review item present");
    assert_eq!(review.id, "FOO-0002");
    assert!(
        store
            .entries("foo-bar")
            .iter()
            .any(|e| e.id == "FOO-0002" && e.state == IndexEntryState::Open),
        "review task must get an open index entry"
    );
}

#[test]
fn complete_pending_work_done_review_preserves_add_project_mapping_policy() {
    let store = foo_staged(
        vec![record("FOO-0001", WorkItemStatus::Active)],
        vec![entry("FOO-0001", IndexEntryState::Open, "General")],
    );
    let projects =
        ProjectRegistry::new(vec![("foo-bar".to_string(), None, Some("FOO".to_string()))]);
    let command = DatedCompletePendingWork { review: true, ..dated_done_command("FOO-0001") };

    let error = dated_done::execute(&command, &store, &projects, &FixedClock).unwrap_err();

    assert!(matches!(
        error,
        CompletePendingWorkError::ReviewTask(
            AddPendingWorkError::ProjectHasNoDirectorySource { ref project }
        ) if project == "foo-bar"
    ));
    assert_eq!(
        error.message(),
        "Project 'foo-bar' has no directory source; update the managed project record."
    );
}

#[test]
fn complete_pending_work_done_on_missing_item_reports_item_not_found() {
    let store = foo_staged(Vec::new(), Vec::new());

    let error =
        dated_done::execute(&dated_done_command("FOO-9999"), &store, &foo_registry(), &FixedClock)
            .unwrap_err();

    assert!(matches!(error, CompletePendingWorkError::ItemNotFound { ref id } if id == "FOO-9999"));
    assert_eq!(error.message(), "Open pending-work item not found: FOO-9999");
}

#[test]
fn complete_pending_work_done_reports_an_unknown_configured_prefix() {
    let store = foo_staged(Vec::new(), Vec::new());

    let error =
        dated_done::execute(&dated_done_command("XYZ-0001"), &store, &foo_registry(), &FixedClock)
            .unwrap_err();

    assert_eq!(error.message(), "Unknown task id prefix `XYZ` for XYZ-0001");
}

// ---------------------------------------------------------------------------------------
// Removing without confirmation.

fn stale(id: &str, status: WorkItemStatus) -> PendingWorkItem {
    PendingWorkItem {
        title: "stale task".to_string(),
        locator: format!("/notes/pwf/{id}.md"),
        ..record(id, status)
    }
}

fn stale_store(status: WorkItemStatus) -> MemoryStore {
    MemoryStore::default()
        .with_prefix("pwf", "PWF")
        .with_project("pwf", vec![stale("PWF-0001", status)])
        .with_entries("pwf", vec![entry("PWF-0001", IndexEntryState::Open, "")])
}

fn unconfirmed(id: &str) -> UnconfirmedRemove {
    UnconfirmedRemove { id: id.to_string() }
}

#[test]
fn remove_remove_deletes_record_and_index_entry() {
    let store = stale_store(WorkItemStatus::Active);

    let removed =
        unconfirmed_remove::execute(&unconfirmed("PWF-0001"), &store, &pwf_registry(Some("/repo/pwf")))
            .unwrap();

    assert_eq!(removed.id, "PWF-0001");
    assert_eq!(removed.project, "pwf");
    assert_eq!(removed.title, "stale task");
    assert_eq!(removed.deleted_path, "/notes/pwf/PWF-0001.md");
    assert_eq!(removed.handoff, HandoffMutationOk::NotLinked);
    assert!(store.items("pwf").is_empty(), "record must be deleted");
    assert!(store.entries("pwf").is_empty(), "index entry must be unlinked");
}

#[test]
fn remove_remove_rejects_closed_item_with_open_not_found_display() {
    let store = stale_store(WorkItemStatus::Done);

    let error =
        unconfirmed_remove::execute(&unconfirmed("PWF-0001"), &store, &pwf_registry(Some("/repo/pwf")))
            .unwrap_err();

    assert!(matches!(error, UnconfirmedRemoveError::ItemNotFound { ref id } if id == "PWF-0001"));
    assert_eq!(error.message(), "Open pending-work item not found: PWF-0001");
    assert_eq!(store.items("pwf").len(), 1, "nothing may be deleted");
}

#[test]
fn remove_remove_missing_item_preserves_requested_id() {
    let store = stale_store(WorkItemStatus::Active);

    let error =
        unconfirmed_remove::execute(&unconfirmed("PWF-9999"), &store, &pwf_registry(Some("/repo/pwf")))
            .unwrap_err();

    assert!(matches!(error, UnconfirmedRemoveError::ItemNotFound { ref id } if id == "PWF-9999"));
}

#[test]
fn remove_remove_rejects_missing_note_wikilink_with_legacy_display() {
    let ghost = PendingWorkItem {
        materialization: Materialization::MissingNote {
            expected: "/notes/pwf/PWF-0001.md".to_string(),
        },
        ..stale("PWF-0001", WorkItemStatus::Active)
    };
    let store = MemoryStore::default().with_prefix("pwf", "PWF").with_project("pwf", vec![ghost]);

    let error =
        unconfirmed_remove::execute(&unconfirmed("PWF-0001"), &store, &pwf_registry(Some("/repo/pwf")))
            .unwrap_err();

    assert!(matches!(
        error,
        UnconfirmedRemoveError::NoteMissing { ref path } if path == "/notes/pwf/PWF-0001.md"
    ));
    assert_eq!(error.message(), "Work-item note missing: /notes/pwf/PWF-0001.md");
    assert_eq!(store.items("pwf").len(), 1);
}

#[test]
fn remove_unknown_prefix_and_malformed_ids_are_not_found() {
    let store = stale_store(WorkItemStatus::Active);

    for raw in ["XYZ-0001", "not an id"] {
        let error =
            unconfirmed_remove::execute(&unconfirmed(raw), &store, &pwf_registry(Some("/repo/pwf")))
                .unwrap_err();
        assert!(matches!(error, UnconfirmedRemoveError::ItemNotFound { ref id } if id == raw));
    }
    assert_eq!(store.items("pwf").len(), 1);
}
