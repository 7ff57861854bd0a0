//! Closing an item: the verb it is reported with, the review item it may spawn, and the
//! rotation of its project's done queue.
use vstd::prelude::*;

use crate::handoff::handoff_reports;
use crate::handoff::lifecycle::commit::CommitError;
use crate::handoff::lifecycle::commit::commit_reports;
use crate::handoff::ports::HandoffStore;
use crate::handoff::{HandoffError, HandoffMutationOk};
use crate::pending_work::add::add_reports;
use crate::pending_work::add::{AddPendingWorkError, AddedItem};
use crate::pending_work::close::{closed_as, perform_close, project_of_id, report_of, CloseError};
use crate::pending_work::done_queue::{
    close_decisions, evicted_ids, is_futuro, is_futuro_label, is_open_link,
};
use crate::pending_work::find::PendingWorkStore;
use crate::pending_work::find::{not_found_message, not_found_text, unknown_prefix_message, unknown_prefix_text};
use crate::pending_work::identifier::work_item_id_of;
use crate::pending_work::project_registry::{id_prefix, ProjectRegistry};
use crate::ports::{IndexEntry, IndexEntryState, IndexSection, WorkItemStatus};
use crate::text::concat;
use crate::text::{display_text, displays};

verus! {

/// Requests that one open item be closed as done.
#[derive(Debug, Clone)]
pub struct CompletePendingWork {
    pub id: String,
    pub completed: String,
    pub report: Option<String>,
    pub commits: Vec<String>,
    pub review: bool,
}

/// Selects the status and confirmation verb recorded by a close operation.
#[derive(Debug, Clone, Copy, PartialEq, Eq, Structural)]
pub enum ClosedItemAction {
    Done,
    Cancelled,
}

impl ClosedItemAction {
    /// The confirmation verb of a close.
    pub fn past_tense(self) -> (r: &'static str)
        ensures
            r@ == match self {
                ClosedItemAction::Done => "Done"@,
                ClosedItemAction::Cancelled => "Cancelled"@,
            },
    {
        match self {
            ClosedItemAction::Done => "Done",
            ClosedItemAction::Cancelled => "Cancelled",
        }
    }

    /// The status a close records.
    pub fn status(self) -> (r: WorkItemStatus)
        ensures
            r == match self {
                ClosedItemAction::Done => WorkItemStatus::Done,
                ClosedItemAction::Cancelled => WorkItemStatus::Cancelled,
            },
    {
        match self {
            ClosedItemAction::Done => WorkItemStatus::Done,
            ClosedItemAction::Cancelled => WorkItemStatus::Cancelled,
        }
    }
}

/// Contains a closed item's identity and queue side effects.
#[derive(Debug, Clone, PartialEq, Eq)]
pub struct CompletedPendingWork {
    pub id: String,
    pub project: String,
    pub title: String,
    pub action: ClosedItemAction,
    pub evicted_ids: Vec<String>,
    pub futuro_renamed_project: Option<String>,
    pub review_item: Option<AddedItem>,
    pub handoff: HandoffMutationOk,
}

/// The index of one project, as its adapter reads and writes it.
pub trait IndexStore {
    /// Concrete adapter failure.
    type Error;

    /// The project's index links in index order.
    fn list_entries(&self, project: &str) -> Result<Vec<IndexEntry>, Self::Error>;

    /// The project's index section headers in index order.
    fn list_sections(&self, project: &str) -> Result<Vec<IndexSection>, Self::Error>;

    /// Rewrites the link of `id`.
    fn update_entry(&self, project: &str, id: &str, entry: IndexEntry) -> Result<(), Self::Error>;

    /// Deletes the link of `id`.
    fn delete_entry(&self, project: &str, id: &str) -> Result<(), Self::Error>;

    /// Adds a link.
    fn insert_entry(&self, project: &str, entry: IndexEntry) -> Result<(), Self::Error>;

    /// Renames the section header `label`.
    fn update_section(&self, project: &str, label: &str, section: IndexSection) -> Result<
        (),
        Self::Error,
    >;
}

/// The prompt of the review item spawned by a close: the reviewed identifier and, when
/// commits were recorded, their range, each with its `git-tools` diff command.
pub open spec fn review_prompt_of(reviewed_id: Seq<char>, range: Option<Seq<char>>) -> Seq<char> {
    match range {
        Some(r) => "review "@ + reviewed_id + ", commits: "@ + r + " / git-tools diff "@ + r
            + " / git-tools diff-subrepos"@,
        None => "review "@ + reviewed_id + " / git-tools diff / git-tools diff-subrepos"@,
    }
}

/// The prompt of the review item spawned by a close.
pub fn review_task_prompt(reviewed_id: &str, range: Option<&str>) -> (r: String)
    ensures
        r@ == review_prompt_of(
            reviewed_id@,
            match range {
                Some(x) => Some(x@),
                None => None,
            },
        ),
{
    let head = concat("review ", reviewed_id);
    match range {
        Some(range) => {
            let a = concat(head.as_str(), ", commits: ");
            let b = concat(a.as_str(), range);
            let c = concat(b.as_str(), " / git-tools diff ");
            let d = concat(c.as_str(), range);
            concat(d.as_str(), " / git-tools diff-subrepos")
        },
        None => concat(head.as_str(), " / git-tools diff / git-tools diff-subrepos"),
    }
}

/// The index entry a close writes for the closed item: checked off on the completion date,
/// keeping its section.
pub fn done_mark(id: &str, completed: &str) -> (r: IndexEntry)
    ensures
        r.id@ == id@,
        r.state matches IndexEntryState::Done(d) && d@ == completed@,
        r.section@ == Seq::<char>::empty(),
{
    IndexEntry {
        id: id.to_owned(),
        state: IndexEntryState::Done(completed.to_owned()),
        section: String::new(),
    }
}

/// The header a legacy `Futuro` header is renamed to.
pub fn future_header() -> (r: IndexSection)
    ensures
        r.label@ == "Future"@,
{
    IndexSection { label: "Future".to_owned() }
}

/// Renames every legacy `Futuro` header of the project to `Future`.
fn rename_futuro_headers<S: IndexStore>(
    store: &S,
    project: &str,
    sections: &Vec<IndexSection>,
) -> (r: Result<(), S::Error>) {
    let mut i: usize = 0;
    while i < sections.len()
        invariant
            i <= sections.len(),
        decreases sections.len() - i,
    {
        if is_futuro_label(sections[i].label.as_str()) {
            match store.update_section(
                project,
                sections[i].label.as_str(),
                future_header(),
            ) {
                Ok(_) => {},
                Err(e) => return Err(e),
            }
        }
        i = i + 1;
    }
    Ok(())
}

/// Whether `evicted` and `renamed` are what closing `id` on `completed` decides for an
/// index holding `entries` and `sections`: renamed exactly when a header is a legacy
/// `Futuro`; nothing evicted unless the item has an open link; otherwise the evictions of the
/// section of its first open link.
pub open spec fn rotation_of(
    entries: Seq<IndexEntry>,
    sections: Seq<IndexSection>,
    id: Seq<char>,
    completed: Seq<char>,
    evicted: Seq<Seq<char>>,
    renamed: bool,
) -> bool {
    &&& renamed == exists|k: int| 0 <= k < sections.len() && is_futuro(#[trigger] sections[k].label@)
    &&& !(exists|k: int| 0 <= k < entries.len() && is_open_link(#[trigger] entries[k], id))
        ==> evicted.len() == 0
    &&& (exists|k: int| 0 <= k < entries.len() && is_open_link(#[trigger] entries[k], id))
        ==> exists|k: int|
        0 <= k < entries.len() && is_open_link(#[trigger] entries[k], id) && (forall|m: int|
            0 <= m < k ==> !is_open_link(#[trigger] entries[m], id)) && evicted == evicted_ids(
            entries,
            entries[k].section@,
            id,
            completed,
        )
}

/// Whether some index contents decide `evicted` and `renamed` for closing `id`.
pub open spec fn some_rotation(
    id: Seq<char>,
    completed: Seq<char>,
    evicted: Seq<Seq<char>>,
    renamed: bool,
) -> bool {
    exists|entries: Seq<IndexEntry>, sections: Seq<IndexSection>|
        #[trigger] rotation_of(entries, sections, id, completed, evicted, renamed)
}

/// Applies a close to the project's index: renames legacy `Futuro` headers, checks the
/// item's open link off with its completion date and deletes the done links its section no
/// longer keeps. Returns the evicted identifiers and whether headers were renamed.
pub fn rotate_done_queue<S: IndexStore>(
    store: &S,
    project: &str,
    id: &str,
    completed: &str,
) -> (r: Result<(Vec<String>, bool), S::Error>)
    ensures
        r matches Ok((evicted, renamed)) ==> some_rotation(id@, completed@, evicted.deep_view(), renamed),
{
    let entries = match store.list_entries(project) {
        Ok(entries) => entries,
        Err(e) => return Err(e),
    };
    let sections = match store.list_sections(project) {
        Ok(sections) => sections,
        Err(e) => return Err(e),
    };
    let decisions = close_decisions(&entries, &sections, id, completed);
    assert(rotation_of(
        entries@,
        sections@,
        id@,
        completed@,
        decisions.evicted_ids.deep_view(),
        decisions.normalize_futuro_header,
    ));
    if decisions.normalize_futuro_header {
        match rename_futuro_headers(store, project, &sections) {
            Ok(_) => {},
            Err(e) => return Err(e),
        }
    }
    if decisions.mark_target {
        match store.update_entry(
            project,
            id,
            done_mark(id, completed),
        ) {
            Ok(_) => {},
            Err(e) => return Err(e),
        }
    }
    let mut k: usize = 0;
    while k < decisions.evicted_ids.len()
        invariant
            k <= decisions.evicted_ids.len(),
            rotation_of(
                entries@,
                sections@,
                id@,
                completed@,
                decisions.evicted_ids.deep_view(),
                decisions.normalize_futuro_header,
            ),
        decreases decisions.evicted_ids.len() - k,
    {
        match store.delete_entry(project, decisions.evicted_ids[k].as_str()) {
            Ok(_) => {},
            Err(e) => return Err(e),
        }
        k = k + 1;
    }
    let ghost es = entries@;
    let ghost ss = sections@;
    let result = (decisions.evicted_ids, decisions.normalize_futuro_header);
    assert(rotation_of(es, ss, id@, completed@, result.0.deep_view(), result.1));
    assert(some_rotation(id@, completed@, result.0.deep_view(), result.1));
    Ok(result)
}

/// Why closing an item as done failed; `E` is the storage adapter's error.
#[derive(Debug)]
pub enum CompletePendingWorkError<E> {
    ItemNotFound { id: String },
    /// A canonical identifier whose prefix has no configured project.
    UnknownPrefix { pending_work_identifier: String, prefix: String },
    EmptyReport,
    WriteStore(E),
    ReviewTask(AddPendingWorkError<E>),
    HandoffPreflight(HandoffError<E>),
    HandoffAfterPendingWork {
        pending_work_identifier: String,
        completed: Box<CompletedPendingWork>,
        source: CommitError<E>,
    },
}

/// A close failure reported as a done failure: the same variant with the same fields.
pub open spec fn as_complete_error<E>(e: CloseError<E>) -> CompletePendingWorkError<E> {
    match e {
        CloseError::ItemNotFound { id } => CompletePendingWorkError::ItemNotFound { id },
        CloseError::UnknownPrefix { pending_work_identifier, prefix } => {
            CompletePendingWorkError::UnknownPrefix { pending_work_identifier, prefix }
        },
        CloseError::EmptyReport => CompletePendingWorkError::EmptyReport,
        CloseError::WriteStore(source) => CompletePendingWorkError::WriteStore(source),
        CloseError::ReviewTask(source) => CompletePendingWorkError::ReviewTask(source),
        CloseError::HandoffPreflight(source) => CompletePendingWorkError::HandoffPreflight(source),
        CloseError::HandoffAfterPendingWork { pending_work_identifier, completed, source } => {
            CompletePendingWorkError::HandoffAfterPendingWork {
                pending_work_identifier,
                completed,
                source,
            }
        },
    }
}

impl<E> CloseError<E> {
    /// Reports a close failure as a done failure.
    pub fn into_complete(self) -> (r: CompletePendingWorkError<E>)
        ensures
            r == as_complete_error(self),
    {
        match self {
            CloseError::ItemNotFound { id } => CompletePendingWorkError::ItemNotFound { id },
            CloseError::UnknownPrefix { pending_work_identifier, prefix } => {
                CompletePendingWorkError::UnknownPrefix { pending_work_identifier, prefix }
            },
            CloseError::EmptyReport => CompletePendingWorkError::EmptyReport,
            CloseError::WriteStore(source) => CompletePendingWorkError::WriteStore(source),
            CloseError::ReviewTask(source) => CompletePendingWorkError::ReviewTask(source),
            CloseError::HandoffPreflight(source) => CompletePendingWorkError::HandoffPreflight(
                source,
            ),
            CloseError::HandoffAfterPendingWork { pending_work_identifier, completed, source } => {
                CompletePendingWorkError::HandoffAfterPendingWork {
                    pending_work_identifier,
                    completed,
                    source,
                }
            },
        }
    }
}

/// Closes one open item as done on the requested date; see [`perform_close`].
pub fn execute<S>(command: &CompletePendingWork, store: &S, projects: &ProjectRegistry) -> (r: Result<
    CompletedPendingWork,
    CompletePendingWorkError<<S as HandoffStore>::Error>,
>) where
    S: HandoffStore + PendingWorkStore<Error = <S as HandoffStore>::Error> + IndexStore<
        Error = <S as HandoffStore>::Error,
    >,

    ensures
        work_item_id_of(command.id@) is None ==> (r matches Err(
            CompletePendingWorkError::ItemNotFound { id: x },
        ) && x@ == command.id@),
        work_item_id_of(command.id@) matches Some(canonical) ==> ({
            &&& project_of_id(projects.rows(), canonical) is None ==> (r matches Err(
                CompletePendingWorkError::UnknownPrefix { pending_work_identifier: x, prefix },
            ) && x@ == canonical && prefix@ == id_prefix(canonical))
            &&& r matches Ok(c) ==> (project_of_id(projects.rows(), canonical) matches Some(p)
                && closed_as(c, canonical, p, ClosedItemAction::Done, command.review))
            &&& r matches Err(CompletePendingWorkError::ItemNotFound { id: x }) ==> x@ == canonical
        }),
        r matches Err(CompletePendingWorkError::EmptyReport) ==> (command.report matches Some(t)
            && report_of(t@) is None),
        command.report matches Some(t) && report_of(t@) is None ==> !(r is Ok),
{
    let report = match &command.report {
        Some(text) => Some(text.as_str()),
        None => None,
    };
    match perform_close(
        store,
        projects,
        ClosedItemAction::Done,
        command.id.as_str(),
        command.completed.as_str(),
        report,
        &command.commits,
        command.review,
    ) {
        Ok(closed) => Ok(closed),
        Err(e) => Err(e.into_complete()),
    }
}

impl<E: std::fmt::Display> CompletePendingWorkError<E> {
    /// The message this failure is reported with.
    pub fn message(&self) -> (r: String)
        ensures
            match self {
                CompletePendingWorkError::ItemNotFound { id } => r@ == not_found_text(id@),
                CompletePendingWorkError::UnknownPrefix { pending_work_identifier, prefix } => r@
                    == unknown_prefix_text(prefix@, pending_work_identifier@),
                CompletePendingWorkError::EmptyReport => r@ == "--report cannot be empty."@,
                CompletePendingWorkError::ReviewTask(a) => add_reports(a, r@),
                CompletePendingWorkError::WriteStore(e) => displays(e, r@),
                CompletePendingWorkError::HandoffPreflight(h) => handoff_reports(h, r@),
                CompletePendingWorkError::HandoffAfterPendingWork { pending_work_identifier: _, completed: _, source } => commit_reports(source, r@),
            },
    {
        match self {
            CompletePendingWorkError::ItemNotFound { id } => not_found_message(id.as_str()),
            CompletePendingWorkError::UnknownPrefix { pending_work_identifier, prefix } => unknown_prefix_message(
                prefix.as_str(),
                pending_work_identifier.as_str(),
            ),
            CompletePendingWorkError::EmptyReport => "--report cannot be empty.".to_owned(),
            CompletePendingWorkError::ReviewTask(a) => a.message(),
            CompletePendingWorkError::WriteStore(e) => display_text(e),
            CompletePendingWorkError::HandoffPreflight(h) => h.message(),
            CompletePendingWorkError::HandoffAfterPendingWork { pending_work_identifier: _, completed: _, source } => source.commit_message(),
        }
    }
}

} // verus!
