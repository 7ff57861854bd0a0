//! Closing one open item as done or cancelled: the flow both requests share.
use vstd::prelude::*;

use crate::handoff::lifecycle::commit::{commit_after_pending_work, CommitError};
use crate::handoff::lifecycle::preflight::preflight_close;
use crate::handoff::lifecycle::CloseHandoffAction;
use crate::handoff::ports::HandoffStore;
use crate::handoff::{HandoffError, HandoffMutationOk};
use crate::pending_work::add::{
    added_item, project_mapped, AddPendingWorkDiagnostics, AddPendingWorkError, AddedItem,
};
use crate::pending_work::commit_provenance::normalize;
use crate::pending_work::done::{
    review_task_prompt, rotate_done_queue, ClosedItemAction, CompletedPendingWork, IndexStore,
};
use crate::pending_work::find::{ItemPatch, NewItem, PendingWorkStore};
use crate::pending_work::identifier::{try_work_item_id, work_item_id_of};
use crate::pending_work::project_registry::{
    id_prefix, id_prefix_of, prefix_is, ProjectRegistry, Row,
};
use crate::ports::{Materialization, PendingWorkItem, WorkItemStatus};
use crate::text::{chars_of, string_of, trim, trimmed};

verus! {

/// Why a close failed; `E` is the storage adapter's error.
#[derive(Debug)]
pub enum CloseError<E> {
    /// No open item has the identifier.
    ItemNotFound { id: String },
    /// A canonical identifier whose prefix has no configured project.
    UnknownPrefix { pending_work_identifier: String, prefix: String },
    /// The report is blank.
    EmptyReport,
    WriteStore(E),
    /// The review item could not be created.
    ReviewTask(AddPendingWorkError<E>),
    /// The linked handoff failed its read-only checks; nothing was written.
    HandoffPreflight(HandoffError<E>),
    /// The item was closed, but its linked handoff was not archived.
    HandoffAfterPendingWork {
        pending_work_identifier: String,
        completed: Box<CompletedPendingWork>,
        source: CommitError<E>,
    },
}

/// The project configured for the prefix of a canonical identifier.
pub open spec fn project_of_id(rows: Seq<Row>, id: Seq<char>) -> Option<Seq<char>> {
    let found = rows.filter(prefix_is(id_prefix(id)));
    if found.len() > 0 {
        Some(found[0].0)
    } else {
        None
    }
}

/// The handoff move a close of the given kind asks for.
pub open spec fn handoff_action(action: ClosedItemAction) -> CloseHandoffAction {
    match action {
        ClosedItemAction::Done => CloseHandoffAction::Done,
        ClosedItemAction::Cancelled => CloseHandoffAction::Cancelled,
    }
}

/// A report as it is appended: trimmed, and absent when blank.
pub open spec fn report_of(report: Seq<char>) -> Option<Seq<char>> {
    if trim(report).len() == 0 {
        None
    } else {
        Some(trim(report))
    }
}

/// What a close of `id` reports about itself: the canonical identifier, its project, the
/// kind of close, a review item exactly when one was asked for, filed in the same project,
/// and a renamed-header project only naming that project.
pub open spec fn closed_as(
    c: CompletedPendingWork,
    id: Seq<char>,
    project: Seq<char>,
    action: ClosedItemAction,
    review: bool,
) -> bool {
    &&& c.id@ == id
    &&& c.project@ == project
    &&& c.action == action
    &&& (c.review_item is Some <==> review)
    &&& (c.review_item matches Some(item) ==> item.project@ == project && item.handoff
        is NotLinked && !item.title_normalized)
    &&& (c.futuro_renamed_project matches Some(p) ==> p@ == project)
}

/// The report to append, trimmed; `None` when it is blank.
pub fn report_text(report: &str) -> (r: Option<String>)
    ensures
        crate::pending_work::project_registry::opt_view(r) == report_of(report@),
{
    let v = chars_of(report);
    let t = trimmed(&v);
    if t.len() == 0 {
        None
    } else {
        let s = string_of(&t, 0, t.len());
        proof {
            assert(t@.subrange(0, t.len() as int) =~= t@);
        }
        Some(s)
    }
}

/// The record a close works on: the stored record when it is active; a record that is
/// absent or already closed is not found under the canonical identifier.
pub fn open_record<E>(answer: Option<PendingWorkItem>, pending_work_identifier: &String) -> (r: Result<
    PendingWorkItem,
    CloseError<E>,
>)
    ensures
        match answer {
            Some(record) => if record.status == WorkItemStatus::Active {
                r == Ok::<PendingWorkItem, CloseError<E>>(record)
            } else {
                r matches Err(CloseError::ItemNotFound { id }) && id == *pending_work_identifier
            },
            None => r matches Err(CloseError::ItemNotFound { id }) && id == *pending_work_identifier,
        },
{
    match answer {
        Some(record) => match record.status {
            WorkItemStatus::Active => Ok(record),
            _ => Err(CloseError::ItemNotFound { id: pending_work_identifier.clone() }),
        },
        None => Err(CloseError::ItemNotFound { id: pending_work_identifier.clone() }),
    }
}

/// The status a close records.
pub open spec fn closed_status(action: ClosedItemAction) -> WorkItemStatus {
    match action {
        ClosedItemAction::Done => WorkItemStatus::Done,
        ClosedItemAction::Cancelled => WorkItemStatus::Cancelled,
    }
}

/// The patch a close writes in one update: the action's status, the completion date, the
/// normalized commit ranges when there are any, and the trimmed report to append. `None`
/// when a report was given and is blank.
pub fn close_patch(
    action: ClosedItemAction,
    completed: &str,
    commits: Option<String>,
    report: Option<&str>,
) -> (r: Option<ItemPatch>)
    ensures
        match report {
            Some(t) => report_of(t@) is None <==> r is None,
            None => r is Some,
        },
        r matches Some(p) ==> {
            &&& p.status == Some(closed_status(action))
            &&& p.completed matches Some(Some(c)) && c@ == completed@
            &&& p.commits == match commits {
                Some(c) => Some(Some(c)),
                None => None,
            }
            &&& crate::pending_work::project_registry::opt_view(p.report) == match report {
                Some(t) => report_of(t@),
                None => None,
            }
        },
{
    let appended = match report {
        Some(text) => match report_text(text) {
            Some(trimmed_report) => Some(trimmed_report),
            None => return None,
        },
        None => None,
    };
    let status = match action {
        ClosedItemAction::Done => WorkItemStatus::Done,
        ClosedItemAction::Cancelled => WorkItemStatus::Cancelled,
    };
    Some(
        ItemPatch {
            status: Some(status),
            completed: Some(Some(completed.to_owned())),
            commits: match commits {
                Some(ranges) => Some(Some(ranges)),
                None => None,
            },
            report: appended,
        },
    )
}

/// Files the review item of a close in the `Human` section of the closed item's project.
pub fn spawn_review<S: PendingWorkStore>(
    store: &S,
    projects: &ProjectRegistry,
    project: &str,
    reviewed: &str,
    completed: &str,
    commits: Option<&str>,
) -> (r: Result<AddedItem, CloseError<S::Error>>)
    ensures
        r matches Ok(item) ==> (item.project@ == project@ && item.handoff is NotLinked
            && !item.title_normalized),
        r matches Err(e) ==> e is ReviewTask,
{
    match project_mapped::<S::Error>(project, projects) {
        Ok(_) => {},
        Err(e) => return Err(CloseError::ReviewTask(e)),
    }
    let prompt = review_task_prompt(reviewed, commits);
    let item = NewItem {
        prompt,
        title: None,
        created: completed.to_owned(),
        section: Some("Human".to_owned()),
        prereq: None,
        effort: None,
        tags: None,
    };
    match store.create_item(project, item) {
        Ok(created) => Ok(added_item(project, created, false, HandoffMutationOk::NotLinked)),
        Err(failure) => Err(
            CloseError::ReviewTask(
                AddPendingWorkError::WriteStore {
                    diagnostics: AddPendingWorkDiagnostics {
                        project: project.to_owned(),
                        created_section: failure.created_section,
                        title_normalized: false,
                    },
                    source: failure.source,
                },
            ),
        ),
    }
}

/// Closes an open item: records the status, the completion date, the appended report and
/// the normalized commit ranges in one patch; rotates the done queue of note-backed items;
/// files a review item when asked; and archives the linked handoff. The handoff is checked
/// before anything is written, and a blank report is refused before anything is written.
pub fn perform_close<S>(
    store: &S,
    projects: &ProjectRegistry,
    action: ClosedItemAction,
    id: &str,
    completed: &str,
    report: Option<&str>,
    commits: &Vec<String>,
    review: bool,
) -> (r: Result<CompletedPendingWork, CloseError<<S as HandoffStore>::Error>>) where
    S: HandoffStore + PendingWorkStore<Error = <S as HandoffStore>::Error> + IndexStore<
        Error = <S as HandoffStore>::Error,
    >,

    ensures
        work_item_id_of(id@) is None ==> (r matches Err(CloseError::ItemNotFound { id: x }) && x@
            == id@),
        work_item_id_of(id@) matches Some(canonical) ==> ({
            &&& project_of_id(projects.rows(), canonical) is None ==> (r matches Err(
                CloseError::UnknownPrefix { pending_work_identifier: x, prefix },
            ) && x@ == canonical && prefix@ == id_prefix(canonical))
            &&& r matches Ok(c) ==> (project_of_id(projects.rows(), canonical) matches Some(p)
                && closed_as(c, canonical, p, action, review))
            &&& r matches Err(CloseError::ItemNotFound { id: x }) ==> x@ == canonical
            &&& r matches Err(
                CloseError::HandoffAfterPendingWork { pending_work_identifier: x, completed: c, source: _ },
            ) ==> (x@ == canonical && (project_of_id(projects.rows(), canonical) matches Some(p)
                && closed_as(*c, canonical, p, action, review)) && c.handoff is NotLinked)
        }),
        r matches Err(CloseError::EmptyReport) ==> (report matches Some(t) && report_of(t@) is None),
        report matches Some(t) && report_of(t@) is None ==> (r matches Err(e) && (e is EmptyReport
            || e is ItemNotFound || e is UnknownPrefix || e is WriteStore || e is HandoffPreflight)),
{
    let commits_value = normalize(commits);
    let pending_work_identifier = match try_work_item_id(id) {
        Some(canonical) => canonical,
        None => return Err(CloseError::ItemNotFound { id: id.to_owned() }),
    };
    let prefix = id_prefix_of(pending_work_identifier.as_str());
    let project = match projects.project_for_id(pending_work_identifier.as_str()) {
        Some(project) => project,
        None => return Err(CloseError::UnknownPrefix { pending_work_identifier, prefix }),
    };
    let answer = match store.get_item(project.as_str(), pending_work_identifier.as_str()) {
        Err(source) => return Err(CloseError::WriteStore(source)),
        Ok(answer) => answer,
    };
    let record = match open_record(answer, &pending_work_identifier) {
        Ok(record) => record,
        Err(e) => return Err(e),
    };
    let handoff_pending = match preflight_close(
        store,
        projects,
        pending_work_identifier.as_str(),
        match action {
            ClosedItemAction::Done => CloseHandoffAction::Done,
            ClosedItemAction::Cancelled => CloseHandoffAction::Cancelled,
        },
        completed,
        report,
    ) {
        Ok(pending) => pending,
        Err(e) => return Err(CloseError::HandoffPreflight(e)),
    };
    let patch = match close_patch(action, completed, commits_value.clone(), report) {
        Some(patch) => patch,
        None => return Err(CloseError::EmptyReport),
    };
    match store.update_item(project.as_str(), pending_work_identifier.as_str(), patch) {
        Ok(_) => {},
        Err(source) => return Err(CloseError::WriteStore(source)),
    }
    let (evicted_ids, futuro_renamed) = match record.materialization {
        Materialization::NoteFile => match rotate_done_queue(
            store,
            project.as_str(),
            pending_work_identifier.as_str(),
            completed,
        ) {
            Ok(rotated) => rotated,
            Err(source) => return Err(CloseError::WriteStore(source)),
        },
        _ => (Vec::new(), false),
    };
    let review_item = if review {
        let range = match &commits_value {
            Some(ranges) => Some(ranges.as_str()),
            None => None,
        };
        match spawn_review(
            store,
            projects,
            project.as_str(),
            pending_work_identifier.as_str(),
            completed,
            range,
        ) {
            Ok(item) => Some(item),
            Err(e) => return Err(e),
        }
    } else {
        None
    };
    let mut closed = CompletedPendingWork {
        id: pending_work_identifier.clone(),
        project: project.clone(),
        title: record.title,
        action,
        evicted_ids,
        futuro_renamed_project: if futuro_renamed {
            Some(project.clone())
        } else {
            None
        },
        review_item,
        handoff: HandoffMutationOk::NotLinked,
    };
    match commit_after_pending_work(store, handoff_pending) {
        Ok(handoff) => {
            closed.handoff = handoff;
            Ok(closed)
        },
        Err(source) => Err(
            CloseError::HandoffAfterPendingWork {
                pending_work_identifier,
                completed: Box::new(closed),
                source,
            },
        ),
    }
}

} // verus!
