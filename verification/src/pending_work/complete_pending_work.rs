//! The request to close one open item as done on an optional date, and what it reports.
use vstd::prelude::*;

use crate::handoff::ports::HandoffStore;
use crate::pending_work::add::{AddPendingWorkItemOk, AddedItem};
use crate::pending_work::close::{perform_close, project_of_id, report_of};
use crate::pending_work::done::{CompletePendingWorkError, IndexStore};
use crate::pending_work::find::PendingWorkStore;
use crate::pending_work::identifier::work_item_id_of;
use crate::pending_work::project_registry::{id_prefix, ProjectRegistry};
use crate::ports::Clock;
pub use crate::pending_work::done::ClosedItemAction;

verus! {

/// Requests that one open item be closed as done, on `date` or today.
#[derive(Debug, Clone)]
pub struct CompletePendingWork {
    pub id: String,
    pub date: Option<String>,
    pub report: Option<String>,
    pub commits: Vec<String>,
    pub review: bool,
}

/// A closed item's identity and queue side effects.
#[derive(Debug, Clone, PartialEq, Eq)]
pub struct CompletePendingWorkOk {
    pub id: String,
    pub project: String,
    pub title: String,
    pub action: ClosedItemAction,
    pub evicted_ids: Vec<String>,
    pub futuro_renamed_project: Option<String>,
    pub review_item: Option<AddPendingWorkItemOk>,
}

/// The review item of a close, without its handoff side effect.
fn review_summary(item: AddedItem) -> (r: AddPendingWorkItemOk)
    ensures
        r.id == item.id,
        r.project == item.project,
        r.title == item.title,
        r.note_path == item.note_path,
        r.created_section == item.created_section,
        r.title_normalized == item.title_normalized,
{
    AddPendingWorkItemOk {
        id: item.id,
        project: item.project,
        title: item.title,
        note_path: item.note_path,
        created_section: item.created_section,
        title_normalized: item.title_normalized,
    }
}

/// Closes one open item as done on the requested date, or today when none is given: the
/// status, date, report and commit ranges are recorded in one patch, the done queue of a
/// note-backed item rotates, and a review item is filed when asked.
pub fn execute<S, C: Clock>(
    command: &CompletePendingWork,
    store: &S,
    projects: &ProjectRegistry,
    clock: &C,
) -> (r: Result<CompletePendingWorkOk, CompletePendingWorkError<<S as HandoffStore>::Error>>) where
    S: HandoffStore + PendingWorkStore<Error = <S as HandoffStore>::Error> + IndexStore<
        Error = <S as HandoffStore>::Error,
    >,

    ensures
        work_item_id_of(command.id@) is None ==> (r matches Err(
            CompletePendingWorkError::ItemNotFound { id: x },
        ) && x@ == command.id@),
        work_item_id_of(command.id@) matches Some(canonical) ==> ({
            &&& project_of_id(projects.rows(), canonical) is None ==> (r matches Err(
                CompletePendingWorkError::UnknownPrefix { pending_work_identifier: x, prefix },
            ) && x@ == canonical && prefix@ == id_prefix(canonical))
            &&& r matches Ok(ok) ==> (project_of_id(projects.rows(), canonical) matches Some(p)
                && ok.id@ == canonical && ok.project@ == p && ok.action == ClosedItemAction::Done
                && (ok.review_item is Some <==> command.review) && (ok.review_item matches Some(
                item,
            ) ==> item.project@ == p && !item.title_normalized) && (ok.futuro_renamed_project matches Some(
                q,
            ) ==> q@ == p))
            &&& r matches Err(CompletePendingWorkError::ItemNotFound { id: x }) ==> x@ == canonical
        }),
        r matches Err(CompletePendingWorkError::EmptyReport) ==> (command.report matches Some(t)
            && report_of(t@) is None),
        command.report matches Some(t) && report_of(t@) is None ==> !(r is Ok),
{
    let completed = match &command.date {
        Some(date) => date.clone(),
        None => clock.today(),
    };
    let report = match &command.report {
        Some(text) => Some(text.as_str()),
        None => None,
    };
    match perform_close(
        store,
        projects,
        ClosedItemAction::Done,
        command.id.as_str(),
        completed.as_str(),
        report,
        &command.commits,
        command.review,
    ) {
        Ok(closed) => {
            let review_item = match closed.review_item {
                Some(item) => Some(review_summary(item)),
                None => None,
            };
            Ok(
                CompletePendingWorkOk {
                    id: closed.id,
                    project: closed.project,
                    title: closed.title,
                    action: closed.action,
                    evicted_ids: closed.evicted_ids,
                    futuro_renamed_project: closed.futuro_renamed_project,
                    review_item,
                },
            )
        },
        Err(e) => Err(e.into_complete()),
    }
}

} // verus!
