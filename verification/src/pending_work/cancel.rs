//! Cancels one open item with a report of why.
use vstd::prelude::*;

use crate::handoff::HandoffError;
use crate::handoff::handoff_reports;
use crate::handoff::lifecycle::commit::CommitError;
use crate::handoff::lifecycle::commit::commit_reports;
use crate::handoff::ports::HandoffStore;
use crate::pending_work::add::AddPendingWorkError;
use crate::pending_work::add::add_reports;
use crate::pending_work::close::{closed_as, perform_close, project_of_id, report_of, CloseError};
use crate::pending_work::done::{ClosedItemAction, CompletedPendingWork, IndexStore};
use crate::pending_work::find::PendingWorkStore;
use crate::pending_work::find::{not_found_message, not_found_text, unknown_prefix_message, unknown_prefix_text};
use crate::pending_work::identifier::work_item_id_of;
use crate::pending_work::project_registry::{id_prefix, ProjectRegistry};
use crate::ports::Clock;
use crate::text::{display_text, displays};

verus! {

/// Requests that one open item be closed as cancelled, with a report of why.
#[derive(Debug, Clone)]
pub struct CancelPendingWork {
    pub id: String,
    pub date: Option<String>,
    report: String,
    pub commits: Vec<String>,
    pub review: bool,
}

impl CancelPendingWork {
    /// Builds a cancel request.
    pub fn new(
        id: String,
        date: Option<String>,
        report: String,
        commits: Vec<String>,
        review: bool,
    ) -> (r: Self)
        ensures
            r.fields() == (id, date, report, commits, review),
    {
        CancelPendingWork { id, date, report, commits, review }
    }

    /// Identifier, date, report, commits and review flag.
    pub closed spec fn fields(&self) -> (String, Option<String>, String, Vec<String>, bool) {
        (self.id, self.date, self.report, self.commits, self.review)
    }

    /// The cancellation report.
    pub fn report_text(&self) -> (r: &str)
        ensures
            r@ == self.fields().2@,
    {
        self.report.as_str()
    }
}

/// Why a cancel failed; `E` is the storage adapter's error.
#[derive(Debug)]
pub enum CancelPendingWorkError<E> {
    EmptyReport,
    ItemNotFound { id: String },
    /// A canonical identifier whose prefix has no configured project.
    UnknownPrefix { pending_work_identifier: String, prefix: String },
    WriteStore(E),
    ReviewTask(AddPendingWorkError<E>),
    HandoffPreflight(HandoffError<E>),
    HandoffAfterPendingWork {
        pending_work_identifier: String,
        completed: Box<CompletedPendingWork>,
        source: CommitError<E>,
    },
}

/// A close failure reported as a cancel failure: the same variant with the same fields.
pub open spec fn as_cancel_error<E>(e: CloseError<E>) -> CancelPendingWorkError<E> {
    match e {
        CloseError::ItemNotFound { id } => CancelPendingWorkError::ItemNotFound { id },
        CloseError::UnknownPrefix { pending_work_identifier, prefix } => {
            CancelPendingWorkError::UnknownPrefix { pending_work_identifier, prefix }
        },
        CloseError::EmptyReport => CancelPendingWorkError::EmptyReport,
        CloseError::WriteStore(source) => CancelPendingWorkError::WriteStore(source),
        CloseError::ReviewTask(source) => CancelPendingWorkError::ReviewTask(source),
        CloseError::HandoffPreflight(source) => CancelPendingWorkError::HandoffPreflight(source),
        CloseError::HandoffAfterPendingWork { pending_work_identifier, completed, source } => {
            CancelPendingWorkError::HandoffAfterPendingWork {
                pending_work_identifier,
                completed,
                source,
            }
        },
    }
}

/// Reports a close failure as a cancel failure.
pub fn map_close_error<E>(error: CloseError<E>) -> (r: CancelPendingWorkError<E>)
    ensures
        r == as_cancel_error(error),
{
    match error {
        CloseError::ItemNotFound { id } => CancelPendingWorkError::ItemNotFound { id },
        CloseError::UnknownPrefix { pending_work_identifier, prefix } => {
            CancelPendingWorkError::UnknownPrefix { pending_work_identifier, prefix }
        },
        CloseError::EmptyReport => CancelPendingWorkError::EmptyReport,
        CloseError::WriteStore(source) => CancelPendingWorkError::WriteStore(source),
        CloseError::ReviewTask(source) => CancelPendingWorkError::ReviewTask(source),
        CloseError::HandoffPreflight(source) => CancelPendingWorkError::HandoffPreflight(source),
        CloseError::HandoffAfterPendingWork { pending_work_identifier, completed, source } => {
            CancelPendingWorkError::HandoffAfterPendingWork {
                pending_work_identifier,
                completed,
                source,
            }
        },
    }
}

/// Cancels one open item on the requested date, or today when none was given, appending
/// the report; see [`perform_close`].
pub fn execute<S, C: Clock>(
    command: &CancelPendingWork,
    store: &S,
    projects: &ProjectRegistry,
    clock: &C,
) -> (r: Result<CompletedPendingWork, CancelPendingWorkError<<S as HandoffStore>::Error>>) where
    S: HandoffStore + PendingWorkStore<Error = <S as HandoffStore>::Error> + IndexStore<
        Error = <S as HandoffStore>::Error,
    >,

    ensures
        work_item_id_of(command.fields().0@) is None ==> (r matches Err(
            CancelPendingWorkError::ItemNotFound { id: x },
        ) && x@ == command.fields().0@),
        work_item_id_of(command.fields().0@) matches Some(canonical) ==> ({
            &&& project_of_id(projects.rows(), canonical) is None ==> (r matches Err(
                CancelPendingWorkError::UnknownPrefix { pending_work_identifier: x, prefix },
            ) && x@ == canonical && prefix@ == id_prefix(canonical))
            &&& r matches Ok(c) ==> (project_of_id(projects.rows(), canonical) matches Some(p)
                && closed_as(c, canonical, p, ClosedItemAction::Cancelled, command.fields().4))
            &&& r matches Err(CancelPendingWorkError::ItemNotFound { id: x }) ==> x@ == canonical
        }),
        r matches Err(CancelPendingWorkError::EmptyReport) ==> report_of(command.fields().2@) is None,
        report_of(command.fields().2@) is None ==> !(r is Ok),
{
    let authored_date = match &command.date {
        Some(date) => date.clone(),
        None => clock.today(),
    };
    match perform_close(
        store,
        projects,
        ClosedItemAction::Cancelled,
        command.id.as_str(),
        authored_date.as_str(),
        Some(command.report.as_str()),
        &command.commits,
        command.review,
    ) {
        Ok(closed) => Ok(closed),
        Err(e) => Err(map_close_error(e)),
    }
}

impl<E: std::fmt::Display> CancelPendingWorkError<E> {
    /// The message this failure is reported with.
    pub fn message(&self) -> (r: String)
        ensures
            match self {
                CancelPendingWorkError::ItemNotFound { id } => r@ == not_found_text(id@),
                CancelPendingWorkError::UnknownPrefix { pending_work_identifier, prefix } => r@
                    == unknown_prefix_text(prefix@, pending_work_identifier@),
                CancelPendingWorkError::EmptyReport => r@ == "--report cannot be empty."@,
                CancelPendingWorkError::ReviewTask(a) => add_reports(a, r@),
                CancelPendingWorkError::WriteStore(e) => displays(e, r@),
                CancelPendingWorkError::HandoffPreflight(h) => handoff_reports(h, r@),
                CancelPendingWorkError::HandoffAfterPendingWork { pending_work_identifier: _, completed: _, source } => commit_reports(source, r@),
            },
    {
        match self {
            CancelPendingWorkError::ItemNotFound { id } => not_found_message(id.as_str()),
            CancelPendingWorkError::UnknownPrefix { pending_work_identifier, prefix } => unknown_prefix_message(
                prefix.as_str(),
                pending_work_identifier.as_str(),
            ),
            CancelPendingWorkError::EmptyReport => "--report cannot be empty.".to_owned(),
            CancelPendingWorkError::ReviewTask(a) => a.message(),
            CancelPendingWorkError::WriteStore(e) => display_text(e),
            CancelPendingWorkError::HandoffPreflight(h) => h.message(),
            CancelPendingWorkError::HandoffAfterPendingWork { pending_work_identifier: _, completed: _, source } => source.commit_message(),
        }
    }
}

} // verus!
