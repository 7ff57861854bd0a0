//! Writes a checked handoff change, then rebuilds the ledger, putting the document back when
//! the rebuild fails.
use vstd::prelude::*;

use crate::handoff::ledger::{rebuild, RebuildLedgerError};
use crate::handoff::lifecycle::preflight::{is_archive_move, is_reopen_move};
use crate::handoff::lifecycle::{
    handoff_directory, handoff_directory_of, handoff_path, handoff_path_of, join_path, links,
    path_join, CloseHandoffAction, MoveOutcome, PendingDelete, PendingHandoffMutation,
    PendingMove, PendingScaffold, StatusFilter,
};
use crate::handoff::ports::HandoffStore;
use crate::handoff::{
    handoff_message, HandoffDocument, HandoffDocumentIdentifier, HandoffError, HandoffLocation,
    HandoffMutationOk, HandoffScope, HandoffStatus,
};

verus! {

/// Where the ledger of a repository lives.
pub open spec fn ledger_path_of(root: Seq<char>) -> Seq<char> {
    path_join(handoff_directory_of(root, HandoffLocation::Active), "LEDGER.md"@)
}

/// Where a move puts its document.
pub open spec fn move_destination_of(m: PendingMove) -> Seq<char> {
    handoff_path_of(
        m.scope.repository_root@,
        m.snapshot.identifier.file_name@,
        match m.patch.location {
            Some(location) => location,
            None => m.snapshot.location,
        },
    )
}

/// The path a checked change touches, when it touches one.
pub open spec fn pending_path_of(mutation: PendingHandoffMutation) -> Option<Seq<char>> {
    match mutation {
        PendingHandoffMutation::Move(m) => Some(m.snapshot.locator@),
        PendingHandoffMutation::Delete(d) => Some(d.snapshot.locator@),
        PendingHandoffMutation::Create(c) => Some(c.path@),
        _ => None,
    }
}

/// The path a checked change touches, when it touches one.
pub fn pending_handoff_path(mutation: &PendingHandoffMutation) -> (r: Option<String>)
    ensures
        crate::pending_work::project_registry::opt_view(r) == pending_path_of(*mutation),
{
    match mutation {
        PendingHandoffMutation::Move(pending) => Some(pending.snapshot.locator.clone()),
        PendingHandoffMutation::Delete(pending) => Some(pending.snapshot.locator.clone()),
        PendingHandoffMutation::Create(pending) => Some(pending.path.clone()),
        PendingHandoffMutation::NotLinked => None,
        PendingHandoffMutation::AlreadyInTargetState => None,
    }
}

/// A ledger failure after a document write, with the adapter's error inside.
pub type CommitError<E> = HandoffError<LedgerOrStore<E>>;

/// An adapter failure, or a ledger rebuild failure, behind a handoff write.
#[derive(Debug)]
pub enum LedgerOrStore<E> {
    Store(E),
    Ledger(RebuildLedgerError<E>),
}

/// The ledger failure reported for a repository, at its ledger path.
pub fn map_ledger_error<E>(scope: &HandoffScope, source: RebuildLedgerError<E>) -> (r: CommitError<E>)
    ensures
        r matches HandoffError::RebuildLedger { path, source: s } && path@ == ledger_path_of(
            scope.repository_root@,
        ) && s == LedgerOrStore::Ledger(source),
{
    let directory = handoff_directory(scope, HandoffLocation::Active);
    HandoffError::RebuildLedger {
        path: join_path(directory.as_str(), "LEDGER.md"),
        source: LedgerOrStore::Ledger(source),
    }
}

/// Links a checked scaffold to its new pending-work item and writes it.
pub fn commit_scaffold<S: HandoffStore>(
    store: &S,
    pending: PendingScaffold,
    pending_work_identifier: &str,
) -> (r: Result<HandoffMutationOk, CommitError<S::Error>>)
    ensures
        r matches Ok(o) ==> o is Created,
        r matches Err(e) ==> (e matches HandoffError::WriteDocument { operation, path, source: _ }
            && operation@ == "create"@ && path@ == pending.path@) || (
        e matches HandoffError::RebuildLedger { path, source: _ } && path@ == ledger_path_of(
            pending.scope.repository_root@,
        )),
{
    let mut pending = pending;
    pending.document.pending_work_identifier = Some(pending_work_identifier.to_owned());
    commit_create(store, pending)
}

/// Writes a checked change; unlinked and already-settled changes write nothing.
pub fn commit_after_pending_work<S: HandoffStore>(
    store: &S,
    pending: PendingHandoffMutation,
) -> (r: Result<HandoffMutationOk, CommitError<S::Error>>)
    ensures
        pending is NotLinked ==> r matches Ok(HandoffMutationOk::NotLinked),
        pending is AlreadyInTargetState ==> r matches Ok(HandoffMutationOk::AlreadyInTargetState),
        pending matches PendingHandoffMutation::Create(c) ==> ((r matches Ok(o) ==> o is Created) && (
        r matches Err(e) ==> (e matches HandoffError::WriteDocument { operation, path, source: _ }
            && operation@ == "create"@ && path@ == c.path@) || (
        e matches HandoffError::RebuildLedger { path, source: _ } && path@ == ledger_path_of(
            c.scope.repository_root@,
        )))),
        pending matches PendingHandoffMutation::Move(m) ==> moved(m, r),
        pending matches PendingHandoffMutation::Delete(d) ==> deleted(d, r),
{
    match pending {
        PendingHandoffMutation::NotLinked => Ok(HandoffMutationOk::NotLinked),
        PendingHandoffMutation::AlreadyInTargetState => Ok(HandoffMutationOk::AlreadyInTargetState),
        PendingHandoffMutation::Create(pending) => commit_create(store, pending),
        PendingHandoffMutation::Move(pending) => commit_move(store, pending),
        PendingHandoffMutation::Delete(pending) => commit_delete(store, &pending),
    }
}

/// What a committed move reports: the destination on success, the destination when the
/// write fails, the ledger path when the rebuild fails.
pub open spec fn moved<E>(m: PendingMove, r: Result<HandoffMutationOk, CommitError<E>>) -> bool {
    let destination = move_destination_of(m);
    &&& r matches Ok(o) ==> match m.outcome {
        MoveOutcome::Archived => o matches HandoffMutationOk::Archived { path } && path@
            == destination,
        MoveOutcome::Reopened => o matches HandoffMutationOk::Reopened { path } && path@
            == destination,
    }
    &&& r matches Err(e) ==> (e matches HandoffError::WriteDocument { operation, path, source: _ }
        && path@ == destination && operation@ == match m.outcome {
        MoveOutcome::Archived => "archive"@,
        MoveOutcome::Reopened => "reopen"@,
    }) || (e matches HandoffError::RebuildLedger { path, source: _ } && path@ == ledger_path_of(
        m.scope.repository_root@,
    ))
}

/// What a committed deletion reports: the deleted document's path, or the ledger path when
/// the rebuild fails.
pub open spec fn deleted<E>(d: PendingDelete, r: Result<HandoffMutationOk, CommitError<E>>) -> bool {
    &&& r matches Ok(o) ==> o matches HandoffMutationOk::Removed { path } && path@
        == d.snapshot.locator@
    &&& r matches Err(e) ==> (e matches HandoffError::DeleteDocument { path, source: _ } && path@
        == d.snapshot.locator@) || (e matches HandoffError::RebuildLedger { path, source: _ }
        && path@ == ledger_path_of(d.scope.repository_root@))
}

/// Inserts the scaffold's document, then rebuilds the ledger, deleting the document again
/// when the rebuild fails.
pub fn commit_create<S: HandoffStore>(store: &S, pending: PendingScaffold) -> (r: Result<
    HandoffMutationOk,
    CommitError<S::Error>,
>)
    ensures
        r matches Ok(o) ==> o is Created,
        r matches Err(e) ==> (e matches HandoffError::WriteDocument { operation, path, source: _ }
            && operation@ == "create"@ && path@ == pending.path@) || (
        e matches HandoffError::RebuildLedger { path, source: _ } && path@ == ledger_path_of(
            pending.scope.repository_root@,
        )),
{
    let document = match store.insert_document(&pending.scope, pending.document) {
        Ok(document) => document,
        Err(source) => {
            return Err(
                HandoffError::WriteDocument {
                    operation: "create".to_owned(),
                    path: pending.path,
                    source: LedgerOrStore::Store(source),
                },
            );
        },
    };
    match rebuild(&pending.scope, store) {
        Ok(_) => Ok(HandoffMutationOk::Created { path: document.locator }),
        Err(source) => {
            let _ = store.delete_document(&pending.scope, &pending.identifier);
            Err(map_ledger_error(&pending.scope, source))
        },
    }
}

/// Applies the move's patch, then rebuilds the ledger, restoring the snapshot when the
/// rebuild fails.
pub fn commit_move<S: HandoffStore>(store: &S, pending: PendingMove) -> (r: Result<
    HandoffMutationOk,
    CommitError<S::Error>,
>)
    ensures
        moved(pending, r),
{
    let ghost m = pending;
    let destination_location = match pending.patch.location {
        Some(location) => location,
        None => pending.snapshot.location,
    };
    let destination = HandoffDocumentIdentifier {
        file_name: pending.snapshot.identifier.file_name.clone(),
        location: destination_location,
    };
    let destination_path = handoff_path(&pending.scope, &destination);
    let operation = match pending.outcome {
        MoveOutcome::Archived => "archive".to_owned(),
        MoveOutcome::Reopened => "reopen".to_owned(),
    };
    match store.update_document(&pending.scope, &pending.snapshot.identifier, pending.patch) {
        Ok(_) => {},
        Err(source) => {
            return Err(
                HandoffError::WriteDocument {
                    operation,
                    path: destination_path,
                    source: LedgerOrStore::Store(source),
                },
            );
        },
    }
    match rebuild(&pending.scope, store) {
        Ok(_) => {},
        Err(source) => {
            let _ = store.restore_document_after_move(&pending.scope, &pending.snapshot);
            return Err(map_ledger_error(&pending.scope, source));
        },
    }
    Ok(
        match pending.outcome {
            MoveOutcome::Archived => HandoffMutationOk::Archived { path: destination_path },
            MoveOutcome::Reopened => HandoffMutationOk::Reopened { path: destination_path },
        },
    )
}

/// Deletes the snapshot's document, then rebuilds the ledger, writing the document back when
/// the rebuild fails.
pub fn commit_delete<S: HandoffStore>(store: &S, pending: &PendingDelete) -> (r: Result<
    HandoffMutationOk,
    CommitError<S::Error>,
>)
    ensures
        deleted(*pending, r),
{
    let path = pending.snapshot.locator.clone();
    match store.delete_document(&pending.scope, &pending.snapshot.identifier) {
        Ok(_) => {},
        Err(source) => {
            return Err(
                HandoffError::DeleteDocument { path, source: LedgerOrStore::Store(source) },
            );
        },
    }
    match rebuild(&pending.scope, store) {
        Ok(_) => Ok(HandoffMutationOk::Removed { path }),
        Err(source) => {
            let _ = store.restore_document_after_delete(&pending.scope, &pending.snapshot);
            Err(map_ledger_error(&pending.scope, source))
        },
    }
}

/// Whether `r` is the message of the adapter failure inside `x`.
pub open spec fn reports_failure<E: std::fmt::Display>(x: &LedgerOrStore<E>, r: Seq<char>) -> bool {
    match x {
        LedgerOrStore::Store(e) => exists|m: String|
            #[trigger] vstd::string::to_string_from_display_ensures::<E>(e, m) && r == m@,
        LedgerOrStore::Ledger(RebuildLedgerError::ReadDocuments(e)) => exists|m: String|
            #[trigger] vstd::string::to_string_from_display_ensures::<E>(e, m) && r == m@,
        LedgerOrStore::Ledger(RebuildLedgerError::WriteLedger(e)) => exists|m: String|
            #[trigger] vstd::string::to_string_from_display_ensures::<E>(e, m) && r == m@,
    }
}

impl<E: std::fmt::Display> LedgerOrStore<E> {
    /// The message of the adapter failure inside.
    pub fn message(&self) -> (r: String)
        ensures
            reports_failure(self, r@),
    {
        match self {
            LedgerOrStore::Store(e) => e.to_string(),
            LedgerOrStore::Ledger(RebuildLedgerError::ReadDocuments(e)) => e.to_string(),
            LedgerOrStore::Ledger(RebuildLedgerError::WriteLedger(e)) => e.to_string(),
        }
    }
}

/// Whether `r` is the message of a failure after a handoff write.
pub open spec fn commit_reports<E: std::fmt::Display>(h: &CommitError<E>, r: Seq<char>) -> bool {
    match h {
        HandoffError::ReadPendingWork { source } => reports_failure(source, r),
        HandoffError::ReadDocuments { source, .. } => reports_failure(source, r),
        HandoffError::WriteDocument { source, .. } => reports_failure(source, r),
        HandoffError::DeleteDocument { source, .. } => reports_failure(source, r),
        HandoffError::RebuildLedger { source, .. } => reports_failure(source, r),
        _ => r == handoff_message(*h, Seq::empty()),
    }
}

impl<E: std::fmt::Display> HandoffError<LedgerOrStore<E>> {
    /// The message of a failure after a handoff write: the adapter failure's own message for
    /// the failures that carry one.
    pub fn commit_message(&self) -> (r: String)
        ensures
            commit_reports(self, r@),
    {
        match self {
            HandoffError::ReadPendingWork { source } => source.message(),
            HandoffError::ReadDocuments { source, .. } => source.message(),
            HandoffError::WriteDocument { source, .. } => source.message(),
            HandoffError::DeleteDocument { source, .. } => source.message(),
            HandoffError::RebuildLedger { source, .. } => source.message(),
            _ => {
                let r = self.message_with("");
                proof {
                    reveal_strlit("");
                }
                r
            },
        }
    }
}

/// Reopening undoes the move of a close: the document a close archives is found by the
/// reopen lookup (archived, not active, still linked to the item), and the move reopening
/// it plans puts it back at the active path the close took it from, active again and
/// without a completion date.
pub proof fn lemma_reopen_restores_what_close_archived(
    close: PendingMove,
    archived: HandoffDocument,
    reopen: PendingMove,
    id: Seq<char>,
    action: CloseHandoffAction,
    completed: Seq<char>,
    report: Seq<char>,
)
    requires
        is_archive_move(close, id, close.scope.repository_root@, action, completed, report),
        archived.identifier.file_name == close.snapshot.identifier.file_name,
        Some(archived.location) == close.patch.location,
        archived.status == close.patch.status,
        archived.pending_work_identifier_raw == close.snapshot.pending_work_identifier_raw,
        reopen.snapshot == archived,
        reopen.scope == close.scope,
        is_reopen_move(reopen, id, reopen.scope.repository_root@),
    ensures
        links(archived, id, HandoffLocation::Archived, StatusFilter::NotActive),
        move_destination_of(close) == handoff_path_of(
            close.scope.repository_root@,
            close.snapshot.identifier.file_name@,
            HandoffLocation::Archived,
        ),
        move_destination_of(reopen) == handoff_path_of(
            close.scope.repository_root@,
            close.snapshot.identifier.file_name@,
            close.snapshot.location,
        ),
        reopen.patch.status == Some(HandoffStatus::Active),
        reopen.patch.completed == Some(None::<String>),
{
}

} // verus!
