//! Removes one open pending-work item, its index link and its linked handoff, after the
//! caller confirms.
use vstd::prelude::*;

use crate::handoff::handoff_reports;
use crate::handoff::lifecycle::commit::commit_reports;
use crate::handoff::lifecycle::commit::{commit_after_pending_work, pending_handoff_path, CommitError};
use crate::handoff::lifecycle::preflight::preflight_delete;
use crate::handoff::ports::HandoffStore;
use crate::handoff::{HandoffError, HandoffMutationOk};
use crate::pending_work::done::IndexStore;
use crate::pending_work::find::{find_open_item, FindPendingWorkError, PendingWorkStore};
use crate::pending_work::find::{not_found_message, not_found_text, unknown_prefix_message, unknown_prefix_text};
use crate::pending_work::identifier::{parse, parse_id};
use crate::pending_work::project_registry::{id_prefix, id_prefix_of, prefix_is, ProjectRegistry};
use crate::ports::{Materialization, WorkItemStatus};
use crate::text::{display_text, displays};

verus! {

/// Describes the note and index link deleted by a removal.
#[derive(Debug, Clone, PartialEq, Eq)]
pub struct RemovedItem {
    /// Canonical identifier of the deleted item.
    pub id: String,
    /// Managed project that contained the item.
    pub project: String,
    /// Title of the deleted item.
    pub title: String,
    /// Path of the deleted item note.
    pub deleted_path: String,
    /// Index note from which the item link was removed.
    pub unlinked: String,
    pub handoff: HandoffMutationOk,
}

/// Requests removal of one open item.
#[derive(Debug, Clone)]
pub struct RemovePendingWorkItem {
    pub id: String,
}

/// What the caller is asked to confirm before anything is deleted.
#[derive(Debug, Clone, PartialEq, Eq)]
pub struct RemovalConfirmation {
    pub pending_work_identifier: String,
    pub project: String,
    pub title: String,
    pub note_path: String,
    pub handoff_path: Option<String>,
}

/// Asks the person running a removal to confirm it.
pub trait RemovalInteraction {
    fn confirm(&self, confirmation: &RemovalConfirmation) -> bool;
}

/// Whether a removal went ahead.
#[derive(Debug, Clone, PartialEq, Eq)]
pub enum RemovePendingWorkOutcome {
    Removed(RemovedItem),
    Aborted { pending_work_identifier: String },
}

/// Why a removal failed; `E` is the storage adapter's error.
#[derive(Debug)]
pub enum RemovePendingWorkError<E> {
    ItemNotFound { id: String },
    /// A canonical identifier whose prefix has no configured project.
    UnknownPrefix { pending_work_identifier: String, prefix: String },
    NoteMissing { path: String },
    /// The item is a legacy inline entry.
    FileModelRequired,
    WriteStore(E),
    HandoffPreflight(HandoffError<E>),
    HandoffAfterPendingWork { pending_work_identifier: String, source: CommitError<E> },
}

/// Deletes an open item after unlinking its index entry; nothing is deleted unless the
/// interaction confirms, and an unlink failure leaves the note untouched.
pub fn execute<S, I>(
    cmd: &RemovePendingWorkItem,
    store: &S,
    projects: &ProjectRegistry,
    interaction: &I,
) -> (r: Result<RemovePendingWorkOutcome, RemovePendingWorkError<<S as HandoffStore>::Error>>) where
    S: HandoffStore + PendingWorkStore<Error = <S as HandoffStore>::Error> + IndexStore<
        Error = <S as HandoffStore>::Error,
    >,
    I: RemovalInteraction,

    ensures
        parse_id(cmd.id@) matches Some(id) ==> ({
            &&& projects.rows().filter(prefix_is(id_prefix(id))).len() == 0 ==> (r matches Err(
                RemovePendingWorkError::UnknownPrefix { pending_work_identifier: x, prefix },
            ) && x@ == id && prefix@ == id_prefix(id))
            &&& r matches Ok(RemovePendingWorkOutcome::Removed(item)) ==> (item.id@ == id
                && item.project@ == projects.rows().filter(prefix_is(id_prefix(id)))[0].0)
            &&& r matches Ok(RemovePendingWorkOutcome::Aborted { pending_work_identifier: x })
                ==> x@ == id
        }),
        parse_id(cmd.id@) is None ==> (r is Err && (r matches Err(e) ==> (e is FileModelRequired
            || e is WriteStore || e is ItemNotFound))),
{
    let pending_work_identifier = match parse(cmd.id.as_str()) {
        Some(id) => id,
        None => {
            return match find_open_item(store, projects, cmd.id.as_str()) {
                Ok(_) => Err(RemovePendingWorkError::FileModelRequired),
                Err(FindPendingWorkError::ReadStore(source)) => Err(
                    RemovePendingWorkError::WriteStore(source),
                ),
                Err(_) => Err(RemovePendingWorkError::ItemNotFound { id: cmd.id.clone() }),
            };
        },
    };
    let prefix = id_prefix_of(pending_work_identifier.as_str());
    let project = match projects.project_for_id(pending_work_identifier.as_str()) {
        Some(project) => project,
        None => {
            return Err(
                RemovePendingWorkError::UnknownPrefix { pending_work_identifier, prefix },
            );
        },
    };
    let record = match store.get_item(project.as_str(), pending_work_identifier.as_str()) {
        Err(source) => return Err(RemovePendingWorkError::WriteStore(source)),
        Ok(None) => {
            return Err(RemovePendingWorkError::ItemNotFound { id: pending_work_identifier });
        },
        Ok(Some(record)) => record,
    };
    match record.status {
        WorkItemStatus::Active => {},
        _ => return Err(RemovePendingWorkError::ItemNotFound { id: cmd.id.clone() }),
    }
    let note_path = match &record.materialization {
        Materialization::NoteFile => record.locator.clone(),
        Materialization::MissingNote { expected } => {
            return Err(RemovePendingWorkError::NoteMissing { path: expected.clone() });
        },
        Materialization::InlineLegacy => return Err(RemovePendingWorkError::FileModelRequired),
    };
    let handoff_pending = match preflight_delete(store, projects, pending_work_identifier.as_str()) {
        Ok(pending) => pending,
        Err(e) => return Err(RemovePendingWorkError::HandoffPreflight(e)),
    };
    let confirmation = RemovalConfirmation {
        pending_work_identifier: pending_work_identifier.clone(),
        project: project.clone(),
        title: record.title.clone(),
        note_path: note_path.clone(),
        handoff_path: pending_handoff_path(&handoff_pending),
    };
    if !interaction.confirm(&confirmation) {
        return Ok(RemovePendingWorkOutcome::Aborted { pending_work_identifier });
    }
    match IndexStore::delete_entry(store, project.as_str(), pending_work_identifier.as_str()) {
        Ok(_) => {},
        Err(source) => return Err(RemovePendingWorkError::WriteStore(source)),
    }
    match PendingWorkStore::delete_item(store, project.as_str(), pending_work_identifier.as_str()) {
        Ok(_) => {},
        Err(source) => return Err(RemovePendingWorkError::WriteStore(source)),
    }
    let unlinked = match &record.placement {
        Some(placement) => placement.index_path.clone(),
        None => String::new(),
    };
    let handoff = match commit_after_pending_work(store, handoff_pending) {
        Ok(handoff) => handoff,
        Err(source) => {
            return Err(
                RemovePendingWorkError::HandoffAfterPendingWork { pending_work_identifier, source },
            );
        },
    };
    Ok(
        RemovePendingWorkOutcome::Removed(
            RemovedItem {
                id: pending_work_identifier,
                project: project.clone(),
                title: record.title,
                deleted_path: note_path,
                unlinked,
                handoff,
            },
        ),
    )
}

impl<E: std::fmt::Display> RemovePendingWorkError<E> {
    /// The message this failure is reported with.
    pub fn message(&self) -> (r: String)
        ensures
            match self {
                RemovePendingWorkError::ItemNotFound { id } => r@ == not_found_text(id@),
                RemovePendingWorkError::UnknownPrefix { pending_work_identifier, prefix } => r@
                    == unknown_prefix_text(prefix@, pending_work_identifier@),
                RemovePendingWorkError::NoteMissing { path } => r@ == "Work-item note missing: "@ + path@,
                RemovePendingWorkError::FileModelRequired => r@
                    == "remove only supports file-model pending-work items."@,
                RemovePendingWorkError::WriteStore(e) => displays(e, r@),
                RemovePendingWorkError::HandoffPreflight(h) => handoff_reports(h, r@),
                RemovePendingWorkError::HandoffAfterPendingWork { pending_work_identifier: _, source } => commit_reports(source, r@),
            },
    {
        match self {
            RemovePendingWorkError::ItemNotFound { id } => not_found_message(id.as_str()),
            RemovePendingWorkError::UnknownPrefix { pending_work_identifier, prefix } => unknown_prefix_message(
                prefix.as_str(),
                pending_work_identifier.as_str(),
            ),
            RemovePendingWorkError::NoteMissing { path } => crate::text::concat(
                "Work-item note missing: ",
                path.as_str(),
            ),
            RemovePendingWorkError::FileModelRequired => {
                "remove only supports file-model pending-work items.".to_owned()
            },
            RemovePendingWorkError::WriteStore(e) => display_text(e),
            RemovePendingWorkError::HandoffPreflight(h) => h.message(),
            RemovePendingWorkError::HandoffAfterPendingWork { pending_work_identifier: _, source } => source.commit_message(),
        }
    }
}

} // verus!
