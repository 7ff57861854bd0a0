//! Removes one open note-backed item and its index link, without asking and without
//! touching handoffs.
use vstd::prelude::*;

use crate::handoff::HandoffMutationOk;
use crate::pending_work::close::project_of_id;
use crate::pending_work::done::IndexStore;
use crate::pending_work::find::{not_found_message, not_found_text, PendingWorkStore};
use crate::pending_work::identifier::{try_work_item_id, work_item_id_of};
use crate::pending_work::project_registry::ProjectRegistry;
use crate::pending_work::remove_pending_work_item::RemovedItem;
use crate::ports::{Materialization, WorkItemStatus};
use crate::text::{concat, display_text, displays};

verus! {

/// Requests removal of one open item.
#[derive(Debug, Clone)]
pub struct RemovePendingWorkItem {
    pub id: String,
}

/// Why a removal failed; `E` is the storage adapter's error.
#[derive(Debug)]
pub enum RemovePendingWorkError<E> {
    /// No open item has the identifier.
    ItemNotFound { id: String },
    /// The item's note file is missing.
    NoteMissing { path: String },
    WriteStore(E),
}

/// Deletes an open item after unlinking its index entry. An identifier that is not canonical,
/// has no configured project, names no record or names a closed one is not found; a record
/// whose note is missing is refused. An unlink failure leaves the note untouched.
pub fn execute<S>(cmd: &RemovePendingWorkItem, store: &S, projects: &ProjectRegistry) -> (r: Result<
    RemovedItem,
    RemovePendingWorkError<<S as PendingWorkStore>::Error>,
>) where S: PendingWorkStore + IndexStore<Error = <S as PendingWorkStore>::Error>,

    ensures
        work_item_id_of(cmd.id@) is None ==> (r matches Err(RemovePendingWorkError::ItemNotFound { id })
            && id@ == cmd.id@),
        work_item_id_of(cmd.id@) matches Some(canonical) ==> ({
            &&& project_of_id(projects.rows(), canonical) is None ==> (r matches Err(
                RemovePendingWorkError::ItemNotFound { id },
            ) && id@ == cmd.id@)
            &&& r matches Ok(item) ==> (item.id@ == canonical && project_of_id(
                projects.rows(),
                canonical,
            ) == Some(item.project@) && item.handoff is NotLinked)
            &&& r matches Err(RemovePendingWorkError::ItemNotFound { id }) ==> (id@ == cmd.id@
                || id@ == canonical)
        }),
{
    let id = match try_work_item_id(cmd.id.as_str()) {
        Some(id) => id,
        None => return Err(RemovePendingWorkError::ItemNotFound { id: cmd.id.clone() }),
    };
    let project = match projects.project_for_id(id.as_str()) {
        Some(project) => project.clone(),
        None => return Err(RemovePendingWorkError::ItemNotFound { id: cmd.id.clone() }),
    };
    let record = match store.get_item(project.as_str(), id.as_str()) {
        Ok(Some(record)) => record,
        Ok(None) => return Err(RemovePendingWorkError::ItemNotFound { id }),
        Err(source) => return Err(RemovePendingWorkError::WriteStore(source)),
    };
    match record.status {
        WorkItemStatus::Active => {},
        _ => return Err(RemovePendingWorkError::ItemNotFound { id: cmd.id.clone() }),
    }
    match &record.materialization {
        Materialization::MissingNote { expected } => {
            return Err(RemovePendingWorkError::NoteMissing { path: expected.clone() });
        },
        _ => {},
    }
    match store.delete_entry(project.as_str(), id.as_str()) {
        Ok(_) => {},
        Err(source) => return Err(RemovePendingWorkError::WriteStore(source)),
    }
    match store.delete_item(project.as_str(), id.as_str()) {
        Ok(_) => {},
        Err(source) => return Err(RemovePendingWorkError::WriteStore(source)),
    }
    let unlinked = match record.placement {
        Some(placement) => placement.index_path,
        None => String::new(),
    };
    Ok(
        RemovedItem {
            id,
            project,
            title: record.title,
            deleted_path: record.locator,
            unlinked,
            handoff: HandoffMutationOk::NotLinked,
        },
    )
}

impl<E: std::fmt::Display> RemovePendingWorkError<E> {
    /// The message this failure is reported with.
    pub fn message(&self) -> (r: String)
        ensures
            match self {
                RemovePendingWorkError::ItemNotFound { id } => r@ == not_found_text(id@),
                RemovePendingWorkError::NoteMissing { path } => r@ == "Work-item note missing: "@
                    + path@,
                RemovePendingWorkError::WriteStore(e) => displays(e, r@),
            },
    {
        match self {
            RemovePendingWorkError::ItemNotFound { id } => not_found_message(id.as_str()),
            RemovePendingWorkError::NoteMissing { path } => concat(
                "Work-item note missing: ",
                path.as_str(),
            ),
            RemovePendingWorkError::WriteStore(e) => display_text(e),
        }
    }
}

} // verus!
