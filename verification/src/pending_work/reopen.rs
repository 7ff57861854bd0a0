//! Reopens a closed item, restoring or re-adding its index link and its linked handoff.
use vstd::prelude::*;

use crate::handoff::handoff_reports;
use crate::handoff::lifecycle::commit::commit_reports;
use crate::handoff::lifecycle::commit::{commit_after_pending_work, CommitError};
use crate::handoff::lifecycle::preflight::preflight_reopen;
use crate::handoff::ports::HandoffStore;
use crate::handoff::{HandoffError, HandoffMutationOk};
use crate::pending_work::close::project_of_id;
use crate::pending_work::done::IndexStore;
use crate::pending_work::find::{ItemPatch, PendingWorkStore};
use crate::pending_work::find::{not_found_message, not_found_text, unknown_prefix_message, unknown_prefix_text};
use crate::pending_work::identifier::{try_work_item_id, work_item_id_of};
use crate::pending_work::project_registry::{id_prefix, id_prefix_of, prefix_is, ProjectRegistry};
use crate::ports::{IndexEntry, IndexEntryState, WorkItemStatus};
use crate::text::str_eq;
use crate::text::{display_text, displays};

verus! {

/// Requests that one closed item be reopened.
#[derive(Debug, Clone)]
pub struct ReopenPendingWork {
    pub id: String,
}

/// Contains the outcome of reopening a closed item.
#[derive(Debug, Clone, PartialEq, Eq)]
pub struct ReopenedPendingWork {
    pub id: String,
    pub project: String,
    /// Indicates an idempotent skip with no mutation.
    pub already_active: bool,
    pub handoff: HandoffMutationOk,
}

/// Why a reopen failed; `E` is the storage adapter's error.
#[derive(Debug)]
pub enum ReopenPendingWorkError<E> {
    ItemNotFound { id: String },
    /// A canonical identifier whose prefix has no configured project.
    UnknownPrefix { pending_work_identifier: String, prefix: String },
    WriteStore(E),
    HandoffPreflight(HandoffError<E>),
    HandoffAfterPendingWork { pending_work_identifier: String, source: CommitError<E> },
}

/// What reopening does to the item's index link.
#[derive(Debug, Clone, Copy, PartialEq, Eq, Structural)]
pub enum ReopenDecision {
    /// The link is checked off: open it again.
    RestoreExisting,
    /// The link was evicted: add it again.
    ReAddEvicted,
    /// The link is already open.
    AlreadyOpen,
}

/// The decision for the first link of `id` in index order.
pub open spec fn reopen_decision_of(entries: Seq<IndexEntry>, id: Seq<char>) -> ReopenDecision
    decreases entries.len(),
{
    if entries.len() == 0 {
        ReopenDecision::ReAddEvicted
    } else if entries[0].id@ == id {
        match entries[0].state {
            IndexEntryState::Open => ReopenDecision::AlreadyOpen,
            IndexEntryState::Done(_) => ReopenDecision::RestoreExisting,
        }
    } else {
        reopen_decision_of(entries.drop_first(), id)
    }
}

/// Decides how reopening `id` restores its index link.
pub fn reopen_decision(entries: &Vec<IndexEntry>, id: &str) -> (r: ReopenDecision)
    ensures
        r == reopen_decision_of(entries@, id@),
{
    let mut i: usize = 0;
    assert(entries@.skip(0) =~= entries@);
    while i < entries.len()
        invariant
            i <= entries.len(),
            reopen_decision_of(entries@, id@) == reopen_decision_of(entries@.skip(i as int), id@),
        decreases entries.len() - i,
    {
        proof {
            assert(entries@.skip(i as int)[0] == entries@[i as int]);
            assert(entries@.skip(i as int).drop_first() =~= entries@.skip(i + 1));
        }
        if str_eq(entries[i].id.as_str(), id) {
            return match entries[i].state {
                IndexEntryState::Open => ReopenDecision::AlreadyOpen,
                IndexEntryState::Done(_) => ReopenDecision::RestoreExisting,
            };
        }
        i = i + 1;
    }
    ReopenDecision::ReAddEvicted
}

/// Reopens a closed item: clears its completion date and commits, restores or re-adds its
/// open index link and restores its archived handoff. An active item is an idempotent skip.
pub fn execute<S>(cmd: &ReopenPendingWork, store: &S, projects: &ProjectRegistry) -> (r: Result<
    ReopenedPendingWork,
    ReopenPendingWorkError<<S as HandoffStore>::Error>,
>) where
    S: HandoffStore + PendingWorkStore<Error = <S as HandoffStore>::Error> + IndexStore<
        Error = <S as HandoffStore>::Error,
    >,

    ensures
        work_item_id_of(cmd.id@) is None ==> (r matches Err(ReopenPendingWorkError::ItemNotFound { id })
            && id@ == cmd.id@),
        work_item_id_of(cmd.id@) matches Some(id) ==> ({
            &&& projects.rows().filter(prefix_is(id_prefix(id))).len() == 0 ==> (r matches Err(
                ReopenPendingWorkError::UnknownPrefix { pending_work_identifier: x, prefix },
            ) && x@ == id && prefix@ == id_prefix(id))
            &&& r matches Ok(reopened) ==> (reopened.id@ == id && project_of_id(projects.rows(), id)
                == Some(reopened.project@))
        }),
{
    let pending_work_identifier = match try_work_item_id(cmd.id.as_str()) {
        Some(id) => id,
        None => return Err(ReopenPendingWorkError::ItemNotFound { id: cmd.id.clone() }),
    };
    let prefix = id_prefix_of(pending_work_identifier.as_str());
    let project = match projects.project_for_id(pending_work_identifier.as_str()) {
        Some(project) => project,
        None => {
            return Err(
                ReopenPendingWorkError::UnknownPrefix { pending_work_identifier, prefix },
            );
        },
    };
    let record = match store.get_item(project.as_str(), pending_work_identifier.as_str()) {
        Err(source) => return Err(ReopenPendingWorkError::WriteStore(source)),
        Ok(None) => {
            return Err(ReopenPendingWorkError::ItemNotFound { id: pending_work_identifier });
        },
        Ok(Some(record)) => record,
    };
    let handoff_pending = match preflight_reopen(store, projects, pending_work_identifier.as_str()) {
        Ok(pending) => pending,
        Err(e) => return Err(ReopenPendingWorkError::HandoffPreflight(e)),
    };
    let already_active = match record.status {
        WorkItemStatus::Active => true,
        _ => false,
    };
    if !already_active {
        match store.update_item(
            project.as_str(),
            pending_work_identifier.as_str(),
            ItemPatch {
                status: Some(WorkItemStatus::Active),
                completed: Some(None),
                commits: Some(None),
                report: None,
            },
        ) {
            Ok(_) => {},
            Err(source) => return Err(ReopenPendingWorkError::WriteStore(source)),
        }
        let entries = match store.list_entries(project.as_str()) {
            Ok(entries) => entries,
            Err(source) => return Err(ReopenPendingWorkError::WriteStore(source)),
        };
        let open_entry = IndexEntry {
            id: pending_work_identifier.clone(),
            state: IndexEntryState::Open,
            section: String::new(),
        };
        let written = match reopen_decision(&entries, pending_work_identifier.as_str()) {
            ReopenDecision::RestoreExisting => store.update_entry(
                project.as_str(),
                pending_work_identifier.as_str(),
                open_entry,
            ),
            ReopenDecision::ReAddEvicted => store.insert_entry(project.as_str(), open_entry),
            ReopenDecision::AlreadyOpen => Ok(()),
        };
        match written {
            Ok(_) => {},
            Err(source) => return Err(ReopenPendingWorkError::WriteStore(source)),
        }
    }
    let handoff = match commit_after_pending_work(store, handoff_pending) {
        Ok(handoff) => handoff,
        Err(source) => {
            return Err(
                ReopenPendingWorkError::HandoffAfterPendingWork {
                    pending_work_identifier,
                    source,
                },
            );
        },
    };
    Ok(
        ReopenedPendingWork {
            id: pending_work_identifier,
            project: project.clone(),
            already_active,
            handoff,
        },
    )
}

impl<E: std::fmt::Display> ReopenPendingWorkError<E> {
    /// The message this failure is reported with.
    pub fn message(&self) -> (r: String)
        ensures
            match self {
                ReopenPendingWorkError::ItemNotFound { id } => r@ == not_found_text(id@),
                ReopenPendingWorkError::UnknownPrefix { pending_work_identifier, prefix } => r@
                    == unknown_prefix_text(prefix@, pending_work_identifier@),
                ReopenPendingWorkError::WriteStore(e) => displays(e, r@),
                ReopenPendingWorkError::HandoffPreflight(h) => handoff_reports(h, r@),
                ReopenPendingWorkError::HandoffAfterPendingWork { pending_work_identifier: _, source } => commit_reports(source, r@),
            },
    {
        match self {
            ReopenPendingWorkError::ItemNotFound { id } => not_found_message(id.as_str()),
            ReopenPendingWorkError::UnknownPrefix { pending_work_identifier, prefix } => unknown_prefix_message(
                prefix.as_str(),
                pending_work_identifier.as_str(),
            ),
            ReopenPendingWorkError::WriteStore(e) => display_text(e),
            ReopenPendingWorkError::HandoffPreflight(h) => h.message(),
            ReopenPendingWorkError::HandoffAfterPendingWork { pending_work_identifier: _, source } => source.commit_message(),
        }
    }
}

/// A link of the index by value: its identifier and whether it is checked off.
pub type LinkView = (Seq<char>, bool);

pub open spec fn link_views(entries: Seq<IndexEntry>) -> Seq<LinkView> {
    entries.map_values(|e: IndexEntry| (e.id@, e.state is Done))
}

/// The links after a close checked off every link of `id`.
pub open spec fn checked_off(links: Seq<LinkView>, id: Seq<char>) -> Seq<LinkView>
    decreases links.len(),
{
    if links.len() == 0 {
        seq![]
    } else {
        let first: LinkView = if links[0].0 == id {
            (id, true)
        } else {
            links[0]
        };
        seq![first] + checked_off(links.drop_first(), id)
    }
}

/// The links after a close deleted every link of an evicted identifier.
pub open spec fn without_evicted(links: Seq<LinkView>, evicted: Seq<Seq<char>>) -> Seq<LinkView>
    decreases links.len(),
{
    if links.len() == 0 {
        seq![]
    } else if evicted.contains(links[0].0) {
        without_evicted(links.drop_first(), evicted)
    } else {
        seq![links[0]] + without_evicted(links.drop_first(), evicted)
    }
}

/// The reopen decision over link values.
pub open spec fn reopen_decision_over(links: Seq<LinkView>, id: Seq<char>) -> ReopenDecision
    decreases links.len(),
{
    if links.len() == 0 {
        ReopenDecision::ReAddEvicted
    } else if links[0].0 == id {
        if links[0].1 {
            ReopenDecision::RestoreExisting
        } else {
            ReopenDecision::AlreadyOpen
        }
    } else {
        reopen_decision_over(links.drop_first(), id)
    }
}

proof fn lemma_decision_over_views(entries: Seq<IndexEntry>, id: Seq<char>)
    ensures
        reopen_decision_of(entries, id) == reopen_decision_over(link_views(entries), id),
    decreases entries.len(),
{
    if entries.len() > 0 {
        assert(link_views(entries).drop_first() =~= link_views(entries.drop_first()));
        lemma_decision_over_views(entries.drop_first(), id);
    }
}

proof fn lemma_decision_after_close(links: Seq<LinkView>, id: Seq<char>, evicted: Seq<Seq<char>>)
    ensures
        reopen_decision_over(without_evicted(checked_off(links, id), evicted), id) == if evicted.contains(id)
            || !(exists|k: int| 0 <= k < links.len() && (#[trigger] links[k]).0 == id) {
            ReopenDecision::ReAddEvicted
        } else {
            ReopenDecision::RestoreExisting
        },
    decreases links.len(),
{
    if links.len() > 0 {
        let rest = links.drop_first();
        lemma_decision_after_close(rest, id, evicted);
        let checked = checked_off(links, id);
        assert(checked[0] == (if links[0].0 == id {
            (id, true)
        } else {
            links[0]
        }));
        assert(checked.drop_first() =~= checked_off(rest, id));
        let kept = without_evicted(checked, evicted);
        if !evicted.contains(checked[0].0) {
            assert(kept[0] == checked[0]);
            assert(kept.drop_first() =~= without_evicted(checked_off(rest, id), evicted));
        }
        if exists|k: int| 0 <= k < rest.len() && (#[trigger] rest[k]).0 == id {
            let k = choose|k: int| 0 <= k < rest.len() && (#[trigger] rest[k]).0 == id;
            assert(links[k + 1] == rest[k]);
        }
        if links[0].0 != id && exists|k: int| 0 <= k < links.len() && (#[trigger] links[k]).0 == id {
            let k = choose|k: int| 0 <= k < links.len() && (#[trigger] links[k]).0 == id;
            assert(rest[k - 1] == links[k]);
        }
    }
}

/// Reopening undoes a close: when a close checked off the item's links and deleted the
/// evicted ones, reopening finds the item's link checked off and restores it, unless the
/// item itself was evicted (or never linked), in which case it adds the link again.
pub proof fn lemma_reopen_after_close(
    before: Seq<IndexEntry>,
    after: Seq<IndexEntry>,
    id: Seq<char>,
    evicted: Seq<Seq<char>>,
)
    requires
        link_views(after) == without_evicted(checked_off(link_views(before), id), evicted),
    ensures
        reopen_decision_of(after, id) == if evicted.contains(id) || !(exists|k: int|
            0 <= k < before.len() && (#[trigger] before[k]).id@ == id) {
            ReopenDecision::ReAddEvicted
        } else {
            ReopenDecision::RestoreExisting
        },
{
    lemma_decision_over_views(after, id);
    let links = link_views(before);
    lemma_decision_after_close(links, id, evicted);
    if exists|k: int| 0 <= k < before.len() && (#[trigger] before[k]).id@ == id {
        let k = choose|k: int| 0 <= k < before.len() && (#[trigger] before[k]).id@ == id;
        assert(links[k].0 == id);
    }
    if exists|k: int| 0 <= k < links.len() && (#[trigger] links[k]).0 == id {
        let k = choose|k: int| 0 <= k < links.len() && (#[trigger] links[k]).0 == id;
        assert(before[k].id@ == id);
    }
}

} // verus!
