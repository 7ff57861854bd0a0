//! Reads the derived ledger of one repository.
use vstd::prelude::*;
use crate::text::{display_text, displays};

use crate::handoff::ports::{HandoffLedger, HandoffStore};
use crate::handoff::HandoffScope;

verus! {

/// Requests the persisted ledger for one repository.
#[derive(Debug, Clone, PartialEq, Eq)]
pub struct ListHandoffs {
    /// Repository whose ledger should be read.
    pub scope: HandoffScope,
}

/// Distinguishes a missing ledger from present Markdown.
#[derive(Debug, Clone, PartialEq, Eq)]
pub enum ListedHandoffs {
    /// Verbatim persisted ledger Markdown.
    Ledger {
        /// Complete ledger source.
        markdown: String,
    },
    /// The ledger path does not exist.
    LedgerMissing,
}

/// Reports a ledger read failure without conflating it with absence.
#[derive(Debug)]
pub enum ListHandoffsError<E> {
    /// The adapter could not read an existing ledger.
    ReadLedger {
        /// Concrete adapter failure.
        source: E,
    },
}

/// What a ledger read lists: the ledger's Markdown verbatim, or that it is missing.
pub fn listed(ledger: Option<HandoffLedger>) -> (r: ListedHandoffs)
    ensures
        match ledger {
            Some(l) => r matches ListedHandoffs::Ledger { markdown } && markdown == l.source,
            None => r is LedgerMissing,
        },
{
    match ledger {
        Some(ledger) => ListedHandoffs::Ledger { markdown: ledger.source },
        None => ListedHandoffs::LedgerMissing,
    }
}

/// Reads one handoff ledger.
pub fn execute<S: HandoffStore>(command: ListHandoffs, store: &S) -> (r: Result<
    ListedHandoffs,
    ListHandoffsError<S::Error>,
>) {
    match store.read_ledger(&command.scope) {
        Ok(ledger) => Ok(listed(ledger)),
        Err(source) => Err(ListHandoffsError::ReadLedger { source }),
    }
}

impl<E: std::fmt::Display> ListHandoffsError<E> {
    /// The message of the adapter failure inside.
    pub fn message(&self) -> (r: String)
        ensures
            match self {
                ListHandoffsError::ReadLedger { source } => displays(source, r@),
            },
    {
        match self {
            ListHandoffsError::ReadLedger { source } => display_text(source),
        }
    }
}

} // verus!
