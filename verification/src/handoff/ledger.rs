//! The derived ledger: one row per active handoff, newest first.
use vstd::prelude::*;
use crate::text::{display_text, displays};
use vstd::relations::sorted_by;

use crate::handoff::ports::{HandoffLedger, HandoffStore};
use crate::handoff::{HandoffDocument, HandoffLedgerRow, HandoffLocation, HandoffScope, HandoffStatus};
use crate::pending_work::done_queue::{key_leq, key_order, lemma_key_order_total};
use crate::text::{chars_of, compare_chars, lemma_lt_asymmetric, string_of};

verus! {

/// A ledger row by value: identifier, title, file name, goals done, goals total, created.
pub type LedgerRowView = (Seq<char>, Seq<char>, Seq<char>, u64, u64, Seq<char>);

/// `file_name` without a trailing `.md`.
pub open spec fn file_stem_of(file_name: Seq<char>) -> Seq<char> {
    crate::handoff::naming::without_md(file_name)
}

/// Whether a document has a ledger row: it is in the active directory with status `active`.
pub open spec fn in_ledger(document: HandoffDocument) -> bool {
    document.location == HandoffLocation::Active && document.status == Some(HandoffStatus::Active)
}

/// The ledger row of a document: its `pw:` link, or its file stem when unlinked, and its
/// creation date, or empty when absent.
pub open spec fn document_row(document: HandoffDocument) -> LedgerRowView {
    (
        match document.pending_work_identifier_raw {
            Some(raw) => raw@,
            None => file_stem_of(document.identifier.file_name@),
        },
        document.title@,
        document.identifier.file_name@,
        document.goals_completed,
        document.goals_total,
        match document.created {
            Some(created) => created@,
            None => Seq::empty(),
        },
    )
}

pub open spec fn row_view(row: HandoffLedgerRow) -> LedgerRowView {
    (
        row.pending_work_identifier@,
        row.title@,
        row.file_name@,
        row.goals_completed,
        row.goals_total,
        row.created@,
    )
}

pub open spec fn rows_view(rows: Seq<HandoffLedgerRow>) -> Seq<LedgerRowView> {
    rows.map_values(|row: HandoffLedgerRow| row_view(row))
}

/// The ledger's order: newer creation date first, then the later file name first.
pub open spec fn ledger_order() -> spec_fn(LedgerRowView, LedgerRowView) -> bool {
    |a: LedgerRowView, b: LedgerRowView| key_leq((b.5, b.2), (a.5, a.2))
}

pub open spec fn ledger_filter() -> spec_fn(HandoffDocument) -> bool {
    |d: HandoffDocument| in_ledger(d)
}

pub open spec fn ledger_row_map() -> spec_fn(HandoffDocument) -> LedgerRowView {
    |d: HandoffDocument| document_row(d)
}

/// The rows of the documents that have one, in document order.
pub open spec fn ledger_rows_of(documents: Seq<HandoffDocument>) -> Seq<LedgerRowView> {
    documents.filter(ledger_filter()).map_values(ledger_row_map())
}

/// Why a ledger rebuild failed.
#[derive(Debug)]
pub enum RebuildLedgerError<E> {
    ReadDocuments(E),
    WriteLedger(E),
}

// ---------------------------------------------------------------------------------------
/// `file_name` without a trailing `.md`.
pub fn file_stem(file_name: &str) -> (r: String)
    ensures
        r@ == file_stem_of(file_name@),
{
    let v = chars_of(file_name);
    let n = v.len();
    proof {
        reveal_strlit(".md");
        if n >= 3 {
            let s = file_name@;
            if s.skip(n - 3) == ".md"@ {
                assert(s.skip(n - 3)[0] == '.' && s.skip(n - 3)[1] == 'm' && s.skip(n - 3)[2]
                    == 'd');
            }
            if v@[n - 3] == '.' && v@[n - 2] == 'm' && v@[n - 1] == 'd' {
                assert(s.skip(n - 3) =~= ".md"@);
            }
        }
    }
    if n >= 3 && v[n - 3] == '.' && v[n - 2] == 'm' && v[n - 1] == 'd' {
        string_of(&v, 0, n - 3)
    } else {
        string_of(&v, 0, n)
    }
}

fn row_of(document: &HandoffDocument) -> (r: HandoffLedgerRow)
    ensures
        row_view(r) == document_row(*document),
{
    let pending_work_identifier = match &document.pending_work_identifier_raw {
        Some(raw) => raw.clone(),
        None => file_stem(document.identifier.file_name.as_str()),
    };
    let created = match &document.created {
        Some(created) => created.clone(),
        None => String::new(),
    };
    HandoffLedgerRow {
        pending_work_identifier,
        title: document.title.clone(),
        file_name: document.identifier.file_name.clone(),
        goals_completed: document.goals_completed,
        goals_total: document.goals_total,
        created,
    }
}

fn row_key_le(a: &HandoffLedgerRow, b: &HandoffLedgerRow) -> (r: bool)
    ensures
        r == key_leq((row_view(*a).5, row_view(*a).2), (row_view(*b).5, row_view(*b).2)),
{
    let ac = chars_of(a.created.as_str());
    let bc = chars_of(b.created.as_str());
    let c = compare_chars(&ac, &bc);
    if c < 0 {
        true
    } else if c > 0 {
        proof {
            lemma_lt_asymmetric(bc@, ac@);
        }
        false
    } else {
        let af = chars_of(a.file_name.as_str());
        let bf = chars_of(b.file_name.as_str());
        compare_chars(&af, &bf) <= 0
    }
}

proof fn lemma_key_facts(x: (Seq<char>, Seq<char>), y: (Seq<char>, Seq<char>), z: (Seq<char>, Seq<char>))
    ensures
        key_leq(x, y) || key_leq(y, x),
        key_leq(x, y) && key_leq(y, z) ==> key_leq(x, z),
{
    lemma_key_order_total();
    let r = key_order();
    assert(r(x, y) || r(y, x));
    if r(x, y) && r(y, z) {
        assert(r(x, z));
    }
}

fn insert_row(rows: &mut Vec<HandoffLedgerRow>, row: HandoffLedgerRow)
    requires
        sorted_by(rows_view(old(rows)@), ledger_order()),
    ensures
        sorted_by(rows_view(final(rows)@), ledger_order()),
        rows_view(final(rows)@).to_multiset() == rows_view(old(rows)@).to_multiset().insert(
            row_view(row),
        ),
{
    let ghost old_view = rows_view(rows@);
    let ghost rv = row_view(row);
    let mut p: usize = 0;
    while p < rows.len() && row_key_le(&row, &rows[p])
        invariant
            p <= rows.len(),
            old_view == rows_view(rows@),
            rv == row_view(row),
            forall|j: int| 0 <= j < p ==> #[trigger] ledger_order()(old_view[j], rv),
        decreases rows.len() - p,
    {
        proof {
            assert(old_view[p as int] == row_view(rows@[p as int]));
        }
        p = p + 1;
    }
    proof {
        if p < rows.len() {
            assert(old_view[p as int] == row_view(rows@[p as int]));
            lemma_key_facts((rv.5, rv.2), (old_view[p as int].5, old_view[p as int].2), (rv.5, rv.2));
            assert(ledger_order()(rv, old_view[p as int]));
        }
    }
    rows.insert(p, row);
    proof {
        let nv = rows_view(rows@);
        assert(nv =~= old_view.insert(p as int, rv));
        let r = ledger_order();
        assert forall|i: int, j: int| 0 <= i < j < nv.len() implies #[trigger] r(nv[i], nv[j]) by {
            if j < p {
                assert(r(old_view[i], old_view[j]));
            } else if j == p {
                assert(r(old_view[i], rv));
            } else if i < p {
                assert(r(old_view[i], rv));
                assert(r(rv, old_view[p as int]));
                if j - 1 > p {
                    assert(r(old_view[p as int], old_view[j - 1]));
                    lemma_key_facts((old_view[j - 1].5, old_view[j - 1].2), (old_view[p as int].5, old_view[p as int].2), (rv.5, rv.2));
                }
                lemma_key_facts((old_view[j - 1].5, old_view[j - 1].2), (rv.5, rv.2), (old_view[i].5, old_view[i].2));
                assert(r(old_view[i], old_view[j - 1]));
            } else if i == p {
                if j - 1 > p {
                    assert(r(old_view[p as int], old_view[j - 1]));
                    lemma_key_facts((old_view[j - 1].5, old_view[j - 1].2), (old_view[p as int].5, old_view[p as int].2), (rv.5, rv.2));
                }
                assert(r(rv, old_view[j - 1]));
            } else {
                assert(r(old_view[i - 1], old_view[j - 1]));
            }
        }
        vstd::seq_lib::to_multiset_insert(old_view, p as int, rv);
    }
}

/// The ledger rows of `documents`: one per active document with status `active`, newest
/// creation date first, then the later file name first.
pub fn ledger_rows(documents: &Vec<HandoffDocument>) -> (rows: Vec<HandoffLedgerRow>)
    ensures
        sorted_by(rows_view(rows@), ledger_order()),
        rows_view(rows@).to_multiset() == ledger_rows_of(documents@).to_multiset(),
{
    let mut rows: Vec<HandoffLedgerRow> = Vec::new();
    let mut i: usize = 0;
    proof {
        assert(documents@.take(0) =~= Seq::<HandoffDocument>::empty());
        assert(Seq::<HandoffDocument>::empty().filter(ledger_filter()) =~= Seq::empty());
        assert(rows_view(rows@) =~= Seq::empty());
        assert(ledger_rows_of(documents@.take(0)) =~= Seq::empty());
    }
    while i < documents.len()
        invariant
            i <= documents.len(),
            sorted_by(rows_view(rows@), ledger_order()),
            rows_view(rows@).to_multiset() == ledger_rows_of(documents@.take(i as int)).to_multiset(),
        decreases documents.len() - i,
    {
        let d = &documents[i];
        let keep = match d.location {
            HandoffLocation::Active => match d.status {
                Some(HandoffStatus::Active) => true,
                _ => false,
            },
            HandoffLocation::Archived => false,
        };
        proof {
            let f = ledger_filter();
            let g = ledger_row_map();
            assert(documents@.take(i + 1) =~= documents@.take(i as int).push(documents@[i as int]));
            documents@.take(i as int).lemma_filter_push(documents@[i as int], f);
            assert(keep == in_ledger(documents@[i as int]));
            if keep {
                assert(documents@.take(i + 1).filter(f).map_values(g) =~= documents@.take(
                    i as int,
                ).filter(f).map_values(g).push(document_row(documents@[i as int])));
                vstd::seq_lib::to_multiset_build(
                    documents@.take(i as int).filter(f).map_values(g),
                    document_row(documents@[i as int]),
                );
            } else {
                assert(documents@.take(i + 1).filter(f) =~= documents@.take(i as int).filter(f));
            }
        }
        if keep {
            let row = row_of(d);
            insert_row(&mut rows, row);
        }
        i = i + 1;
    }
    assert(documents@.take(documents.len() as int) =~= documents@);
    rows
}

/// Rebuilds the ledger of `scope` from its active directory.
pub fn rebuild<S: HandoffStore>(scope: &HandoffScope, store: &S) -> (r: Result<
    HandoffLedger,
    RebuildLedgerError<S::Error>,
>) {
    let documents = match store.list_location(scope, HandoffLocation::Active) {
        Ok(documents) => documents,
        Err(error) => return Err(RebuildLedgerError::ReadDocuments(error)),
    };
    let rows = ledger_rows(&documents);
    match store.write_ledger(scope, rows) {
        Ok(ledger) => Ok(ledger),
        Err(error) => Err(RebuildLedgerError::WriteLedger(error)),
    }
}

impl<E: std::fmt::Display> RebuildLedgerError<E> {
    /// The message of the adapter failure inside.
    pub fn message(&self) -> (r: String)
        ensures
            match self {
                RebuildLedgerError::ReadDocuments(e) => displays(e, r@),
                RebuildLedgerError::WriteLedger(e) => displays(e, r@),
            },
    {
        match self {
            RebuildLedgerError::ReadDocuments(e) => display_text(e),
            RebuildLedgerError::WriteLedger(e) => display_text(e),
        }
    }
}

} // verus!
