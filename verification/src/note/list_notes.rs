//! Lists one managed project's notes, newest first.
use vstd::prelude::*;
use vstd::relations::sorted_by;

use crate::note::logic::{note_number, note_number_of, resolve_project, resolved_project};
use crate::note::{ListedNote, NoteStore, ProjectNote};
use crate::pending_work::project_registry::ProjectRegistry;
use crate::text::concat;

verus! {

/// The number of notes a list shows when no number is given.
pub const DEFAULT_NOTE_COUNT: usize = 10;

/// Requests one project's notes in newest-first order.
#[derive(Debug, Clone)]
pub struct ListNotes {
    /// Selects the managed project by name or id code.
    pub project_identifier: String,
    /// Caps returned notes, with `None` selecting ten and `Some(0)` selecting all.
    pub number: Option<usize>,
}

/// The listed notes and how many more the cap hid.
#[derive(Debug, Clone, PartialEq, Eq)]
pub struct ListNotesOk {
    pub project: String,
    pub notes: Vec<ListedNote>,
    pub hidden: usize,
}

/// Why a list failed; `E` is the storage adapter's error.
#[derive(Debug)]
pub enum ListNotesError<E> {
    UnknownProject { identifier: String },
    Store(E),
}

pub open spec fn newest_first() -> spec_fn(ProjectNote, ProjectNote) -> bool {
    |a: ProjectNote, b: ProjectNote| note_number(a.id@) >= note_number(b.id@)
}

/// How many of `total` notes a list shows.
pub open spec fn shown_count(number: Option<usize>, total: nat) -> nat {
    let count = match number {
        Some(n) => n as nat,
        None => DEFAULT_NOTE_COUNT as nat,
    };
    if count == 0 || count > total {
        total
    } else {
        count
    }
}

pub open spec fn listed_view(note: ListedNote) -> (Seq<char>, Seq<char>) {
    (note.id@, note.topic@)
}

pub open spec fn note_view(note: ProjectNote) -> (Seq<char>, Seq<char>) {
    (note.id@, note.topic@)
}

fn insert_note(sorted: &mut Vec<ProjectNote>, note: ProjectNote)
    requires
        sorted_by(old(sorted)@, newest_first()),
    ensures
        sorted_by(final(sorted)@, newest_first()),
        final(sorted)@.to_multiset() == old(sorted)@.to_multiset().insert(note),
{
    let ghost old_view = sorted@;
    let n = note_number_of(note.id.as_str());
    let mut p: usize = 0;
    while p < sorted.len() && note_number_of(sorted[p].id.as_str()) >= n
        invariant
            p <= sorted.len(),
            old_view == sorted@,
            n == note_number(note.id@),
            forall|j: int| 0 <= j < p ==> note_number(#[trigger] old_view[j].id@) >= n,
        decreases sorted.len() - p,
    {
        p = p + 1;
    }
    let ghost nv0 = note;
    sorted.insert(p, note);
    proof {
        let nv = sorted@;
        assert(nv =~= old_view.insert(p as int, nv0));
        let r = newest_first();
        assert forall|i: int, j: int| 0 <= i < j < nv.len() implies #[trigger] r(nv[i], nv[j]) by {
            if j < p {
                assert(r(old_view[i], old_view[j]));
            } else if j == p {
            } else if i < p {
                assert(r(old_view[i], old_view[j - 1]));
            } else if i == p {
                if j - 1 > p {
                    assert(r(old_view[p as int], old_view[j - 1]));
                }
            } else {
                assert(r(old_view[i - 1], old_view[j - 1]));
            }
        }
        vstd::seq_lib::to_multiset_insert(old_view, p as int, nv0);
    }
}

/// Orders notes newest first, keeping the stored order among equal numbers.
pub fn newest_notes_first(notes: Vec<ProjectNote>) -> (r: Vec<ProjectNote>)
    ensures
        sorted_by(r@, newest_first()),
        r@.to_multiset() == notes@.to_multiset(),
{
    let ghost original = notes@;
    let mut rest = notes;
    let mut sorted: Vec<ProjectNote> = Vec::new();
    let mut taken: usize = 0;
    assert(original.take(0) =~= Seq::<ProjectNote>::empty());
    assert(original.len() == rest.len());
    assert(rest@.skip(0) =~= rest@);
    while rest.len() > 0
        invariant
            taken + rest.len() == original.len(),
            original.len() <= usize::MAX,
            rest@ == original.skip(taken as int),
            sorted_by(sorted@, newest_first()),
            sorted@.to_multiset() == original.take(taken as int).to_multiset(),
        decreases rest.len(),
    {
        let note = rest.remove(0);
        proof {
            assert(original.take(taken + 1) =~= original.take(taken as int).push(note));
            assert(rest@ =~= original.skip(taken + 1));
            vstd::seq_lib::to_multiset_build(original.take(taken as int), note);
        }
        insert_note(&mut sorted, note);
        taken = taken + 1;
    }
    assert(original.take(taken as int) =~= original);
    sorted
}

/// The first notes of an ordered list, as many as `number` selects, and how many were left.
pub fn cap_notes(ordered: Vec<ProjectNote>, number: Option<usize>) -> (r: (Vec<ListedNote>, usize))
    ensures
        r.0@.len() == shown_count(number, ordered@.len()),
        r.0@.len() + r.1 == ordered@.len(),
        forall|i: int| 0 <= i < r.0@.len() ==> listed_view(#[trigger] r.0@[i]) == note_view(ordered@[i]),
{
    let count = match number {
        Some(n) => n,
        None => DEFAULT_NOTE_COUNT,
    };
    let shown = if count == 0 || count > ordered.len() {
        ordered.len()
    } else {
        count
    };
    let hidden = ordered.len() - shown;
    let mut listed: Vec<ListedNote> = Vec::new();
    let mut i: usize = 0;
    while i < shown
        invariant
            i <= shown <= ordered.len(),
            listed@.len() == i,
            forall|k: int| 0 <= k < i ==> listed_view(#[trigger] listed@[k]) == note_view(ordered@[k]),
        decreases shown - i,
    {
        listed.push(ListedNote { id: ordered[i].id.clone(), topic: ordered[i].topic.clone() });
        i = i + 1;
    }
    (listed, hidden)
}

/// Reads, orders and caps one project's notes: newest first, ten by default, all for 0.
pub fn execute<S: NoteStore>(query: ListNotes, store: &S, projects: &ProjectRegistry) -> (r: Result<
    ListNotesOk,
    ListNotesError<S::Error>,
>)
    ensures
        resolved_project(projects.rows(), query.project_identifier@) is None ==> (r matches Err(
            ListNotesError::UnknownProject { identifier },
        ) && identifier == query.project_identifier),
        r matches Ok(ok) ==> (resolved_project(projects.rows(), query.project_identifier@) matches Some(
            (p, _),
        ) && ok.project@ == p),
        r matches Ok(ok) ==> forall|i: int, j: int|
            0 <= i < j < ok.notes@.len() ==> note_number(#[trigger] ok.notes@[i].id@) >= note_number(
                #[trigger] ok.notes@[j].id@,
            ),
{
    let (project, _prefix) = match resolve_project(projects, query.project_identifier.as_str()) {
        Some(resolved) => resolved,
        None => {
            return Err(ListNotesError::UnknownProject { identifier: query.project_identifier });
        },
    };
    let notes = match store.list_notes(project.as_str()) {
        Ok(notes) => notes,
        Err(e) => return Err(ListNotesError::Store(e)),
    };
    let ordered = newest_notes_first(notes);
    let ghost ov = ordered@;
    let (listed, hidden) = cap_notes(ordered, query.number);
    proof {
        assert forall|i: int, j: int| 0 <= i < j < listed@.len() implies note_number(
            #[trigger] listed@[i].id@,
        ) >= note_number(#[trigger] listed@[j].id@) by {
            assert(listed_view(listed@[i]) == note_view(ov[i]));
            assert(listed_view(listed@[j]) == note_view(ov[j]));
            assert(newest_first()(ov[i], ov[j]));
        }
    }
    Ok(ListNotesOk { project, notes: listed, hidden })
}

impl<E: std::fmt::Display> ListNotesError<E> {
    /// The error's message.
    pub fn message(&self) -> (r: String)
        ensures
            match self {
                ListNotesError::UnknownProject { identifier } => r@ == "Unknown project '"@
                    + identifier@ + "'; expected a managed project name or id code."@,
                ListNotesError::Store(e) => vstd::string::to_string_from_display_ensures::<E>(e, r),
            },
    {
        match self {
            ListNotesError::UnknownProject { identifier } => {
                let a = concat("Unknown project '", identifier.as_str());
                concat(a.as_str(), "'; expected a managed project name or id code.")
            },
            ListNotesError::Store(e) => e.to_string(),
        }
    }

    /// The adapter failure behind a store error.
    pub fn source(&self) -> (r: Option<&E>)
        ensures
            match self {
                ListNotesError::Store(e) => r == Some(e),
                _ => r is None,
            },
    {
        match self {
            ListNotesError::Store(e) => Some(e),
            _ => None,
        }
    }
}

} // verus!
