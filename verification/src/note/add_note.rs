//! Adds one note to a managed project.
use vstd::prelude::*;

use crate::note::logic::{
    note_id_of, note_number, note_number_of, resolve_project, resolved_project, valid_note_id,
};
use crate::note::{Clock, NewProjectNote, NoteStore, ProjectNote};
use crate::pending_work::identifier::all_upper;
use crate::pending_work::project_registry::ProjectRegistry;
use crate::text::{chars_of, concat, pad4_chars, string_of, trim, trimmed};

verus! {

/// Requests creation of one project note.
#[derive(Debug, Clone)]
pub struct AddNote {
    /// Selects the managed project by name or id code.
    pub project_identifier: String,
    /// Supplies the one-line note message.
    pub message: String,
    /// Overrides the clock date when present.
    pub date: Option<String>,
}

/// The note an add created.
#[derive(Debug, Clone, PartialEq, Eq)]
pub struct AddNoteOk {
    pub id: String,
    pub message: String,
}

/// Why an add failed; `E` is the storage adapter's error.
#[derive(Debug)]
pub enum AddNoteError<E> {
    UnknownProject { identifier: String },
    EmptyMessage,
    IdentifierExhausted { project: String },
    Store(E),
}

/// The highest note number among `notes`, or 0.
pub open spec fn max_note_number(notes: Seq<ProjectNote>) -> nat
    decreases notes.len(),
{
    if notes.len() == 0 {
        0
    } else {
        let rest = max_note_number(notes.drop_last());
        let n = note_number(notes.last().id@);
        if n > rest {
            n
        } else {
            rest
        }
    }
}

/// The next note number: one above the highest, unless that leaves four digits.
pub open spec fn next_note_number_of(notes: Seq<ProjectNote>) -> Option<nat> {
    if max_note_number(notes) + 1 <= 9999 {
        Some(max_note_number(notes) + 1)
    } else {
        None
    }
}

proof fn lemma_max_note_number_bounds(notes: Seq<ProjectNote>)
    ensures
        forall|i: int| 0 <= i < notes.len() ==> note_number(#[trigger] notes[i].id@) <= max_note_number(notes),
    decreases notes.len(),
{
    if notes.len() > 0 {
        lemma_max_note_number_bounds(notes.drop_last());
        assert forall|i: int| 0 <= i < notes.len() implies note_number(#[trigger] notes[i].id@)
            <= max_note_number(notes) by {
            if i < notes.len() - 1 {
                assert(notes.drop_last()[i] == notes[i]);
            }
        }
    }
}

/// A new note never reuses a number: the number the next note of a project gets is above
/// the number of every note the project has.
pub proof fn lemma_next_note_number_is_fresh(notes: Seq<ProjectNote>)
    ensures
        next_note_number_of(notes) matches Some(n) ==> forall|i: int|
            0 <= i < notes.len() ==> note_number(#[trigger] notes[i].id@) < n,
{
    lemma_max_note_number_bounds(notes);
}

/// The number the next note of a project gets; `None` when the project's numbers are
/// exhausted.
pub fn next_note_number(notes: &Vec<ProjectNote>) -> (r: Option<u64>)
    ensures
        match r {
            Some(n) => next_note_number_of(notes@) == Some(n as nat),
            None => next_note_number_of(notes@) is None,
        },
{
    let mut max: u64 = 0;
    let mut i: usize = 0;
    while i < notes.len()
        invariant
            i <= notes.len(),
            max == max_note_number(notes@.take(i as int)),
        decreases notes.len() - i,
    {
        proof {
            assert(notes@.take(i + 1).drop_last() =~= notes@.take(i as int));
        }
        let n = note_number_of(notes[i].id.as_str());
        if n > max {
            max = n;
        }
        i = i + 1;
    }
    assert(notes@.take(notes.len() as int) =~= notes@);
    if max < 9999 {
        Some(max + 1)
    } else {
        None
    }
}

/// The note an add hands to the store for a project with prefix `prefix` and notes `notes`:
/// numbered one above the highest, `{PREFIX}-NOTE-{NNNN}`, with the given message and date.
/// `None` when the numbers are exhausted or the prefix is not 2 to 4 uppercase letters.
pub fn note_to_insert(
    prefix: &str,
    notes: &Vec<ProjectNote>,
    message: String,
    created: String,
) -> (r: Option<NewProjectNote>)
    ensures
        match next_note_number_of(notes@) {
            Some(n) => if valid_note_id(prefix@, n) {
                r matches Some(note) && note.id@ == note_id_of(prefix@, n) && note.message
                    == message && note.created == created
            } else {
                r is None
            },
            None => r is None,
        },
{
    let number = match next_note_number(notes) {
        Some(n) => n,
        None => return None,
    };
    let pv = chars_of(prefix);
    let mut valid = pv.len() >= 2 && pv.len() <= 4;
    let mut i: usize = 0;
    while i < pv.len()
        invariant
            i <= pv.len(),
            pv@ == prefix@,
            valid == (2 <= pv@.len() <= 4 && forall|j: int|
                0 <= j < i ==> crate::text::is_ascii_upper(#[trigger] pv@[j])),
        decreases pv.len() - i,
    {
        if !crate::text::is_upper_char(pv[i]) {
            valid = false;
        }
        i = i + 1;
    }
    if !valid {
        return None;
    }
    let with_note = concat(prefix, "-NOTE-");
    let digits = pad4_chars(number);
    let number_text = string_of(&digits, 0, digits.len());
    proof {
        reveal_strlit("-NOTE-");
        assert(digits@.subrange(0, digits.len() as int) =~= digits@);
    }
    let id = concat(with_note.as_str(), number_text.as_str());
    Some(NewProjectNote { id, message, created })
}

/// Validates, allocates and persists one project note: the project must resolve with a
/// prefix, the trimmed message must not be empty, and the note is numbered one above the
/// project's highest note, up to 9999.
pub fn execute<S: NoteStore, C: Clock>(
    command: AddNote,
    store: &S,
    projects: &ProjectRegistry,
    clock: &C,
) -> (r: Result<AddNoteOk, AddNoteError<S::Error>>)
    ensures
        resolved_project(projects.rows(), command.project_identifier@) is None ==> (r matches Err(
            AddNoteError::UnknownProject { identifier },
        ) && identifier == command.project_identifier),
        resolved_project(projects.rows(), command.project_identifier@) is Some && trim(
            command.message@,
        ).len() == 0 ==> r matches Err(AddNoteError::EmptyMessage),
        r matches Err(AddNoteError::IdentifierExhausted { project }) ==> (resolved_project(
            projects.rows(),
            command.project_identifier@,
        ) matches Some((p, _)) && p == project@),
        r is Ok ==> (resolved_project(projects.rows(), command.project_identifier@) is Some && trim(
            command.message@,
        ).len() > 0),
{
    let (project, prefix) = match resolve_project(projects, command.project_identifier.as_str()) {
        Some(resolved) => resolved,
        None => {
            return Err(AddNoteError::UnknownProject { identifier: command.project_identifier });
        },
    };
    let mv = chars_of(command.message.as_str());
    let mt = trimmed(&mv);
    if mt.len() == 0 {
        return Err(AddNoteError::EmptyMessage);
    }
    let message = string_of(&mt, 0, mt.len());
    let notes = match store.list_notes(project.as_str()) {
        Ok(notes) => notes,
        Err(e) => return Err(AddNoteError::Store(e)),
    };
    let created = match command.date {
        Some(date) => date,
        None => clock.today(),
    };
    let note = match note_to_insert(prefix.as_str(), &notes, message, created) {
        Some(note) => note,
        None => return Err(AddNoteError::IdentifierExhausted { project }),
    };
    let stored = match store.insert_note(project.as_str(), note) {
        Ok(note) => note,
        Err(e) => return Err(AddNoteError::Store(e)),
    };
    Ok(AddNoteOk { id: stored.id, message: stored.topic })
}

impl<E: std::fmt::Display> AddNoteError<E> {
    /// The error's message.
    pub fn message(&self) -> (r: String)
        ensures
            match self {
                AddNoteError::UnknownProject { identifier } => r@ == "Unknown project '"@
                    + identifier@ + "'; expected a managed project name or id code."@,
                AddNoteError::EmptyMessage => r@
                    == "Note message is empty; provide a non-empty message."@,
                AddNoteError::IdentifierExhausted { project } => r@ == "Project '"@ + project@
                    + "' has no available four-digit note identifiers."@,
                AddNoteError::Store(e) => vstd::string::to_string_from_display_ensures::<E>(e, r),
            },
    {
        match self {
            AddNoteError::UnknownProject { identifier } => {
                let a = concat("Unknown project '", identifier.as_str());
                concat(a.as_str(), "'; expected a managed project name or id code.")
            },
            AddNoteError::EmptyMessage => "Note message is empty; provide a non-empty message.".to_owned(),
            AddNoteError::IdentifierExhausted { project } => {
                let a = concat("Project '", project.as_str());
                concat(a.as_str(), "' has no available four-digit note identifiers.")
            },
            AddNoteError::Store(e) => e.to_string(),
        }
    }

    /// The adapter failure behind a store error.
    pub fn source(&self) -> (r: Option<&E>)
        ensures
            match self {
                AddNoteError::Store(e) => r == Some(e),
                _ => r is None,
            },
    {
        match self {
            AddNoteError::Store(e) => Some(e),
            _ => None,
        }
    }
}

} // verus!
