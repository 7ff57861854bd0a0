//! Replaces the topic of one note.
use vstd::prelude::*;

use crate::handoff::naming::squeeze;
use crate::note::logic::{resolve_note, resolve_project, resolved_note, resolved_project};
use crate::note::NoteStore;
use crate::pending_work::add::{not_whitespace, single_spaced};
use crate::pending_work::project_registry::ProjectRegistry;
use crate::text::{chars_of, concat};

verus! {

/// Requests a new topic for one note.
#[derive(Debug, Clone)]
pub struct UpdateNote {
    /// Selects the managed project by name or id code.
    pub project_identifier: String,
    /// Selects the note by full id, `NOTE-NNNN`, or bare numeric suffix.
    pub id: String,
    /// The replacement topic.
    pub topic: String,
}

/// The updated note.
#[derive(Debug, Clone, PartialEq, Eq)]
pub struct UpdateNoteOk {
    pub id: String,
    pub topic: String,
}

/// Why an update failed; `E` is the storage adapter's error.
#[derive(Debug)]
pub enum UpdateNoteError<E> {
    UnknownProject { identifier: String },
    EmptyTopic,
    InvalidIdentifier { id: String, prefix: String },
    NoSuchNote { id: String, project: String },
    Store(E),
}

/// A topic as stored: its whitespace-separated words joined by single spaces.
pub open spec fn normalized_topic(topic: Seq<char>) -> Seq<char> {
    squeeze(topic, not_whitespace(), ' ').0
}

/// Replaces one note's topic: the project must resolve, the normalized topic must not be
/// empty, the identifier must name a note of the project's prefix, and the note must exist.
pub fn execute<S: NoteStore>(command: UpdateNote, store: &S, projects: &ProjectRegistry) -> (r: Result<
    UpdateNoteOk,
    UpdateNoteError<S::Error>,
>)
    ensures
        match resolved_project(projects.rows(), command.project_identifier@) {
            None => r matches Err(UpdateNoteError::UnknownProject { identifier }) && identifier
                == command.project_identifier,
            Some((project, prefix)) => if normalized_topic(command.topic@).len() == 0 {
                r matches Err(UpdateNoteError::EmptyTopic)
            } else {
                match resolved_note(command.id@, prefix) {
                    None => r matches Err(UpdateNoteError::InvalidIdentifier { id, prefix: p })
                        && id == command.id && p@ == prefix,
                    Some(note) => {
                        &&& r matches Ok(ok) ==> ok.id@ == note && ok.topic@ == normalized_topic(
                            command.topic@,
                        )
                        &&& r matches Err(UpdateNoteError::NoSuchNote { id, project: p }) ==> id@
                            == note && p@ == project
                        &&& r matches Err(e) ==> (e is NoSuchNote || e is Store)
                    },
                }
            },
        },
{
    let (project, prefix) = match resolve_project(projects, command.project_identifier.as_str()) {
        Some(resolved) => resolved,
        None => {
            return Err(UpdateNoteError::UnknownProject { identifier: command.project_identifier });
        },
    };
    let tv = chars_of(command.topic.as_str());
    let topic = single_spaced(&tv);
    if topic.unicode_len() == 0 {
        return Err(UpdateNoteError::EmptyTopic);
    }
    let id = match resolve_note(command.id.as_str(), prefix.as_str()) {
        Some(id) => id,
        None => return Err(UpdateNoteError::InvalidIdentifier { id: command.id, prefix }),
    };
    let existing = match store.get_note(project.as_str(), id.as_str()) {
        Ok(existing) => existing,
        Err(e) => return Err(UpdateNoteError::Store(e)),
    };
    if existing.is_none() {
        return Err(UpdateNoteError::NoSuchNote { id, project });
    }
    match store.update_note(project.as_str(), id.as_str(), topic.clone()) {
        Ok(_) => Ok(UpdateNoteOk { id, topic }),
        Err(e) => Err(UpdateNoteError::Store(e)),
    }
}

impl<E: std::fmt::Display> UpdateNoteError<E> {
    /// The error's message.
    pub fn message(&self) -> (r: String)
        ensures
            match self {
                UpdateNoteError::UnknownProject { identifier } => r@ == "Unknown project '"@
                    + identifier@ + "'; expected a managed project name or id code."@,
                UpdateNoteError::EmptyTopic => r@ == "Note topic is empty; provide a non-empty topic."@,
                UpdateNoteError::InvalidIdentifier { id, prefix } => r@ == "Invalid note id '"@
                    + id@ + "'; expected e.g. "@ + prefix@ + "-NOTE-0001, NOTE-0001, or 1."@,
                UpdateNoteError::NoSuchNote { id, project } => r@ == "No such note "@ + id@
                    + " in "@ + project@ + "."@,
                UpdateNoteError::Store(e) => vstd::string::to_string_from_display_ensures::<E>(e, r),
            },
    {
        match self {
            UpdateNoteError::UnknownProject { identifier } => {
                let a = concat("Unknown project '", identifier.as_str());
                concat(a.as_str(), "'; expected a managed project name or id code.")
            },
            UpdateNoteError::EmptyTopic => "Note topic is empty; provide a non-empty topic.".to_owned(),
            UpdateNoteError::InvalidIdentifier { id, prefix } => {
                let a = concat("Invalid note id '", id.as_str());
                let b = concat(a.as_str(), "'; expected e.g. ");
                let c = concat(b.as_str(), prefix.as_str());
                concat(c.as_str(), "-NOTE-0001, NOTE-0001, or 1.")
            },
            UpdateNoteError::NoSuchNote { id, project } => {
                let a = concat("No such note ", id.as_str());
                let b = concat(a.as_str(), " in ");
                let c = concat(b.as_str(), project.as_str());
                concat(c.as_str(), ".")
            },
            UpdateNoteError::Store(e) => e.to_string(),
        }
    }

    /// The adapter failure behind a store error.
    pub fn source(&self) -> (r: Option<&E>)
        ensures
            match self {
                UpdateNoteError::Store(e) => r == Some(e),
                _ => r is None,
            },
    {
        match self {
            UpdateNoteError::Store(e) => Some(e),
            _ => None,
        }
    }
}

} // verus!
