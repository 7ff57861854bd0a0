//! Removes one note from a managed project.
use vstd::prelude::*;

use crate::note::logic::{resolve_note, resolve_project, resolved_note, resolved_project};
use crate::note::NoteStore;
use crate::pending_work::project_registry::ProjectRegistry;
use crate::text::concat;

verus! {

/// Requests removal of one note.
#[derive(Debug, Clone)]
pub struct RemoveNote {
    pub project_identifier: String,
    /// The note by full id, `NOTE-NNNN`, or bare number.
    pub id: String,
}

/// The removed note.
#[derive(Debug, Clone, PartialEq, Eq)]
pub struct RemoveNoteOk {
    pub id: String,
}

/// Why a removal failed; `E` is the storage adapter's error.
#[derive(Debug)]
pub enum RemoveNoteError<E> {
    UnknownProject { identifier: String },
    InvalidIdentifier { id: String, prefix: String },
    NoSuchNote { id: String, project: String },
    Store(E),
}

/// Removes one note: the project must resolve, the identifier must name a note of its
/// prefix, and the note must exist.
pub fn execute<S: NoteStore>(command: RemoveNote, store: &S, projects: &ProjectRegistry) -> (r: Result<
    RemoveNoteOk,
    RemoveNoteError<S::Error>,
>)
    ensures
        match resolved_project(projects.rows(), command.project_identifier@) {
            None => r matches Err(RemoveNoteError::UnknownProject { identifier }) && identifier
                == command.project_identifier,
            Some((project, prefix)) => match resolved_note(command.id@, prefix) {
                None => r matches Err(RemoveNoteError::InvalidIdentifier { id, prefix: p }) && id
                    == command.id && p@ == prefix,
                Some(note) => {
                    &&& r matches Ok(ok) ==> ok.id@ == note
                    &&& r matches Err(RemoveNoteError::NoSuchNote { id, project: p }) ==> id@
                        == note && p@ == project
                    &&& r matches Err(e) ==> (e is NoSuchNote || e is Store)
                },
            },
        },
{
    let (project, prefix) = match resolve_project(projects, command.project_identifier.as_str()) {
        Some(resolved) => resolved,
        None => {
            return Err(RemoveNoteError::UnknownProject { identifier: command.project_identifier });
        },
    };
    let id = match resolve_note(command.id.as_str(), prefix.as_str()) {
        Some(id) => id,
        None => return Err(RemoveNoteError::InvalidIdentifier { id: command.id, prefix }),
    };
    let exists = match store.note_exists(project.as_str(), id.as_str()) {
        Ok(exists) => exists,
        Err(e) => return Err(RemoveNoteError::Store(e)),
    };
    if !exists {
        return Err(RemoveNoteError::NoSuchNote { id, project });
    }
    match store.delete_note(project.as_str(), id.as_str()) {
        Ok(_) => Ok(RemoveNoteOk { id }),
        Err(e) => Err(RemoveNoteError::Store(e)),
    }
}

impl<E: std::fmt::Display> RemoveNoteError<E> {
    /// The error's message.
    pub fn message(&self) -> (r: String)
        ensures
            match self {
                RemoveNoteError::UnknownProject { identifier } => r@ == "Unknown project '"@
                    + identifier@ + "'; expected a managed project name or id code."@,
                RemoveNoteError::InvalidIdentifier { id, prefix } => r@ == "Invalid note id '"@
                    + id@ + "'; expected e.g. "@ + prefix@ + "-NOTE-0001, NOTE-0001, or 1."@,
                RemoveNoteError::NoSuchNote { id, project } => r@ == "No such note "@ + id@
                    + " in "@ + project@ + "."@,
                RemoveNoteError::Store(e) => vstd::string::to_string_from_display_ensures::<E>(e, r),
            },
    {
        match self {
            RemoveNoteError::UnknownProject { identifier } => {
                let a = concat("Unknown project '", identifier.as_str());
                concat(a.as_str(), "'; expected a managed project name or id code.")
            },
            RemoveNoteError::InvalidIdentifier { id, prefix } => {
                let a = concat("Invalid note id '", id.as_str());
                let b = concat(a.as_str(), "'; expected e.g. ");
                let c = concat(b.as_str(), prefix.as_str());
                concat(c.as_str(), "-NOTE-0001, NOTE-0001, or 1.")
            },
            RemoveNoteError::NoSuchNote { id, project } => {
                let a = concat("No such note ", id.as_str());
                let b = concat(a.as_str(), " in ");
                let c = concat(b.as_str(), project.as_str());
                concat(c.as_str(), ".")
            },
            RemoveNoteError::Store(e) => e.to_string(),
        }
    }

    /// The adapter failure behind a store error.
    pub fn source(&self) -> (r: Option<&E>)
        ensures
            match self {
                RemoveNoteError::Store(e) => r == Some(e),
                _ => r is None,
            },
    {
        match self {
            RemoveNoteError::Store(e) => Some(e),
            _ => None,
        }
    }
}

} // verus!
