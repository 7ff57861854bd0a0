//! Project notes: short numbered notes kept per managed project.
pub mod add_note;
pub mod list_notes;
pub mod logic;
pub mod remove_note;
pub mod update_note;

use vstd::prelude::*;

pub use crate::ports::Clock;

verus! {

/// One stored project note.
#[derive(Debug, Clone, PartialEq, Eq)]
pub struct ProjectNote {
    /// `{PREFIX}-NOTE-{NNNN}`.
    pub id: String,
    pub topic: String,
}

/// A note to insert.
#[derive(Debug, Clone, PartialEq, Eq)]
pub struct NewProjectNote {
    pub id: String,
    pub message: String,
    pub created: String,
}

/// Describes one note returned by a project-note read.
#[derive(Debug, Clone, PartialEq, Eq)]
pub struct ListedNote {
    /// Identifies the note within its project.
    pub id: String,
    /// Names the focused learning topic.
    pub topic: String,
}

/// The notes of managed projects, as their adapter reads and writes them.
pub trait NoteStore {
    /// Concrete adapter failure.
    type Error;

    fn list_notes(&self, project: &str) -> Result<Vec<ProjectNote>, Self::Error>;

    fn insert_note(&self, project: &str, note: NewProjectNote) -> Result<ProjectNote, Self::Error>;

    fn get_note(&self, project: &str, id: &str) -> Result<Option<ProjectNote>, Self::Error>;

    fn note_exists(&self, project: &str, id: &str) -> Result<bool, Self::Error>;

    fn update_note(&self, project: &str, id: &str, topic: String) -> Result<(), Self::Error>;

    fn delete_note(&self, project: &str, id: &str) -> Result<(), Self::Error>;
}

} // verus!
