//! Notes: short-lived pieces of text a stylo attaches to a project.

use vstd::prelude::*;

verus! {

/// A note. The project reference is resolved when the note is created and
/// never re-validated afterwards.
#[derive(Debug)]
pub struct Note {
    /// Unique identifier of the note.
    pub note_id: u128,
    /// Caller-supplied import time, in microseconds since the epoch.
    pub imported_at: i64,
    /// The stylo (writing identity) that wrote the note.
    pub stylo_id: u128,
    /// The project the note belongs to.
    pub project_id: u128,
    /// The text of the note.
    pub content: String,
}

impl Clone for Note {
    /// An equal copy of the note.
    fn clone(&self) -> (r: Self)
        ensures
            r == *self,
    {
        Note {
            note_id: self.note_id,
            imported_at: self.imported_at,
            stylo_id: self.stylo_id,
            project_id: self.project_id,
            content: self.content.clone(),
        }
    }
}

/// Command to create a note under the project a slug points to.
#[derive(Debug)]
pub struct CreateNoteCommand {
    /// Caller-supplied import time, in microseconds since the epoch.
    pub imported_at: i64,
    /// The stylo that writes the note.
    pub stylo_id: u128,
    /// Slug of the project the note is for.
    pub project_slug: String,
    /// The text of the note.
    pub content: String,
}

impl Clone for CreateNoteCommand {
    /// An equal copy of the command.
    fn clone(&self) -> (r: Self)
        ensures
            r == *self,
    {
        CreateNoteCommand {
            imported_at: self.imported_at,
            stylo_id: self.stylo_id,
            project_slug: self.project_slug.clone(),
            content: self.content.clone(),
        }
    }
}

/// The changes a note can go through.
#[derive(Clone, Copy, Debug, PartialEq, Eq, Structural)]
pub enum NoteChangeKind {
    /// The note was created.
    Created,
    /// The note was scratched (deleted for good).
    Scratched,
}

} // verus!
