//! Domain entities and the commands that create them.

use vstd::prelude::*;

pub mod event;
pub mod note;
pub mod project;
pub mod stylo;
pub mod thought;

pub use event::{ModelEvent, ModelKind};
pub use note::{CreateNoteCommand, Note, NoteChangeKind};
pub use project::{CreateProjectCommand, Project, ProjectChangeKind};
pub use stylo::{CreateStyloCommand, Stylo, StyloChangeKind};
pub use thought::{CreateThoughtCommand, Thought, ThoughtChangeKind};

verus! {

/// A command was malformed and no entity was created from it.
#[derive(Clone, Copy, Debug, PartialEq, Eq, Structural)]
pub enum ValidationError {
    /// The project name holds nothing but whitespace.
    EmptyProjectName,
    /// The stylo display name holds nothing but whitespace.
    EmptyDisplayName,
}

} // verus!
