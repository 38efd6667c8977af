//! Domain events: one transient notification per successful mutation.

use vstd::prelude::*;
use crate::models::note::NoteChangeKind;
use crate::models::project::ProjectChangeKind;
use crate::models::thought::ThoughtChangeKind;

verus! {

/// Which aggregate changed, with its identifiers and the kind of change.
#[derive(Clone, Copy, Debug, PartialEq, Eq, Structural)]
pub enum ModelKind {
    /// A note changed.
    Note {
        /// The note that changed.
        note_id: u128,
        /// The project the note belongs to.
        project_id: u128,
        /// What happened to the note.
        change_kind: NoteChangeKind,
    },
    /// A project changed.
    Project {
        /// The project that changed.
        project_id: u128,
        /// The universe the project belongs to.
        universe_id: u128,
        /// What happened to the project.
        change_kind: ProjectChangeKind,
    },
    /// A thought changed.
    Thought {
        /// The thought that changed.
        thought_id: u128,
        /// The project the thought belongs to.
        project_id: u128,
        /// What happened to the thought.
        change_kind: ThoughtChangeKind,
    },
}

/// A domain event published on the event channel after a mutation has
/// committed. Events are not persisted.
#[derive(Clone, Copy, Debug, PartialEq, Eq, Structural)]
pub struct ModelEvent {
    /// The change this event describes.
    pub model: ModelKind,
    /// When the event was built, in microseconds since the epoch.
    pub timestamp: i64,
}

} // verus!
