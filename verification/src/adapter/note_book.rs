//! The note store: the repository contract and its in-memory
//! implementation.

use vstd::prelude::*;
use crate::models::note::{CreateNoteCommand, Note};
use crate::runtime::fresh_id;

verus! {

broadcast use vstd::std_specs::hash::group_hash_axioms;

/// What a note store must do, stated over the map of notes it holds. The
/// in-memory store below implements it; a durable store would have to meet
/// the same contract. Every successful operation is visible to any later
/// lookup: each method is one critical section under an exclusive borrow.
pub trait NoteBook: Sized {
    /// The notes the store holds, keyed by identifier.
    spec fn model(&self) -> Map<u128, Note>;

    /// The store's internal invariant.
    spec fn inv(&self) -> bool;

    /// Adds a note built from the command, under the already-resolved
    /// project. The identifier is drawn from the environment, so nothing is
    /// said of its value.
    fn add(&mut self, command: CreateNoteCommand, project_id: u128) -> (r: Note)
        requires
            old(self).inv(),
        ensures
            final(self).inv(),
            r.imported_at == command.imported_at,
            r.stylo_id == command.stylo_id,
            r.project_id == project_id,
            r.content == command.content,
            final(self).model() == old(self).model().insert(r.note_id, r),
    ;

    /// The note an identifier points to, if any; absence is a normal
    /// outcome, not an error.
    fn get(&self, note_id: u128) -> (r: Option<Note>)
        ensures
            match r {
                Some(n) => self.model().contains_key(note_id) && n == self.model()[note_id],
                None => !self.model().contains_key(note_id),
            },
    ;

    /// Stores the given note under its identifier, replacing any stored
    /// version: an upsert, as documented — a missing target is not an error.
    fn sync(&mut self, note: Note) -> (r: Note)
        requires
            old(self).inv(),
        ensures
            final(self).inv(),
            r == note,
            final(self).model() == old(self).model().insert(note.note_id, note),
    ;

    /// Removes a note and returns it; `None` if it never existed. Deletion
    /// is terminal: there is no soft delete.
    fn delete(&mut self, note_id: u128) -> (r: Option<Note>)
        requires
            old(self).inv(),
        ensures
            final(self).inv(),
            match r {
                Some(n) => {
                    &&& old(self).model().contains_key(note_id)
                    &&& n == old(self).model()[note_id]
                    &&& final(self).model() == old(self).model().remove(note_id)
                },
                None => {
                    &&& !old(self).model().contains_key(note_id)
                    &&& final(self).model() == old(self).model()
                },
            },
    ;
}

/// In-memory implementation of the note store: a map from note identifier
/// to note.
pub struct InMemoryNoteBook {
    /// The notes, keyed by their identifier.
    pub notes: std::collections::HashMap<u128, Note>,
}

impl Default for InMemoryNoteBook {
    /// An empty note store.
    fn default() -> (r: Self)
        ensures
            r.wf(),
            r.notes@ == Map::<u128, Note>::empty(),
    {
        InMemoryNoteBook { notes: std::collections::HashMap::new() }
    }
}

impl InMemoryNoteBook {
    /// Every note is keyed by its own identifier.
    pub open spec fn wf(&self) -> bool {
        forall|id: u128|
            self.notes@.contains_key(id) ==> (#[trigger] self.notes@[id]).note_id == id
    }
}

impl NoteBook for InMemoryNoteBook {
    open spec fn model(&self) -> Map<u128, Note> {
        self.notes@
    }

    open spec fn inv(&self) -> bool {
        self.wf()
    }

    fn add(&mut self, command: CreateNoteCommand, project_id: u128) -> (r: Note) {
        let note = Note {
            note_id: fresh_id(),
            imported_at: command.imported_at,
            stylo_id: command.stylo_id,
            project_id,
            content: command.content,
        };
        self.notes.insert(note.note_id, note.clone());
        note
    }

    fn get(&self, note_id: u128) -> (r: Option<Note>) {
        match self.notes.get(&note_id) {
            Some(n) => Some(n.clone()),
            None => None,
        }
    }

    fn sync(&mut self, note: Note) -> (r: Note) {
        self.notes.insert(note.note_id, note.clone());
        note
    }

    fn delete(&mut self, note_id: u128) -> (r: Option<Note>) {
        let r = self.notes.remove(&note_id);
        proof {
            if !old(self).notes@.contains_key(note_id) {
                assert(self.notes@ =~= old(self).notes@);
            }
        }
        r
    }
}

} // verus!
