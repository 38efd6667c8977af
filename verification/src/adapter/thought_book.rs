//! The thought store: the repository contract and its in-memory
//! implementation.

use vstd::prelude::*;
use crate::models::thought::{CreateThoughtCommand, Thought};
use crate::runtime::fresh_id;

verus! {

broadcast use vstd::std_specs::hash::group_hash_axioms;

/// The thought store's own error.
#[derive(Debug)]
pub enum ThoughtBookError {
    /// The command names a parent thought that is not in the store.
    InvalidParentReference(u128),
}

/// What a thought store must do, stated over the map of thoughts it holds.
/// The in-memory store below implements it; a durable store would have to
/// meet the same contract.
pub trait ThoughtBook: Sized {
    /// The thoughts the store holds, keyed by identifier.
    spec fn model(&self) -> Map<u128, Thought>;

    /// The store's internal invariant.
    spec fn inv(&self) -> bool;

    /// Adds a thought built from the command, under the already-resolved
    /// project. A named parent must be in the store, or the command is
    /// rejected and nothing changes. The identifier is drawn from the
    /// environment, so nothing is said of its value.
    fn add(&mut self, command: CreateThoughtCommand, project_id: u128) -> (r: Result<
        Thought,
        ThoughtBookError,
    >)
        requires
            old(self).inv(),
        ensures
            final(self).inv(),
            match r {
                Ok(t) => {
                    &&& match command.parent_id {
                        Some(p) => old(self).model().contains_key(p),
                        None => true,
                    }
                    &&& t.parent_id == command.parent_id
                    &&& t.imported_at == command.imported_at
                    &&& t.stylo_id == command.stylo_id
                    &&& t.project_id == project_id
                    &&& t.content == command.content
                    &&& final(self).model() == old(self).model().insert(t.thought_id, t)
                },
                Err(ThoughtBookError::InvalidParentReference(p)) => {
                    &&& command.parent_id == Some(p)
                    &&& !old(self).model().contains_key(p)
                    &&& final(self).model() == old(self).model()
                },
            },
    ;

    /// The thought an identifier points to, if any; absence is a normal
    /// outcome, not an error.
    fn get(&self, thought_id: u128) -> (r: Option<Thought>)
        ensures
            match r {
                Some(t) => self.model().contains_key(thought_id) && t == self.model()[thought_id],
                None => !self.model().contains_key(thought_id),
            },
    ;

    /// Stores the given thought under its identifier, replacing any stored
    /// version: an upsert, as documented — a missing target is not an error.
    fn sync(&mut self, thought: Thought) -> (r: Thought)
        requires
            old(self).inv(),
        ensures
            final(self).inv(),
            r == thought,
            final(self).model() == old(self).model().insert(thought.thought_id, thought),
    ;
}

/// In-memory implementation of the thought store: a map from thought
/// identifier to thought.
pub struct InMemoryThoughtBook {
    /// The thoughts, keyed by their identifier.
    pub thoughts: std::collections::HashMap<u128, Thought>,
}

impl Default for InMemoryThoughtBook {
    /// An empty thought store.
    fn default() -> (r: Self)
        ensures
            r.wf(),
            r.thoughts@ == Map::<u128, Thought>::empty(),
    {
        InMemoryThoughtBook { thoughts: std::collections::HashMap::new() }
    }
}

impl InMemoryThoughtBook {
    /// Every thought is keyed by its own identifier.
    pub open spec fn wf(&self) -> bool {
        forall|id: u128|
            self.thoughts@.contains_key(id) ==> (#[trigger] self.thoughts@[id]).thought_id == id
    }
}

impl ThoughtBook for InMemoryThoughtBook {
    open spec fn model(&self) -> Map<u128, Thought> {
        self.thoughts@
    }

    open spec fn inv(&self) -> bool {
        self.wf()
    }

    fn add(&mut self, command: CreateThoughtCommand, project_id: u128) -> (r: Result<
        Thought,
        ThoughtBookError,
    >) {
        if let Some(parent_id) = command.parent_id {
            if !self.thoughts.contains_key(&parent_id) {
                return Err(ThoughtBookError::InvalidParentReference(parent_id));
            }
        }
        let thought = Thought {
            thought_id: fresh_id(),
            parent_id: command.parent_id,
            imported_at: command.imported_at,
            stylo_id: command.stylo_id,
            project_id,
            content: command.content,
        };
        self.thoughts.insert(thought.thought_id, thought.clone());
        Ok(thought)
    }

    fn get(&self, thought_id: u128) -> (r: Option<Thought>) {
        match self.thoughts.get(&thought_id) {
            Some(t) => Some(t.clone()),
            None => None,
        }
    }

    fn sync(&mut self, thought: Thought) -> (r: Thought) {
        self.thoughts.insert(thought.thought_id, thought.clone());
        thought
    }
}

} // verus!
