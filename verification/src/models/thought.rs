//! Thoughts: longer-lived pieces of text that may chain to a parent thought,
//! forming a forest — a parent must exist when the child is created, and a
//! parent reference never changes afterwards.

use vstd::prelude::*;

verus! {

/// A thought. Shaped like a note, with an optional parent reference.
#[derive(Debug)]
pub struct Thought {
    /// Unique identifier of the thought.
    pub thought_id: u128,
    /// The thought this one chains to, if any.
    pub parent_id: Option<u128>,
    /// Caller-supplied import time, in microseconds since the epoch.
    pub imported_at: i64,
    /// The stylo (writing identity) that wrote the thought.
    pub stylo_id: u128,
    /// The project the thought belongs to.
    pub project_id: u128,
    /// The text of the thought.
    pub content: String,
}

impl Clone for Thought {
    /// An equal copy of the thought.
    fn clone(&self) -> (r: Self)
        ensures
            r == *self,
    {
        Thought {
            thought_id: self.thought_id,
            parent_id: self.parent_id,
            imported_at: self.imported_at,
            stylo_id: self.stylo_id,
            project_id: self.project_id,
            content: self.content.clone(),
        }
    }
}

/// Command to create a thought under the project a slug points to.
#[derive(Debug)]
pub struct CreateThoughtCommand {
    /// Caller-supplied import time, in microseconds since the epoch.
    pub imported_at: i64,
    /// The thought the new one chains to, if any.
    pub parent_id: Option<u128>,
    /// The stylo that writes the thought.
    pub stylo_id: u128,
    /// Slug of the project the thought is for.
    pub project_slug: String,
    /// The text of the thought.
    pub content: String,
}

impl Clone for CreateThoughtCommand {
    /// An equal copy of the command.
    fn clone(&self) -> (r: Self)
        ensures
            r == *self,
    {
        CreateThoughtCommand {
            imported_at: self.imported_at,
            parent_id: self.parent_id,
            stylo_id: self.stylo_id,
            project_slug: self.project_slug.clone(),
            content: self.content.clone(),
        }
    }
}

/// The changes a thought can go through.
#[derive(Clone, Copy, Debug, PartialEq, Eq, Structural)]
pub enum ThoughtChangeKind {
    /// The thought was created.
    Created,
    /// The thought was disputed by another thought.
    Disputed(u128),
}

} // verus!
