//! In-memory stores for the three aggregates, each owning its backing map
//! and keeping every compound operation a single critical section under an
//! exclusive borrow.

pub mod note_book;
pub mod project_book;
pub mod slug_index;
pub mod thought_book;

pub use note_book::{InMemoryNoteBook, NoteBook};
pub use project_book::{InMemoryProjectBook, ProjectBook, ProjectBookError};
pub use slug_index::SlugIndex;
pub use thought_book::{InMemoryThoughtBook, ThoughtBook, ThoughtBookError};
