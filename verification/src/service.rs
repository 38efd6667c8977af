//! The domain service: the single entry point for all mutating use-cases.

pub mod thought;

pub use thought::{ThoughtService, ThoughtServiceError};
