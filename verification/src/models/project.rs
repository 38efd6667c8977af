//! Projects: the workspaces notes and thoughts are attached to.

use vstd::prelude::*;
use crate::models::ValidationError;
use crate::runtime::{fresh_id, now_micros};
use crate::slug::{is_slug, make_slug, slug_of};
use crate::text::{trim_text, trimmed};

verus! {

/// A project. Its slug is derived from the name and is globally unique
/// across all projects; the name itself is stored trimmed.
#[derive(Debug)]
pub struct Project {
    /// Unique identifier of the project.
    pub project_id: u128,
    /// The universe (workspace root) the project belongs to.
    pub universe_id: u128,
    /// When the project was created, in microseconds since the epoch.
    pub created_at: i64,
    /// Human-readable name of the project.
    pub project_name: String,
    /// URL-safe identifier derived from the name.
    pub slug: String,
    /// Whether the project is locked against modification.
    pub locked: bool,
}

impl Clone for Project {
    /// An equal copy of the project.
    fn clone(&self) -> (r: Self)
        ensures
            r == *self,
    {
        Project {
            project_id: self.project_id,
            universe_id: self.universe_id,
            created_at: self.created_at,
            project_name: self.project_name.clone(),
            slug: self.slug.clone(),
            locked: self.locked,
        }
    }
}

/// The changes a project can go through.
#[derive(Clone, Copy, Debug, PartialEq, Eq, Structural)]
pub enum ProjectChangeKind {
    /// The project was created.
    Created,
    /// The project was locked.
    Locked,
    /// The project was unlocked.
    Unlocked,
}

/// Command to create a project in a universe.
#[derive(Debug)]
pub struct CreateProjectCommand {
    /// The name of the project.
    pub project_name: String,
    /// The universe the project will belong to.
    pub universe_id: u128,
}

impl Clone for CreateProjectCommand {
    /// An equal copy of the command.
    fn clone(&self) -> (r: Self)
        ensures
            r == *self,
    {
        CreateProjectCommand {
            project_name: self.project_name.clone(),
            universe_id: self.universe_id,
        }
    }
}

impl Project {
    /// Builds a project from a command: the name must hold something besides
    /// whitespace; the slug is derived from the untrimmed name; the project
    /// starts unlocked. The identifier and creation time are drawn from the
    /// environment, so nothing is said of them.
    pub fn create(command: CreateProjectCommand) -> (r: Result<Self, ValidationError>)
        ensures
            match r {
                Ok(p) => {
                    &&& trimmed(command.project_name@).len() > 0
                    &&& p.project_name@ == trimmed(command.project_name@)
                    &&& p.slug@ == slug_of(command.project_name@)
                    &&& is_slug(p.slug@)
                    &&& p.universe_id == command.universe_id
                    &&& !p.locked
                },
                Err(e) => {
                    &&& trimmed(command.project_name@).len() == 0
                    &&& e == ValidationError::EmptyProjectName
                },
            },
    {
        let name = trim_text(command.project_name.as_str());
        if name.as_str().is_empty() {
            return Err(ValidationError::EmptyProjectName);
        }
        let slug = Self::generate_slug(command.project_name.as_str());
        Ok(
            Project {
                project_id: fresh_id(),
                universe_id: command.universe_id,
                created_at: now_micros(),
                project_name: name,
                slug,
                locked: false,
            },
        )
    }

    /// Derives the URL-safe slug of a project name. The result is always a
    /// well-formed slug; an ASCII name is normalised by the fully-specified
    /// byte pipeline alone; and deriving a slug from a string that already
    /// is one gives that string back: the derivation is idempotent.
    pub fn generate_slug(name: &str) -> (r: String)
        ensures
            r@ == slug_of(name@),
            is_slug(r@),
            vstd::utf8::is_ascii_chars(name@) ==> r@ == crate::text::chars_of_bytes(
                crate::slug::normalize(crate::text::bytes_of_chars(name@)),
            ),
            is_slug(name@) ==> r@ == name@,
    {
        make_slug(name)
    }
}

} // verus!
