//! Stylos: the right to write on behalf of an organization, granted to a
//! member of an organization (the two may coincide).

use vstd::prelude::*;
use crate::models::ValidationError;
use crate::runtime::{fresh_id, now_micros};
use crate::text::{trim_text, trimmed};

verus! {

/// A stylo, the writing identity credited with authoring notes and thoughts.
#[derive(Debug)]
pub struct Stylo {
    /// Unique identifier of the stylo.
    pub stylo_id: u128,
    /// The organization that owns the stylo.
    pub owner_organization_id: u128,
    /// The organization that may use the stylo.
    pub actor_organization_id: u128,
    /// When the stylo was created, in microseconds since the epoch.
    pub created_at: i64,
    /// Human-readable name of the stylo; stored trimmed.
    pub display_name: String,
    /// Whether the stylo is locked and can no longer be used.
    pub is_locked: bool,
    /// The email address associated with the stylo.
    pub email: String,
}

impl Clone for Stylo {
    /// An equal copy of the stylo.
    fn clone(&self) -> (r: Self)
        ensures
            r == *self,
    {
        Stylo {
            stylo_id: self.stylo_id,
            owner_organization_id: self.owner_organization_id,
            actor_organization_id: self.actor_organization_id,
            created_at: self.created_at,
            display_name: self.display_name.clone(),
            is_locked: self.is_locked,
            email: self.email.clone(),
        }
    }
}

/// Command to create a stylo.
#[derive(Debug)]
pub struct CreateStyloCommand {
    /// The organization that will own the stylo.
    pub owner_organization_id: u128,
    /// The organization that will use the stylo.
    pub actor_organization_id: u128,
    /// Display name for the stylo.
    pub display_name: String,
    /// Email address associated with the stylo.
    pub email: String,
}

impl Clone for CreateStyloCommand {
    /// An equal copy of the command.
    fn clone(&self) -> (r: Self)
        ensures
            r == *self,
    {
        CreateStyloCommand {
            owner_organization_id: self.owner_organization_id,
            actor_organization_id: self.actor_organization_id,
            display_name: self.display_name.clone(),
            email: self.email.clone(),
        }
    }
}

/// The changes a stylo can go through.
#[derive(Clone, Copy, Debug, PartialEq, Eq, Structural)]
pub enum StyloChangeKind {
    /// The stylo was created.
    Created,
    /// The stylo was locked.
    Locked,
    /// The stylo was unlocked.
    Unlocked,
    /// The stylo was revoked.
    Revoked,
}

impl Stylo {
    /// Builds a stylo from a command: the display name must hold something
    /// besides whitespace and is stored trimmed; the email is kept as given;
    /// the stylo starts unlocked. The identifier and creation time are drawn
    /// from the environment, so nothing is said of them.
    pub fn create(command: CreateStyloCommand) -> (r: Result<Self, ValidationError>)
        ensures
            match r {
                Ok(s) => {
                    &&& trimmed(command.display_name@).len() > 0
                    &&& s.display_name@ == trimmed(command.display_name@)
                    &&& s.email == command.email
                    &&& s.owner_organization_id == command.owner_organization_id
                    &&& s.actor_organization_id == command.actor_organization_id
                    &&& !s.is_locked
                },
                Err(e) => {
                    &&& trimmed(command.display_name@).len() == 0
                    &&& e == ValidationError::EmptyDisplayName
                },
            },
    {
        let name = trim_text(command.display_name.as_str());
        if name.as_str().is_empty() {
            return Err(ValidationError::EmptyDisplayName);
        }
        Ok(
            Stylo {
                stylo_id: fresh_id(),
                owner_organization_id: command.owner_organization_id,
                actor_organization_id: command.actor_organization_id,
                created_at: now_micros(),
                display_name: name,
                is_locked: false,
                email: command.email,
            },
        )
    }
}

} // verus!
