//! Domain core of a small collaborative note-taking backend.
//!
//! Scribes attach short-lived notes and chained thoughts to projects, which
//! belong to a universe (workspace root). The crate verifies the coordination
//! rules: slug derivation and uniqueness, existence of referenced aggregates,
//! parent-chain validity, and the emission of exactly one domain event per
//! successful mutation.

pub mod adapter;
pub mod config;
pub mod models;
pub mod runtime;
pub mod service;
pub mod slug;
pub mod text;
