//! The values the database stores, as the rest of Atelier sees them.

pub mod agent;
pub mod artifacts;
pub mod catalog;
pub mod gallery;
pub mod generation;
pub mod jobs;
pub mod library;
pub mod prompt;
pub mod safety;
pub mod vibe;
