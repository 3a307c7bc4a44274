//! The stored form of agent sessions: their vocabulary and transcript events.

pub mod events;
pub mod scalars;
