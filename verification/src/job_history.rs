//! Codecs of the job queue snapshot and run history rows.

pub mod scalars;
pub mod snapshot;
