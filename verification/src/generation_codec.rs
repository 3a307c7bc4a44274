//! Codecs of generation plans, prompts and payloads.

pub mod scalars;
pub mod plan;
pub mod prompt;
pub mod payload;
