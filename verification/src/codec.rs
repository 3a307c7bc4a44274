//! JSON document codecs of the catalog, artifact, gallery and vibe records.

pub mod artifact;
pub mod gallery;
pub mod json;
pub mod resource;
pub mod scalars;
pub mod vibe;
