//! Vibe transfer documents and encodings.

use vstd::prelude::*;
use crate::domain::catalog::ResourceRef;

verus! {

/// The image model a vibe encoding is made for.
#[derive(Copy, Clone, Debug, PartialEq, Eq, Structural)]
pub enum VibeModel {
    NaiDiffusion4Full,
    NaiDiffusion4Curated,
    NaiDiffusion45Full,
    NaiDiffusion45Curated,
}

/// The resources that hold a vibe document and its renditions.
#[derive(Clone, Debug)]
pub struct VibeDocumentResources {
    pub document: ResourceRef,
    pub source_image: Option<ResourceRef>,
    pub preview: Option<ResourceRef>,
    pub encodings: Vec<ResourceRef>,
}

} // verus!
