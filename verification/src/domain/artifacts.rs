//! Artifacts produced by generation, direction and import.

use vstd::prelude::*;

use crate::domain::catalog::{ResourceRef, ResourceVariantKind};

verus! {

/// Where an artifact came from.
#[derive(Copy, Clone, Debug, PartialEq, Eq, Structural)]
pub enum ArtifactKind {
    GeneratedImage,
    DirectorResult,
    ImportedImage,
}

/// The part a visual asset plays for an artifact.
#[derive(Copy, Clone, Debug, PartialEq, Eq, Structural)]
pub enum VisualAssetRole {
    Original,
    Thumbnail,
    Preview,
    Sanitized,
    Export,
}

/// How far the metadata embedded in an image file could be read.
#[derive(Copy, Clone, Debug, PartialEq, Eq, Structural)]
pub enum EmbeddedMetadataStatus {
    Parsed,
    NotPresent,
    UnsupportedFormat,
    Invalid,
}

/// A problem met while reading the metadata embedded in an image file.
#[derive(Clone, Debug, PartialEq, Eq)]
pub enum EmbeddedMetadataWarning {
    InvalidCommentJson,
    InvalidTextChunk { keyword: String, message: String },
    Unknown(String),
}

/// The run that produced an artifact.
#[derive(Clone, Debug, PartialEq, Eq)]
pub enum ArtifactSource {
    GenerationJob { job_id: String, batch_id: Option<String> },
    DirectorRun { run_id: String },
}

/// A rendition of an artifact and the resource that holds it.
#[derive(Clone, Debug, PartialEq, Eq)]
pub struct VisualAssetRef {
    pub role: VisualAssetRole,
    pub resource: ResourceRef,
    pub variant_kind: Option<ResourceVariantKind>,
}

/// What is needed to replay the request that produced an artifact.
#[derive(Clone, Debug, PartialEq, Eq)]
pub struct ArtifactReplayManifest {
    pub payload_ref: Option<String>,
    pub prepared_payload_ref: Option<String>,
    pub prompt_snapshot: Option<String>,
    pub negative_prompt_snapshot: Option<String>,
}

/// Generation details of an artifact; `extensions` holds key/value pairs in
/// key order.
#[derive(Clone, Debug, PartialEq, Eq)]
pub struct ArtifactMetadata {
    pub request_seed: Option<i64>,
    pub seed: Option<i64>,
    pub sample_index: Option<u32>,
    pub model_name: Option<String>,
    pub embedded_metadata_status: Option<EmbeddedMetadataStatus>,
    pub embedded_prompt: Option<String>,
    pub embedded_negative_prompt: Option<String>,
    pub embedded_metadata_json: Option<String>,
    pub embedded_metadata_error: Option<String>,
    pub embedded_metadata_warnings: Vec<EmbeddedMetadataWarning>,
    pub extensions: Vec<(String, String)>,
}

/// An image produced by generation, direction or import.
#[derive(Clone, Debug, PartialEq, Eq)]
pub struct ArtifactRecord {
    pub id: String,
    pub kind: ArtifactKind,
    pub source: ArtifactSource,
    pub primary_resource: ResourceRef,
    pub metadata: ArtifactMetadata,
    pub replay: Option<ArtifactReplayManifest>,
    pub assets: Vec<VisualAssetRef>,
}

} // verus!
