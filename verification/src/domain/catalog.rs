//! Resource catalog vocabulary: what is stored, who owns it and how.

use vstd::prelude::*;

verus! {

/// What a stored resource holds.
#[derive(Copy, Clone, Debug, PartialEq, Eq, Structural)]
pub enum ResourceKind {
    GeneratedImage,
    StreamFinalImage,
    DirectorResult,
    SourceImage,
    ReferenceImage,
    ControlNetImage,
    PromptThumb,
    VibeDocument,
    VibePreview,
    VibeEncoding,
    LexiconBundle,
}

/// How long a stored resource is kept.
#[derive(Copy, Clone, Debug, PartialEq, Eq, Structural)]
pub enum ResourceLifecycle {
    WorkspaceScoped,
    JobScoped,
    Cache,
    ExportOnly,
}

/// Where a stored resource is in its lifecycle.
#[derive(Copy, Clone, Debug, PartialEq, Eq, Structural)]
pub enum ResourceState {
    Pending,
    Ready,
    DeletePending,
}

/// The kind of record that owns a resource link.
#[derive(Copy, Clone, Debug, PartialEq, Eq, Structural)]
pub enum ResourceOwnerKind {
    Job,
    GalleryItem,
    PromptResource,
    Vibe,
    DirectorRun,
    Cache,
    ImportStaging,
    Workspace,
}

/// How an owner uses a linked resource.
#[derive(Copy, Clone, Debug, PartialEq, Eq, Structural)]
pub enum ResourceRelation {
    Primary,
    Source,
    Reference,
    Thumbnail,
    Preview,
    Encoding,
    DerivedFrom,
}

/// The rendition a resource variant provides.
#[derive(Copy, Clone, Debug, PartialEq, Eq, Structural)]
pub enum ResourceVariantKind {
    Original,
    Preview,
    Thumbnail,
    Sanitized,
    Export,
}

/// A reference to a stored resource, optionally to one of its variants.
#[derive(Clone, Debug, PartialEq, Eq)]
pub struct ResourceRef {
    pub id: String,
    pub variant_id: Option<String>,
}

/// Descriptive columns of a stored resource or variant.
#[derive(Clone, Debug, PartialEq, Eq)]
pub struct ResourceMetadata {
    pub mime_type: Option<String>,
    pub byte_size: Option<u64>,
    pub content_hash: Option<String>,
    pub width: Option<u32>,
    pub height: Option<u32>,
    pub created_at_ms: Option<u64>,
}

/// A stored resource.
#[derive(Clone, Debug, PartialEq, Eq)]
pub struct ResourceRecord {
    pub id: String,
    pub kind: ResourceKind,
    pub lifecycle: ResourceLifecycle,
    pub state: ResourceState,
    pub blob_id: String,
    pub metadata: ResourceMetadata,
}

/// A rendition of a stored resource.
#[derive(Clone, Debug, PartialEq, Eq)]
pub struct ResourceVariant {
    pub id: String,
    pub resource_id: String,
    pub kind: ResourceVariantKind,
    pub blob_id: String,
    pub metadata: ResourceMetadata,
}

/// The record that owns a resource link.
#[derive(Clone, Debug, PartialEq, Eq)]
pub struct ResourceOwner {
    pub kind: ResourceOwnerKind,
    pub local_id: String,
}

/// An owner's use of a resource.
#[derive(Clone, Debug, PartialEq, Eq)]
pub struct ResourceLink {
    pub resource_id: String,
    pub owner: ResourceOwner,
    pub relation: ResourceRelation,
}

impl ResourceLink {
    /// What identifies this link: the resource, the owner's kind and id, and
    /// the relation.
    pub open spec fn spec_key(&self) -> (Seq<char>, ResourceOwnerKind, Seq<char>, ResourceRelation) {
        (self.resource_id@, self.owner.kind, self.owner.local_id@, self.relation)
    }
}

} // verus!
