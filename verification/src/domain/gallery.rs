//! Gallery vocabulary.

use vstd::prelude::*;
use crate::domain::artifacts::ArtifactKind;
use crate::domain::safety::SafetyLabel;

verus! {

/// The pipeline that produced a gallery item.
#[derive(Copy, Clone, Debug, PartialEq, Eq, Structural)]
pub enum GallerySourceKind {
    Generation,
    Director,
    Import,
}

/// A label chosen by hand for a gallery item.
#[derive(Copy, Clone, Debug, PartialEq, Eq, Structural)]
pub enum GallerySafetyOverride {
    Safe,
    Sensitive,
    Hidden,
}

/// Which class of failure a [`GalleryError`] reports.
#[derive(Copy, Clone, Debug, PartialEq, Eq, Structural)]
pub enum GalleryErrorKind {
    NotFound,
    Repository,
}

/// A failure of the gallery index.
#[derive(Clone, Debug)]
pub struct GalleryError {
    kind: GalleryErrorKind,
    message: String,
}

impl GalleryError {
    /// The kind of this error.
    pub closed spec fn spec_kind(&self) -> GalleryErrorKind {
        self.kind
    }

    /// The message of this error.
    pub closed spec fn spec_message(&self) -> Seq<char> {
        self.message@
    }

    /// An error of `kind` carrying `message`.
    pub fn new(kind: GalleryErrorKind, message: String) -> (error: Self)
        ensures
            error.spec_kind() == kind,
            error.spec_message() == message@,
    {
        GalleryError { kind, message }
    }

    /// The kind of this error.
    pub fn kind(&self) -> (kind: GalleryErrorKind)
        ensures
            kind == self.spec_kind(),
    {
        self.kind
    }

    /// The message of this error.
    pub fn message(&self) -> (message: &str)
        ensures
            message@ == self.spec_message(),
    {
        self.message.as_str()
    }
}

/// The result type of gallery operations.
pub type GalleryResult<T> = Result<T, GalleryError>;

/// A page of the gallery, filtered by what produced the items and by their
/// safety labels.
#[derive(Clone, Debug, PartialEq, Eq)]
pub struct GalleryQuery {
    pub artifact_kind: Option<ArtifactKind>,
    pub source_kind: Option<GallerySourceKind>,
    pub manual_safety_override: Option<GallerySafetyOverride>,
    pub safety_label: Option<SafetyLabel>,
    pub offset: usize,
    pub limit: usize,
}

} // verus!
