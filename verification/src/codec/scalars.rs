//! Stored texts of the resource catalog, artifact, gallery and vibe vocabularies.

use vstd::prelude::*;

use crate::domain::artifacts::{ArtifactKind};
use crate::domain::catalog::{ResourceKind, ResourceLifecycle, ResourceOwnerKind, ResourceRelation, ResourceState, ResourceVariantKind};
use crate::domain::gallery::{GallerySafetyOverride, GallerySourceKind};
use crate::domain::vibe::{VibeModel};
use crate::error::{decode_error, decode_message, DatabaseErrorKind, DatabaseResult};
use crate::text::str_eq;
use crate::domain::catalog::ResourceMetadata;

verus! {

/// The text that stores each [`ResourceKind`] value.
pub open spec fn resource_kind_text(value: ResourceKind) -> Seq<char> {
    match value {
        ResourceKind::GeneratedImage => "generated_image"@,
        ResourceKind::StreamFinalImage => "stream_final_image"@,
        ResourceKind::DirectorResult => "director_result"@,
        ResourceKind::SourceImage => "source_image"@,
        ResourceKind::ReferenceImage => "reference_image"@,
        ResourceKind::ControlNetImage => "controlnet_image"@,
        ResourceKind::PromptThumb => "prompt_thumb"@,
        ResourceKind::VibeDocument => "vibe_document"@,
        ResourceKind::VibePreview => "vibe_preview"@,
        ResourceKind::VibeEncoding => "vibe_encoding"@,
        ResourceKind::LexiconBundle => "lexicon_bundle"@,
    }
}

/// The [`ResourceKind`] value stored as `text`, if `text` stores one.
pub open spec fn resource_kind_parse(text: Seq<char>) -> Option<ResourceKind> {
    if text == "generated_image"@ {
        Some(ResourceKind::GeneratedImage)
    } else if text == "stream_final_image"@ {
        Some(ResourceKind::StreamFinalImage)
    } else if text == "director_result"@ {
        Some(ResourceKind::DirectorResult)
    } else if text == "source_image"@ {
        Some(ResourceKind::SourceImage)
    } else if text == "reference_image"@ {
        Some(ResourceKind::ReferenceImage)
    } else if text == "controlnet_image"@ {
        Some(ResourceKind::ControlNetImage)
    } else if text == "prompt_thumb"@ {
        Some(ResourceKind::PromptThumb)
    } else if text == "vibe_document"@ {
        Some(ResourceKind::VibeDocument)
    } else if text == "vibe_preview"@ {
        Some(ResourceKind::VibePreview)
    } else if text == "vibe_encoding"@ {
        Some(ResourceKind::VibeEncoding)
    } else if text == "lexicon_bundle"@ {
        Some(ResourceKind::LexiconBundle)
    } else {
        None
    }
}

/// Decoding the stored text of a [`ResourceKind`] gives the value back, and a text
/// decodes to a value only when it is that value's stored text; so distinct
/// values are stored as distinct texts.
pub proof fn lemma_resource_kind_round_trip(value: ResourceKind, text: Seq<char>)
    ensures
        resource_kind_parse(resource_kind_text(value)) == Some(value),
        resource_kind_parse(text) == Some(value) ==> resource_kind_text(value) == text,
{
    reveal_strlit("generated_image");
    assert("generated_image"@.len() == 15);
    reveal_strlit("stream_final_image");
    assert("stream_final_image"@.len() == 18);
    reveal_strlit("director_result");
    assert("director_result"@.len() == 15);
    reveal_strlit("source_image");
    assert("source_image"@.len() == 12);
    reveal_strlit("reference_image");
    assert("reference_image"@.len() == 15);
    reveal_strlit("controlnet_image");
    assert("controlnet_image"@.len() == 16);
    reveal_strlit("prompt_thumb");
    assert("prompt_thumb"@.len() == 12);
    reveal_strlit("vibe_document");
    assert("vibe_document"@.len() == 13);
    reveal_strlit("vibe_preview");
    assert("vibe_preview"@.len() == 12);
    reveal_strlit("vibe_encoding");
    assert("vibe_encoding"@.len() == 13);
    reveal_strlit("lexicon_bundle");
    assert("lexicon_bundle"@.len() == 14);
    match value {
        ResourceKind::GeneratedImage => {
            assert(resource_kind_parse("generated_image"@) == Some(ResourceKind::GeneratedImage));
        },
        ResourceKind::StreamFinalImage => {
            assert(resource_kind_parse("stream_final_image"@) == Some(ResourceKind::StreamFinalImage));
        },
        ResourceKind::DirectorResult => {
            assert("director_result"@[0] != "generated_image"@[0]);
            assert(resource_kind_parse("director_result"@) == Some(ResourceKind::DirectorResult));
        },
        ResourceKind::SourceImage => {
            assert(resource_kind_parse("source_image"@) == Some(ResourceKind::SourceImage));
        },
        ResourceKind::ReferenceImage => {
            assert("reference_image"@[0] != "generated_image"@[0]);
            assert("reference_image"@[0] != "director_result"@[0]);
            assert(resource_kind_parse("reference_image"@) == Some(ResourceKind::ReferenceImage));
        },
        ResourceKind::ControlNetImage => {
            assert(resource_kind_parse("controlnet_image"@) == Some(ResourceKind::ControlNetImage));
        },
        ResourceKind::PromptThumb => {
            assert("prompt_thumb"@[0] != "source_image"@[0]);
            assert(resource_kind_parse("prompt_thumb"@) == Some(ResourceKind::PromptThumb));
        },
        ResourceKind::VibeDocument => {
            assert(resource_kind_parse("vibe_document"@) == Some(ResourceKind::VibeDocument));
        },
        ResourceKind::VibePreview => {
            assert("vibe_preview"@[0] != "source_image"@[0]);
            assert("vibe_preview"@[0] != "prompt_thumb"@[0]);
            assert(resource_kind_parse("vibe_preview"@) == Some(ResourceKind::VibePreview));
        },
        ResourceKind::VibeEncoding => {
            assert("vibe_encoding"@[5] != "vibe_document"@[5]);
            assert(resource_kind_parse("vibe_encoding"@) == Some(ResourceKind::VibeEncoding));
        },
        ResourceKind::LexiconBundle => {
            assert(resource_kind_parse("lexicon_bundle"@) == Some(ResourceKind::LexiconBundle));
        },
    }
}

/// The text that stores `value`.
pub fn resource_kind_as_str(value: ResourceKind) -> (text: &'static str)
    ensures
        text@ == resource_kind_text(value),
{
    match value {
        ResourceKind::GeneratedImage => "generated_image",
        ResourceKind::StreamFinalImage => "stream_final_image",
        ResourceKind::DirectorResult => "director_result",
        ResourceKind::SourceImage => "source_image",
        ResourceKind::ReferenceImage => "reference_image",
        ResourceKind::ControlNetImage => "controlnet_image",
        ResourceKind::PromptThumb => "prompt_thumb",
        ResourceKind::VibeDocument => "vibe_document",
        ResourceKind::VibePreview => "vibe_preview",
        ResourceKind::VibeEncoding => "vibe_encoding",
        ResourceKind::LexiconBundle => "lexicon_bundle",
    }
}

/// Decodes a stored [`ResourceKind`]; an unknown text is an error that names it.
pub fn resource_kind_from_str(value: &str) -> (result: DatabaseResult<ResourceKind>)
    ensures
        (match result {
            Ok(parsed) => resource_kind_parse(value@) == Some(parsed),
            Err(error) => {
                &&& resource_kind_parse(value@) is None
                &&& error.spec_kind() == DatabaseErrorKind::Database
                &&& error.spec_message() == decode_message("resource kind"@, value@)
            },
        }),
{
    if str_eq(value, "generated_image") {
        Ok(ResourceKind::GeneratedImage)
    } else if str_eq(value, "stream_final_image") {
        Ok(ResourceKind::StreamFinalImage)
    } else if str_eq(value, "director_result") {
        Ok(ResourceKind::DirectorResult)
    } else if str_eq(value, "source_image") {
        Ok(ResourceKind::SourceImage)
    } else if str_eq(value, "reference_image") {
        Ok(ResourceKind::ReferenceImage)
    } else if str_eq(value, "controlnet_image") {
        Ok(ResourceKind::ControlNetImage)
    } else if str_eq(value, "prompt_thumb") {
        Ok(ResourceKind::PromptThumb)
    } else if str_eq(value, "vibe_document") {
        Ok(ResourceKind::VibeDocument)
    } else if str_eq(value, "vibe_preview") {
        Ok(ResourceKind::VibePreview)
    } else if str_eq(value, "vibe_encoding") {
        Ok(ResourceKind::VibeEncoding)
    } else if str_eq(value, "lexicon_bundle") {
        Ok(ResourceKind::LexiconBundle)
    } else {
        Err(decode_error("resource kind", value))
    }
}

/// The text that stores each [`ResourceLifecycle`] value.
pub open spec fn lifecycle_text(value: ResourceLifecycle) -> Seq<char> {
    match value {
        ResourceLifecycle::WorkspaceScoped => "workspace_scoped"@,
        ResourceLifecycle::JobScoped => "job_scoped"@,
        ResourceLifecycle::Cache => "cache"@,
        ResourceLifecycle::ExportOnly => "export_only"@,
    }
}

/// The [`ResourceLifecycle`] value stored as `text`, if `text` stores one.
pub open spec fn lifecycle_parse(text: Seq<char>) -> Option<ResourceLifecycle> {
    if text == "workspace_scoped"@ {
        Some(ResourceLifecycle::WorkspaceScoped)
    } else if text == "job_scoped"@ {
        Some(ResourceLifecycle::JobScoped)
    } else if text == "cache"@ {
        Some(ResourceLifecycle::Cache)
    } else if text == "export_only"@ {
        Some(ResourceLifecycle::ExportOnly)
    } else {
        None
    }
}

/// Decoding the stored text of a [`ResourceLifecycle`] gives the value back, and a text
/// decodes to a value only when it is that value's stored text; so distinct
/// values are stored as distinct texts.
pub proof fn lemma_lifecycle_round_trip(value: ResourceLifecycle, text: Seq<char>)
    ensures
        lifecycle_parse(lifecycle_text(value)) == Some(value),
        lifecycle_parse(text) == Some(value) ==> lifecycle_text(value) == text,
{
    reveal_strlit("workspace_scoped");
    assert("workspace_scoped"@.len() == 16);
    reveal_strlit("job_scoped");
    assert("job_scoped"@.len() == 10);
    reveal_strlit("cache");
    assert("cache"@.len() == 5);
    reveal_strlit("export_only");
    assert("export_only"@.len() == 11);
    match value {
        ResourceLifecycle::WorkspaceScoped => {
            assert(lifecycle_parse("workspace_scoped"@) == Some(ResourceLifecycle::WorkspaceScoped));
        },
        ResourceLifecycle::JobScoped => {
            assert(lifecycle_parse("job_scoped"@) == Some(ResourceLifecycle::JobScoped));
        },
        ResourceLifecycle::Cache => {
            assert(lifecycle_parse("cache"@) == Some(ResourceLifecycle::Cache));
        },
        ResourceLifecycle::ExportOnly => {
            assert(lifecycle_parse("export_only"@) == Some(ResourceLifecycle::ExportOnly));
        },
    }
}

/// The text that stores `value`.
pub fn lifecycle_as_str(value: ResourceLifecycle) -> (text: &'static str)
    ensures
        text@ == lifecycle_text(value),
{
    match value {
        ResourceLifecycle::WorkspaceScoped => "workspace_scoped",
        ResourceLifecycle::JobScoped => "job_scoped",
        ResourceLifecycle::Cache => "cache",
        ResourceLifecycle::ExportOnly => "export_only",
    }
}

/// Decodes a stored [`ResourceLifecycle`]; an unknown text is an error that names it.
pub fn lifecycle_from_str(value: &str) -> (result: DatabaseResult<ResourceLifecycle>)
    ensures
        (match result {
            Ok(parsed) => lifecycle_parse(value@) == Some(parsed),
            Err(error) => {
                &&& lifecycle_parse(value@) is None
                &&& error.spec_kind() == DatabaseErrorKind::Database
                &&& error.spec_message() == decode_message("resource lifecycle"@, value@)
            },
        }),
{
    if str_eq(value, "workspace_scoped") {
        Ok(ResourceLifecycle::WorkspaceScoped)
    } else if str_eq(value, "job_scoped") {
        Ok(ResourceLifecycle::JobScoped)
    } else if str_eq(value, "cache") {
        Ok(ResourceLifecycle::Cache)
    } else if str_eq(value, "export_only") {
        Ok(ResourceLifecycle::ExportOnly)
    } else {
        Err(decode_error("resource lifecycle", value))
    }
}

/// The text that stores each [`ResourceState`] value.
pub open spec fn resource_state_text(value: ResourceState) -> Seq<char> {
    match value {
        ResourceState::Pending => "pending"@,
        ResourceState::Ready => "ready"@,
        ResourceState::DeletePending => "delete_pending"@,
    }
}

/// The [`ResourceState`] value stored as `text`, if `text` stores one.
pub open spec fn resource_state_parse(text: Seq<char>) -> Option<ResourceState> {
    if text == "pending"@ {
        Some(ResourceState::Pending)
    } else if text == "ready"@ {
        Some(ResourceState::Ready)
    } else if text == "delete_pending"@ {
        Some(ResourceState::DeletePending)
    } else {
        None
    }
}

/// Decoding the stored text of a [`ResourceState`] gives the value back, and a text
/// decodes to a value only when it is that value's stored text; so distinct
/// values are stored as distinct texts.
pub proof fn lemma_resource_state_round_trip(value: ResourceState, text: Seq<char>)
    ensures
        resource_state_parse(resource_state_text(value)) == Some(value),
        resource_state_parse(text) == Some(value) ==> resource_state_text(value) == text,
{
    reveal_strlit("pending");
    assert("pending"@.len() == 7);
    reveal_strlit("ready");
    assert("ready"@.len() == 5);
    reveal_strlit("delete_pending");
    assert("delete_pending"@.len() == 14);
    match value {
        ResourceState::Pending => {
            assert(resource_state_parse("pending"@) == Some(ResourceState::Pending));
        },
        ResourceState::Ready => {
            assert(resource_state_parse("ready"@) == Some(ResourceState::Ready));
        },
        ResourceState::DeletePending => {
            assert(resource_state_parse("delete_pending"@) == Some(ResourceState::DeletePending));
        },
    }
}

/// The text that stores `value`.
pub fn resource_state_as_str(value: ResourceState) -> (text: &'static str)
    ensures
        text@ == resource_state_text(value),
{
    match value {
        ResourceState::Pending => "pending",
        ResourceState::Ready => "ready",
        ResourceState::DeletePending => "delete_pending",
    }
}

/// Decodes a stored [`ResourceState`]; an unknown text is an error that names it.
pub fn resource_state_from_str(value: &str) -> (result: DatabaseResult<ResourceState>)
    ensures
        (match result {
            Ok(parsed) => resource_state_parse(value@) == Some(parsed),
            Err(error) => {
                &&& resource_state_parse(value@) is None
                &&& error.spec_kind() == DatabaseErrorKind::Database
                &&& error.spec_message() == decode_message("resource state"@, value@)
            },
        }),
{
    if str_eq(value, "pending") {
        Ok(ResourceState::Pending)
    } else if str_eq(value, "ready") {
        Ok(ResourceState::Ready)
    } else if str_eq(value, "delete_pending") {
        Ok(ResourceState::DeletePending)
    } else {
        Err(decode_error("resource state", value))
    }
}

/// The text that stores each [`ResourceOwnerKind`] value.
pub open spec fn owner_kind_text(value: ResourceOwnerKind) -> Seq<char> {
    match value {
        ResourceOwnerKind::Job => "job"@,
        ResourceOwnerKind::GalleryItem => "gallery_item"@,
        ResourceOwnerKind::PromptResource => "prompt_resource"@,
        ResourceOwnerKind::Vibe => "vibe"@,
        ResourceOwnerKind::DirectorRun => "director_run"@,
        ResourceOwnerKind::Cache => "cache"@,
        ResourceOwnerKind::ImportStaging => "import_staging"@,
        ResourceOwnerKind::Workspace => "workspace"@,
    }
}

/// The [`ResourceOwnerKind`] value stored as `text`, if `text` stores one.
pub open spec fn owner_kind_parse(text: Seq<char>) -> Option<ResourceOwnerKind> {
    if text == "job"@ {
        Some(ResourceOwnerKind::Job)
    } else if text == "gallery_item"@ {
        Some(ResourceOwnerKind::GalleryItem)
    } else if text == "prompt_resource"@ {
        Some(ResourceOwnerKind::PromptResource)
    } else if text == "vibe"@ {
        Some(ResourceOwnerKind::Vibe)
    } else if text == "director_run"@ {
        Some(ResourceOwnerKind::DirectorRun)
    } else if text == "cache"@ {
        Some(ResourceOwnerKind::Cache)
    } else if text == "import_staging"@ {
        Some(ResourceOwnerKind::ImportStaging)
    } else if text == "workspace"@ {
        Some(ResourceOwnerKind::Workspace)
    } else {
        None
    }
}

/// Decoding the stored text of a [`ResourceOwnerKind`] gives the value back, and a text
/// decodes to a value only when it is that value's stored text; so distinct
/// values are stored as distinct texts.
pub proof fn lemma_owner_kind_round_trip(value: ResourceOwnerKind, text: Seq<char>)
    ensures
        owner_kind_parse(owner_kind_text(value)) == Some(value),
        owner_kind_parse(text) == Some(value) ==> owner_kind_text(value) == text,
{
    reveal_strlit("job");
    assert("job"@.len() == 3);
    reveal_strlit("gallery_item");
    assert("gallery_item"@.len() == 12);
    reveal_strlit("prompt_resource");
    assert("prompt_resource"@.len() == 15);
    reveal_strlit("vibe");
    assert("vibe"@.len() == 4);
    reveal_strlit("director_run");
    assert("director_run"@.len() == 12);
    reveal_strlit("cache");
    assert("cache"@.len() == 5);
    reveal_strlit("import_staging");
    assert("import_staging"@.len() == 14);
    reveal_strlit("workspace");
    assert("workspace"@.len() == 9);
    match value {
        ResourceOwnerKind::Job => {
            assert(owner_kind_parse("job"@) == Some(ResourceOwnerKind::Job));
        },
        ResourceOwnerKind::GalleryItem => {
            assert(owner_kind_parse("gallery_item"@) == Some(ResourceOwnerKind::GalleryItem));
        },
        ResourceOwnerKind::PromptResource => {
            assert(owner_kind_parse("prompt_resource"@) == Some(ResourceOwnerKind::PromptResource));
        },
        ResourceOwnerKind::Vibe => {
            assert(owner_kind_parse("vibe"@) == Some(ResourceOwnerKind::Vibe));
        },
        ResourceOwnerKind::DirectorRun => {
            assert("director_run"@[0] != "gallery_item"@[0]);
            assert(owner_kind_parse("director_run"@) == Some(ResourceOwnerKind::DirectorRun));
        },
        ResourceOwnerKind::Cache => {
            assert(owner_kind_parse("cache"@) == Some(ResourceOwnerKind::Cache));
        },
        ResourceOwnerKind::ImportStaging => {
            assert(owner_kind_parse("import_staging"@) == Some(ResourceOwnerKind::ImportStaging));
        },
        ResourceOwnerKind::Workspace => {
            assert(owner_kind_parse("workspace"@) == Some(ResourceOwnerKind::Workspace));
        },
    }
}

/// The text that stores `value`.
pub fn owner_kind_as_str(value: ResourceOwnerKind) -> (text: &'static str)
    ensures
        text@ == owner_kind_text(value),
{
    match value {
        ResourceOwnerKind::Job => "job",
        ResourceOwnerKind::GalleryItem => "gallery_item",
        ResourceOwnerKind::PromptResource => "prompt_resource",
        ResourceOwnerKind::Vibe => "vibe",
        ResourceOwnerKind::DirectorRun => "director_run",
        ResourceOwnerKind::Cache => "cache",
        ResourceOwnerKind::ImportStaging => "import_staging",
        ResourceOwnerKind::Workspace => "workspace",
    }
}

/// Decodes a stored [`ResourceOwnerKind`]; an unknown text is an error that names it.
pub fn owner_kind_from_str(value: &str) -> (result: DatabaseResult<ResourceOwnerKind>)
    ensures
        (match result {
            Ok(parsed) => owner_kind_parse(value@) == Some(parsed),
            Err(error) => {
                &&& owner_kind_parse(value@) is None
                &&& error.spec_kind() == DatabaseErrorKind::Database
                &&& error.spec_message() == decode_message("resource owner kind"@, value@)
            },
        }),
{
    if str_eq(value, "job") {
        Ok(ResourceOwnerKind::Job)
    } else if str_eq(value, "gallery_item") {
        Ok(ResourceOwnerKind::GalleryItem)
    } else if str_eq(value, "prompt_resource") {
        Ok(ResourceOwnerKind::PromptResource)
    } else if str_eq(value, "vibe") {
        Ok(ResourceOwnerKind::Vibe)
    } else if str_eq(value, "director_run") {
        Ok(ResourceOwnerKind::DirectorRun)
    } else if str_eq(value, "cache") {
        Ok(ResourceOwnerKind::Cache)
    } else if str_eq(value, "import_staging") {
        Ok(ResourceOwnerKind::ImportStaging)
    } else if str_eq(value, "workspace") {
        Ok(ResourceOwnerKind::Workspace)
    } else {
        Err(decode_error("resource owner kind", value))
    }
}

/// The text that stores each [`ResourceRelation`] value.
pub open spec fn relation_text(value: ResourceRelation) -> Seq<char> {
    match value {
        ResourceRelation::Primary => "primary"@,
        ResourceRelation::Source => "source"@,
        ResourceRelation::Reference => "reference"@,
        ResourceRelation::Thumbnail => "thumbnail"@,
        ResourceRelation::Preview => "preview"@,
        ResourceRelation::Encoding => "encoding"@,
        ResourceRelation::DerivedFrom => "derived_from"@,
    }
}

/// The [`ResourceRelation`] value stored as `text`, if `text` stores one.
pub open spec fn relation_parse(text: Seq<char>) -> Option<ResourceRelation> {
    if text == "primary"@ {
        Some(ResourceRelation::Primary)
    } else if text == "source"@ {
        Some(ResourceRelation::Source)
    } else if text == "reference"@ {
        Some(ResourceRelation::Reference)
    } else if text == "thumbnail"@ {
        Some(ResourceRelation::Thumbnail)
    } else if text == "preview"@ {
        Some(ResourceRelation::Preview)
    } else if text == "encoding"@ {
        Some(ResourceRelation::Encoding)
    } else if text == "derived_from"@ {
        Some(ResourceRelation::DerivedFrom)
    } else {
        None
    }
}

/// Decoding the stored text of a [`ResourceRelation`] gives the value back, and a text
/// decodes to a value only when it is that value's stored text; so distinct
/// values are stored as distinct texts.
pub proof fn lemma_relation_round_trip(value: ResourceRelation, text: Seq<char>)
    ensures
        relation_parse(relation_text(value)) == Some(value),
        relation_parse(text) == Some(value) ==> relation_text(value) == text,
{
    reveal_strlit("primary");
    assert("primary"@.len() == 7);
    reveal_strlit("source");
    assert("source"@.len() == 6);
    reveal_strlit("reference");
    assert("reference"@.len() == 9);
    reveal_strlit("thumbnail");
    assert("thumbnail"@.len() == 9);
    reveal_strlit("preview");
    assert("preview"@.len() == 7);
    reveal_strlit("encoding");
    assert("encoding"@.len() == 8);
    reveal_strlit("derived_from");
    assert("derived_from"@.len() == 12);
    match value {
        ResourceRelation::Primary => {
            assert(relation_parse("primary"@) == Some(ResourceRelation::Primary));
        },
        ResourceRelation::Source => {
            assert(relation_parse("source"@) == Some(ResourceRelation::Source));
        },
        ResourceRelation::Reference => {
            assert(relation_parse("reference"@) == Some(ResourceRelation::Reference));
        },
        ResourceRelation::Thumbnail => {
            assert("thumbnail"@[0] != "reference"@[0]);
            assert(relation_parse("thumbnail"@) == Some(ResourceRelation::Thumbnail));
        },
        ResourceRelation::Preview => {
            assert("preview"@[2] != "primary"@[2]);
            assert(relation_parse("preview"@) == Some(ResourceRelation::Preview));
        },
        ResourceRelation::Encoding => {
            assert(relation_parse("encoding"@) == Some(ResourceRelation::Encoding));
        },
        ResourceRelation::DerivedFrom => {
            assert(relation_parse("derived_from"@) == Some(ResourceRelation::DerivedFrom));
        },
    }
}

/// The text that stores `value`.
pub fn relation_as_str(value: ResourceRelation) -> (text: &'static str)
    ensures
        text@ == relation_text(value),
{
    match value {
        ResourceRelation::Primary => "primary",
        ResourceRelation::Source => "source",
        ResourceRelation::Reference => "reference",
        ResourceRelation::Thumbnail => "thumbnail",
        ResourceRelation::Preview => "preview",
        ResourceRelation::Encoding => "encoding",
        ResourceRelation::DerivedFrom => "derived_from",
    }
}

/// Decodes a stored [`ResourceRelation`]; an unknown text is an error that names it.
pub fn relation_from_str(value: &str) -> (result: DatabaseResult<ResourceRelation>)
    ensures
        (match result {
            Ok(parsed) => relation_parse(value@) == Some(parsed),
            Err(error) => {
                &&& relation_parse(value@) is None
                &&& error.spec_kind() == DatabaseErrorKind::Database
                &&& error.spec_message() == decode_message("resource relation"@, value@)
            },
        }),
{
    if str_eq(value, "primary") {
        Ok(ResourceRelation::Primary)
    } else if str_eq(value, "source") {
        Ok(ResourceRelation::Source)
    } else if str_eq(value, "reference") {
        Ok(ResourceRelation::Reference)
    } else if str_eq(value, "thumbnail") {
        Ok(ResourceRelation::Thumbnail)
    } else if str_eq(value, "preview") {
        Ok(ResourceRelation::Preview)
    } else if str_eq(value, "encoding") {
        Ok(ResourceRelation::Encoding)
    } else if str_eq(value, "derived_from") {
        Ok(ResourceRelation::DerivedFrom)
    } else {
        Err(decode_error("resource relation", value))
    }
}

/// The text that stores each [`ResourceVariantKind`] value.
pub open spec fn variant_kind_text(value: ResourceVariantKind) -> Seq<char> {
    match value {
        ResourceVariantKind::Original => "original"@,
        ResourceVariantKind::Preview => "preview"@,
        ResourceVariantKind::Thumbnail => "thumbnail"@,
        ResourceVariantKind::Sanitized => "sanitized"@,
        ResourceVariantKind::Export => "export"@,
    }
}

/// The [`ResourceVariantKind`] value stored as `text`, if `text` stores one.
pub open spec fn variant_kind_parse(text: Seq<char>) -> Option<ResourceVariantKind> {
    if text == "original"@ {
        Some(ResourceVariantKind::Original)
    } else if text == "preview"@ {
        Some(ResourceVariantKind::Preview)
    } else if text == "thumbnail"@ {
        Some(ResourceVariantKind::Thumbnail)
    } else if text == "sanitized"@ {
        Some(ResourceVariantKind::Sanitized)
    } else if text == "export"@ {
        Some(ResourceVariantKind::Export)
    } else {
        None
    }
}

/// Decoding the stored text of a [`ResourceVariantKind`] gives the value back, and a text
/// decodes to a value only when it is that value's stored text; so distinct
/// values are stored as distinct texts.
pub proof fn lemma_variant_kind_round_trip(value: ResourceVariantKind, text: Seq<char>)
    ensures
        variant_kind_parse(variant_kind_text(value)) == Some(value),
        variant_kind_parse(text) == Some(value) ==> variant_kind_text(value) == text,
{
    reveal_strlit("original");
    assert("original"@.len() == 8);
    reveal_strlit("preview");
    assert("preview"@.len() == 7);
    reveal_strlit("thumbnail");
    assert("thumbnail"@.len() == 9);
    reveal_strlit("sanitized");
    assert("sanitized"@.len() == 9);
    reveal_strlit("export");
    assert("export"@.len() == 6);
    match value {
        ResourceVariantKind::Original => {
            assert(variant_kind_parse("original"@) == Some(ResourceVariantKind::Original));
        },
        ResourceVariantKind::Preview => {
            assert(variant_kind_parse("preview"@) == Some(ResourceVariantKind::Preview));
        },
        ResourceVariantKind::Thumbnail => {
            assert(variant_kind_parse("thumbnail"@) == Some(ResourceVariantKind::Thumbnail));
        },
        ResourceVariantKind::Sanitized => {
            assert("sanitized"@[0] != "thumbnail"@[0]);
            assert(variant_kind_parse("sanitized"@) == Some(ResourceVariantKind::Sanitized));
        },
        ResourceVariantKind::Export => {
            assert(variant_kind_parse("export"@) == Some(ResourceVariantKind::Export));
        },
    }
}

/// The text that stores `value`.
pub fn variant_kind_as_str(value: ResourceVariantKind) -> (text: &'static str)
    ensures
        text@ == variant_kind_text(value),
{
    match value {
        ResourceVariantKind::Original => "original",
        ResourceVariantKind::Preview => "preview",
        ResourceVariantKind::Thumbnail => "thumbnail",
        ResourceVariantKind::Sanitized => "sanitized",
        ResourceVariantKind::Export => "export",
    }
}

/// Decodes a stored [`ResourceVariantKind`]; an unknown text is an error that names it.
pub fn variant_kind_from_str(value: &str) -> (result: DatabaseResult<ResourceVariantKind>)
    ensures
        (match result {
            Ok(parsed) => variant_kind_parse(value@) == Some(parsed),
            Err(error) => {
                &&& variant_kind_parse(value@) is None
                &&& error.spec_kind() == DatabaseErrorKind::Database
                &&& error.spec_message() == decode_message("resource variant kind"@, value@)
            },
        }),
{
    if str_eq(value, "original") {
        Ok(ResourceVariantKind::Original)
    } else if str_eq(value, "preview") {
        Ok(ResourceVariantKind::Preview)
    } else if str_eq(value, "thumbnail") {
        Ok(ResourceVariantKind::Thumbnail)
    } else if str_eq(value, "sanitized") {
        Ok(ResourceVariantKind::Sanitized)
    } else if str_eq(value, "export") {
        Ok(ResourceVariantKind::Export)
    } else {
        Err(decode_error("resource variant kind", value))
    }
}

/// The text that stores each [`ArtifactKind`] value.
pub open spec fn artifact_kind_text(value: ArtifactKind) -> Seq<char> {
    match value {
        ArtifactKind::GeneratedImage => "generated_image"@,
        ArtifactKind::DirectorResult => "director_result"@,
        ArtifactKind::ImportedImage => "imported_image"@,
    }
}

/// The [`ArtifactKind`] value stored as `text`, if `text` stores one.
pub open spec fn artifact_kind_parse(text: Seq<char>) -> Option<ArtifactKind> {
    if text == "generated_image"@ {
        Some(ArtifactKind::GeneratedImage)
    } else if text == "director_result"@ {
        Some(ArtifactKind::DirectorResult)
    } else if text == "imported_image"@ {
        Some(ArtifactKind::ImportedImage)
    } else {
        None
    }
}

/// Decoding the stored text of a [`ArtifactKind`] gives the value back, and a text
/// decodes to a value only when it is that value's stored text; so distinct
/// values are stored as distinct texts.
pub proof fn lemma_artifact_kind_round_trip(value: ArtifactKind, text: Seq<char>)
    ensures
        artifact_kind_parse(artifact_kind_text(value)) == Some(value),
        artifact_kind_parse(text) == Some(value) ==> artifact_kind_text(value) == text,
{
    reveal_strlit("generated_image");
    assert("generated_image"@.len() == 15);
    reveal_strlit("director_result");
    assert("director_result"@.len() == 15);
    reveal_strlit("imported_image");
    assert("imported_image"@.len() == 14);
    match value {
        ArtifactKind::GeneratedImage => {
            assert(artifact_kind_parse("generated_image"@) == Some(ArtifactKind::GeneratedImage));
        },
        ArtifactKind::DirectorResult => {
            assert("director_result"@[0] != "generated_image"@[0]);
            assert(artifact_kind_parse("director_result"@) == Some(ArtifactKind::DirectorResult));
        },
        ArtifactKind::ImportedImage => {
            assert(artifact_kind_parse("imported_image"@) == Some(ArtifactKind::ImportedImage));
        },
    }
}

/// The text that stores `value`.
pub fn artifact_kind_as_str(value: ArtifactKind) -> (text: &'static str)
    ensures
        text@ == artifact_kind_text(value),
{
    match value {
        ArtifactKind::GeneratedImage => "generated_image",
        ArtifactKind::DirectorResult => "director_result",
        ArtifactKind::ImportedImage => "imported_image",
    }
}

/// Decodes a stored [`ArtifactKind`]; an unknown text is an error that names it.
pub fn artifact_kind_from_str(value: &str) -> (result: DatabaseResult<ArtifactKind>)
    ensures
        (match result {
            Ok(parsed) => artifact_kind_parse(value@) == Some(parsed),
            Err(error) => {
                &&& artifact_kind_parse(value@) is None
                &&& error.spec_kind() == DatabaseErrorKind::Database
                &&& error.spec_message() == decode_message("artifact kind"@, value@)
            },
        }),
{
    if str_eq(value, "generated_image") {
        Ok(ArtifactKind::GeneratedImage)
    } else if str_eq(value, "director_result") {
        Ok(ArtifactKind::DirectorResult)
    } else if str_eq(value, "imported_image") {
        Ok(ArtifactKind::ImportedImage)
    } else {
        Err(decode_error("artifact kind", value))
    }
}

/// The text that stores each [`GallerySourceKind`] value.
pub open spec fn source_kind_text(value: GallerySourceKind) -> Seq<char> {
    match value {
        GallerySourceKind::Generation => "generation"@,
        GallerySourceKind::Director => "director"@,
        GallerySourceKind::Import => "import"@,
    }
}

/// The [`GallerySourceKind`] value stored as `text`, if `text` stores one.
pub open spec fn source_kind_parse(text: Seq<char>) -> Option<GallerySourceKind> {
    if text == "generation"@ {
        Some(GallerySourceKind::Generation)
    } else if text == "director"@ {
        Some(GallerySourceKind::Director)
    } else if text == "import"@ {
        Some(GallerySourceKind::Import)
    } else {
        None
    }
}

/// Decoding the stored text of a [`GallerySourceKind`] gives the value back, and a text
/// decodes to a value only when it is that value's stored text; so distinct
/// values are stored as distinct texts.
pub proof fn lemma_source_kind_round_trip(value: GallerySourceKind, text: Seq<char>)
    ensures
        source_kind_parse(source_kind_text(value)) == Some(value),
        source_kind_parse(text) == Some(value) ==> source_kind_text(value) == text,
{
    reveal_strlit("generation");
    assert("generation"@.len() == 10);
    reveal_strlit("director");
    assert("director"@.len() == 8);
    reveal_strlit("import");
    assert("import"@.len() == 6);
    match value {
        GallerySourceKind::Generation => {
            assert(source_kind_parse("generation"@) == Some(GallerySourceKind::Generation));
        },
        GallerySourceKind::Director => {
            assert(source_kind_parse("director"@) == Some(GallerySourceKind::Director));
        },
        GallerySourceKind::Import => {
            assert(source_kind_parse("import"@) == Some(GallerySourceKind::Import));
        },
    }
}

/// The text that stores `value`.
pub fn source_kind_as_str(value: GallerySourceKind) -> (text: &'static str)
    ensures
        text@ == source_kind_text(value),
{
    match value {
        GallerySourceKind::Generation => "generation",
        GallerySourceKind::Director => "director",
        GallerySourceKind::Import => "import",
    }
}

/// The text that stores each [`GallerySafetyOverride`] value.
pub open spec fn safety_override_text(value: GallerySafetyOverride) -> Seq<char> {
    match value {
        GallerySafetyOverride::Safe => "safe"@,
        GallerySafetyOverride::Sensitive => "sensitive"@,
        GallerySafetyOverride::Hidden => "hidden"@,
    }
}

/// The [`GallerySafetyOverride`] value stored as `text`, if `text` stores one.
pub open spec fn safety_override_parse(text: Seq<char>) -> Option<GallerySafetyOverride> {
    if text == "safe"@ {
        Some(GallerySafetyOverride::Safe)
    } else if text == "sensitive"@ {
        Some(GallerySafetyOverride::Sensitive)
    } else if text == "hidden"@ {
        Some(GallerySafetyOverride::Hidden)
    } else {
        None
    }
}

/// Decoding the stored text of a [`GallerySafetyOverride`] gives the value back, and a text
/// decodes to a value only when it is that value's stored text; so distinct
/// values are stored as distinct texts.
pub proof fn lemma_safety_override_round_trip(value: GallerySafetyOverride, text: Seq<char>)
    ensures
        safety_override_parse(safety_override_text(value)) == Some(value),
        safety_override_parse(text) == Some(value) ==> safety_override_text(value) == text,
{
    reveal_strlit("safe");
    assert("safe"@.len() == 4);
    reveal_strlit("sensitive");
    assert("sensitive"@.len() == 9);
    reveal_strlit("hidden");
    assert("hidden"@.len() == 6);
    match value {
        GallerySafetyOverride::Safe => {
            assert(safety_override_parse("safe"@) == Some(GallerySafetyOverride::Safe));
        },
        GallerySafetyOverride::Sensitive => {
            assert(safety_override_parse("sensitive"@) == Some(GallerySafetyOverride::Sensitive));
        },
        GallerySafetyOverride::Hidden => {
            assert(safety_override_parse("hidden"@) == Some(GallerySafetyOverride::Hidden));
        },
    }
}

/// The text that stores `value`.
pub fn safety_override_as_str(value: GallerySafetyOverride) -> (text: &'static str)
    ensures
        text@ == safety_override_text(value),
{
    match value {
        GallerySafetyOverride::Safe => "safe",
        GallerySafetyOverride::Sensitive => "sensitive",
        GallerySafetyOverride::Hidden => "hidden",
    }
}

/// Decodes a stored [`GallerySafetyOverride`]; an unknown text is an error that names it.
pub fn safety_override_from_str(value: &str) -> (result: DatabaseResult<GallerySafetyOverride>)
    ensures
        (match result {
            Ok(parsed) => safety_override_parse(value@) == Some(parsed),
            Err(error) => {
                &&& safety_override_parse(value@) is None
                &&& error.spec_kind() == DatabaseErrorKind::Database
                &&& error.spec_message() == decode_message("gallery safety override"@, value@)
            },
        }),
{
    if str_eq(value, "safe") {
        Ok(GallerySafetyOverride::Safe)
    } else if str_eq(value, "sensitive") {
        Ok(GallerySafetyOverride::Sensitive)
    } else if str_eq(value, "hidden") {
        Ok(GallerySafetyOverride::Hidden)
    } else {
        Err(decode_error("gallery safety override", value))
    }
}

/// The text that stores each [`VibeModel`] value.
pub open spec fn vibe_model_text(value: VibeModel) -> Seq<char> {
    match value {
        VibeModel::NaiDiffusion4Full => "v4full"@,
        VibeModel::NaiDiffusion4Curated => "v4curated"@,
        VibeModel::NaiDiffusion45Full => "v4-5full"@,
        VibeModel::NaiDiffusion45Curated => "v4-5curated"@,
    }
}

/// The [`VibeModel`] value stored as `text`, if `text` stores one.
pub open spec fn vibe_model_parse(text: Seq<char>) -> Option<VibeModel> {
    if text == "v4full"@ {
        Some(VibeModel::NaiDiffusion4Full)
    } else if text == "v4curated"@ {
        Some(VibeModel::NaiDiffusion4Curated)
    } else if text == "v4-5full"@ {
        Some(VibeModel::NaiDiffusion45Full)
    } else if text == "v4-5curated"@ {
        Some(VibeModel::NaiDiffusion45Curated)
    } else {
        None
    }
}

/// Decoding the stored text of a [`VibeModel`] gives the value back, and a text
/// decodes to a value only when it is that value's stored text; so distinct
/// values are stored as distinct texts.
pub proof fn lemma_vibe_model_round_trip(value: VibeModel, text: Seq<char>)
    ensures
        vibe_model_parse(vibe_model_text(value)) == Some(value),
        vibe_model_parse(text) == Some(value) ==> vibe_model_text(value) == text,
{
    reveal_strlit("v4full");
    assert("v4full"@.len() == 6);
    reveal_strlit("v4curated");
    assert("v4curated"@.len() == 9);
    reveal_strlit("v4-5full");
    assert("v4-5full"@.len() == 8);
    reveal_strlit("v4-5curated");
    assert("v4-5curated"@.len() == 11);
    match value {
        VibeModel::NaiDiffusion4Full => {
            assert(vibe_model_parse("v4full"@) == Some(VibeModel::NaiDiffusion4Full));
        },
        VibeModel::NaiDiffusion4Curated => {
            assert(vibe_model_parse("v4curated"@) == Some(VibeModel::NaiDiffusion4Curated));
        },
        VibeModel::NaiDiffusion45Full => {
            assert(vibe_model_parse("v4-5full"@) == Some(VibeModel::NaiDiffusion45Full));
        },
        VibeModel::NaiDiffusion45Curated => {
            assert(vibe_model_parse("v4-5curated"@) == Some(VibeModel::NaiDiffusion45Curated));
        },
    }
}

/// The text that stores `value`.
pub fn vibe_model_as_str(value: VibeModel) -> (text: &'static str)
    ensures
        text@ == vibe_model_text(value),
{
    match value {
        VibeModel::NaiDiffusion4Full => "v4full",
        VibeModel::NaiDiffusion4Curated => "v4curated",
        VibeModel::NaiDiffusion45Full => "v4-5full",
        VibeModel::NaiDiffusion45Curated => "v4-5curated",
    }
}

/// Decodes a stored [`VibeModel`]; an unknown text is an error that names it.
pub fn vibe_model_from_str(value: &str) -> (result: DatabaseResult<VibeModel>)
    ensures
        (match result {
            Ok(parsed) => vibe_model_parse(value@) == Some(parsed),
            Err(error) => {
                &&& vibe_model_parse(value@) is None
                &&& error.spec_kind() == DatabaseErrorKind::Database
                &&& error.spec_message() == decode_message("vibe model"@, value@)
            },
        }),
{
    if str_eq(value, "v4full") {
        Ok(VibeModel::NaiDiffusion4Full)
    } else if str_eq(value, "v4curated") {
        Ok(VibeModel::NaiDiffusion4Curated)
    } else if str_eq(value, "v4-5full") {
        Ok(VibeModel::NaiDiffusion45Full)
    } else if str_eq(value, "v4-5curated") {
        Ok(VibeModel::NaiDiffusion45Curated)
    } else {
        Err(decode_error("vibe model", value))
    }
}

/// Assembles resource metadata from its table columns.
pub fn metadata_from_columns(
    mime_type: Option<String>,
    byte_size: Option<u64>,
    content_hash: Option<String>,
    width: Option<u32>,
    height: Option<u32>,
    created_at_ms: Option<u64>,
) -> (metadata: ResourceMetadata)
    ensures
        metadata == (ResourceMetadata {
            mime_type,
            byte_size,
            content_hash,
            width,
            height,
            created_at_ms,
        }),
{
    ResourceMetadata { mime_type, byte_size, content_hash, width, height, created_at_ms }
}

} // verus!
