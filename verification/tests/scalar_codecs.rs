//! Stored texts of every scalar vocabulary decode back to their values.

use atelier_adapter_database::agent::scalars::{action_state_as_str, action_state_from_str, permission_mode_as_str, permission_mode_from_str, session_status_as_str, session_status_from_str};
use atelier_adapter_database::codec::gallery::{image_analysis_model_id_from_str, safety_label_as_str, safety_label_from_str, safety_risk_band_as_str, safety_risk_band_from_str, visual_asset_role_as_str, visual_asset_role_from_str};
use atelier_adapter_database::codec::scalars::{artifact_kind_as_str, artifact_kind_from_str, lifecycle_as_str, lifecycle_from_str, owner_kind_as_str, owner_kind_from_str, relation_as_str, relation_from_str, resource_kind_as_str, resource_kind_from_str, resource_state_as_str, resource_state_from_str, safety_override_as_str, safety_override_from_str, source_kind_as_str, variant_kind_as_str, variant_kind_from_str, vibe_model_as_str, vibe_model_from_str};
use atelier_adapter_database::domain::agent::{AgentActionState, AgentPermissionMode, AgentSessionStatus};
use atelier_adapter_database::domain::artifacts::{ArtifactKind, VisualAssetRole};
use atelier_adapter_database::domain::catalog::{ResourceKind, ResourceLifecycle, ResourceOwnerKind, ResourceRelation, ResourceState, ResourceVariantKind};
use atelier_adapter_database::domain::gallery::{GallerySafetyOverride, GallerySourceKind};
use atelier_adapter_database::domain::generation::{CharacterReferenceType, GenerationDraftCharacterPositionMode, GenerationDraftSeedMode, ImageFormat, ImageModel, NoiseSchedule, Sampler, StreamMode, UcPreset};
use atelier_adapter_database::domain::jobs::{BatchStatus, JobKind, JobStatus, RunHistoryKind, RunHistoryStatus};
use atelier_adapter_database::domain::library::{LibraryNamespace};
use atelier_adapter_database::domain::safety::{ImageAnalysisModelId, SafetyLabel, SafetyRiskBand};
use atelier_adapter_database::domain::vibe::{VibeModel};
use atelier_adapter_database::generation_codec::scalars::{character_reference_type_as_str, character_reference_type_from_str, draft_seed_mode_as_str, draft_seed_mode_from_str, image_format_as_str, image_format_from_str, image_model_as_str, image_model_from_str, noise_schedule_as_str, noise_schedule_from_str, position_mode_as_str, position_mode_from_str, sampler_as_str, sampler_from_str, stream_mode_as_str, stream_mode_from_str, uc_preset_as_str, uc_preset_from_str};
use atelier_adapter_database::job_history::scalars::{batch_status_as_str, batch_status_from_str, job_kind_as_str, job_kind_from_str, job_status_as_str, job_status_from_str, run_history_kind_as_str, run_history_kind_from_str, run_history_status_as_str, run_history_status_from_str};
use atelier_adapter_database::library::namespace::{namespace_as_str, namespace_from_str};

#[test]
fn resource_kind_texts_round_trip() {
    assert_eq!(resource_kind_as_str(ResourceKind::GeneratedImage), "generated_image");
    assert_eq!(resource_kind_from_str("generated_image").unwrap(), ResourceKind::GeneratedImage);
    assert_eq!(resource_kind_as_str(ResourceKind::StreamFinalImage), "stream_final_image");
    assert_eq!(resource_kind_from_str("stream_final_image").unwrap(), ResourceKind::StreamFinalImage);
    assert_eq!(resource_kind_as_str(ResourceKind::DirectorResult), "director_result");
    assert_eq!(resource_kind_from_str("director_result").unwrap(), ResourceKind::DirectorResult);
    assert_eq!(resource_kind_as_str(ResourceKind::SourceImage), "source_image");
    assert_eq!(resource_kind_from_str("source_image").unwrap(), ResourceKind::SourceImage);
    assert_eq!(resource_kind_as_str(ResourceKind::ReferenceImage), "reference_image");
    assert_eq!(resource_kind_from_str("reference_image").unwrap(), ResourceKind::ReferenceImage);
    assert_eq!(resource_kind_as_str(ResourceKind::ControlNetImage), "controlnet_image");
    assert_eq!(resource_kind_from_str("controlnet_image").unwrap(), ResourceKind::ControlNetImage);
    assert_eq!(resource_kind_as_str(ResourceKind::PromptThumb), "prompt_thumb");
    assert_eq!(resource_kind_from_str("prompt_thumb").unwrap(), ResourceKind::PromptThumb);
    assert_eq!(resource_kind_as_str(ResourceKind::VibeDocument), "vibe_document");
    assert_eq!(resource_kind_from_str("vibe_document").unwrap(), ResourceKind::VibeDocument);
    assert_eq!(resource_kind_as_str(ResourceKind::VibePreview), "vibe_preview");
    assert_eq!(resource_kind_from_str("vibe_preview").unwrap(), ResourceKind::VibePreview);
    assert_eq!(resource_kind_as_str(ResourceKind::VibeEncoding), "vibe_encoding");
    assert_eq!(resource_kind_from_str("vibe_encoding").unwrap(), ResourceKind::VibeEncoding);
    assert_eq!(resource_kind_as_str(ResourceKind::LexiconBundle), "lexicon_bundle");
    assert_eq!(resource_kind_from_str("lexicon_bundle").unwrap(), ResourceKind::LexiconBundle);
}

#[test]
fn resource_kind_rejects_unknown_text() {
    let error = resource_kind_from_str("bogus").unwrap_err();
    assert_eq!(error.message(), "unknown resource kind `bogus`");
}

#[test]
fn lifecycle_texts_round_trip() {
    assert_eq!(lifecycle_as_str(ResourceLifecycle::WorkspaceScoped), "workspace_scoped");
    assert_eq!(lifecycle_from_str("workspace_scoped").unwrap(), ResourceLifecycle::WorkspaceScoped);
    assert_eq!(lifecycle_as_str(ResourceLifecycle::JobScoped), "job_scoped");
    assert_eq!(lifecycle_from_str("job_scoped").unwrap(), ResourceLifecycle::JobScoped);
    assert_eq!(lifecycle_as_str(ResourceLifecycle::Cache), "cache");
    assert_eq!(lifecycle_from_str("cache").unwrap(), ResourceLifecycle::Cache);
    assert_eq!(lifecycle_as_str(ResourceLifecycle::ExportOnly), "export_only");
    assert_eq!(lifecycle_from_str("export_only").unwrap(), ResourceLifecycle::ExportOnly);
}

#[test]
fn lifecycle_rejects_unknown_text() {
    let error = lifecycle_from_str("bogus").unwrap_err();
    assert_eq!(error.message(), "unknown resource lifecycle `bogus`");
}

#[test]
fn resource_state_texts_round_trip() {
    assert_eq!(resource_state_as_str(ResourceState::Pending), "pending");
    assert_eq!(resource_state_from_str("pending").unwrap(), ResourceState::Pending);
    assert_eq!(resource_state_as_str(ResourceState::Ready), "ready");
    assert_eq!(resource_state_from_str("ready").unwrap(), ResourceState::Ready);
    assert_eq!(resource_state_as_str(ResourceState::DeletePending), "delete_pending");
    assert_eq!(resource_state_from_str("delete_pending").unwrap(), ResourceState::DeletePending);
}

#[test]
fn resource_state_rejects_unknown_text() {
    let error = resource_state_from_str("bogus").unwrap_err();
    assert_eq!(error.message(), "unknown resource state `bogus`");
}

#[test]
fn owner_kind_texts_round_trip() {
    assert_eq!(owner_kind_as_str(ResourceOwnerKind::Job), "job");
    assert_eq!(owner_kind_from_str("job").unwrap(), ResourceOwnerKind::Job);
    assert_eq!(owner_kind_as_str(ResourceOwnerKind::GalleryItem), "gallery_item");
    assert_eq!(owner_kind_from_str("gallery_item").unwrap(), ResourceOwnerKind::GalleryItem);
    assert_eq!(owner_kind_as_str(ResourceOwnerKind::PromptResource), "prompt_resource");
    assert_eq!(owner_kind_from_str("prompt_resource").unwrap(), ResourceOwnerKind::PromptResource);
    assert_eq!(owner_kind_as_str(ResourceOwnerKind::Vibe), "vibe");
    assert_eq!(owner_kind_from_str("vibe").unwrap(), ResourceOwnerKind::Vibe);
    assert_eq!(owner_kind_as_str(ResourceOwnerKind::DirectorRun), "director_run");
    assert_eq!(owner_kind_from_str("director_run").unwrap(), ResourceOwnerKind::DirectorRun);
    assert_eq!(owner_kind_as_str(ResourceOwnerKind::Cache), "cache");
    assert_eq!(owner_kind_from_str("cache").unwrap(), ResourceOwnerKind::Cache);
    assert_eq!(owner_kind_as_str(ResourceOwnerKind::ImportStaging), "import_staging");
    assert_eq!(owner_kind_from_str("import_staging").unwrap(), ResourceOwnerKind::ImportStaging);
    assert_eq!(owner_kind_as_str(ResourceOwnerKind::Workspace), "workspace");
    assert_eq!(owner_kind_from_str("workspace").unwrap(), ResourceOwnerKind::Workspace);
}

#[test]
fn owner_kind_rejects_unknown_text() {
    let error = owner_kind_from_str("bogus").unwrap_err();
    assert_eq!(error.message(), "unknown resource owner kind `bogus`");
}

#[test]
fn relation_texts_round_trip() {
    assert_eq!(relation_as_str(ResourceRelation::Primary), "primary");
    assert_eq!(relation_from_str("primary").unwrap(), ResourceRelation::Primary);
    assert_eq!(relation_as_str(ResourceRelation::Source), "source");
    assert_eq!(relation_from_str("source").unwrap(), ResourceRelation::Source);
    assert_eq!(relation_as_str(ResourceRelation::Reference), "reference");
    assert_eq!(relation_from_str("reference").unwrap(), ResourceRelation::Reference);
    assert_eq!(relation_as_str(ResourceRelation::Thumbnail), "thumbnail");
    assert_eq!(relation_from_str("thumbnail").unwrap(), ResourceRelation::Thumbnail);
    assert_eq!(relation_as_str(ResourceRelation::Preview), "preview");
    assert_eq!(relation_from_str("preview").unwrap(), ResourceRelation::Preview);
    assert_eq!(relation_as_str(ResourceRelation::Encoding), "encoding");
    assert_eq!(relation_from_str("encoding").unwrap(), ResourceRelation::Encoding);
    assert_eq!(relation_as_str(ResourceRelation::DerivedFrom), "derived_from");
    assert_eq!(relation_from_str("derived_from").unwrap(), ResourceRelation::DerivedFrom);
}

#[test]
fn relation_rejects_unknown_text() {
    let error = relation_from_str("bogus").unwrap_err();
    assert_eq!(error.message(), "unknown resource relation `bogus`");
}

#[test]
fn variant_kind_texts_round_trip() {
    assert_eq!(variant_kind_as_str(ResourceVariantKind::Original), "original");
    assert_eq!(variant_kind_from_str("original").unwrap(), ResourceVariantKind::Original);
    assert_eq!(variant_kind_as_str(ResourceVariantKind::Preview), "preview");
    assert_eq!(variant_kind_from_str("preview").unwrap(), ResourceVariantKind::Preview);
    assert_eq!(variant_kind_as_str(ResourceVariantKind::Thumbnail), "thumbnail");
    assert_eq!(variant_kind_from_str("thumbnail").unwrap(), ResourceVariantKind::Thumbnail);
    assert_eq!(variant_kind_as_str(ResourceVariantKind::Sanitized), "sanitized");
    assert_eq!(variant_kind_from_str("sanitized").unwrap(), ResourceVariantKind::Sanitized);
    assert_eq!(variant_kind_as_str(ResourceVariantKind::Export), "export");
    assert_eq!(variant_kind_from_str("export").unwrap(), ResourceVariantKind::Export);
}

#[test]
fn variant_kind_rejects_unknown_text() {
    let error = variant_kind_from_str("bogus").unwrap_err();
    assert_eq!(error.message(), "unknown resource variant kind `bogus`");
}

#[test]
fn artifact_kind_texts_round_trip() {
    assert_eq!(artifact_kind_as_str(ArtifactKind::GeneratedImage), "generated_image");
    assert_eq!(artifact_kind_from_str("generated_image").unwrap(), ArtifactKind::GeneratedImage);
    assert_eq!(artifact_kind_as_str(ArtifactKind::DirectorResult), "director_result");
    assert_eq!(artifact_kind_from_str("director_result").unwrap(), ArtifactKind::DirectorResult);
    assert_eq!(artifact_kind_as_str(ArtifactKind::ImportedImage), "imported_image");
    assert_eq!(artifact_kind_from_str("imported_image").unwrap(), ArtifactKind::ImportedImage);
}

#[test]
fn artifact_kind_rejects_unknown_text() {
    let error = artifact_kind_from_str("bogus").unwrap_err();
    assert_eq!(error.message(), "unknown artifact kind `bogus`");
}

#[test]
fn source_kind_texts() {
    assert_eq!(source_kind_as_str(GallerySourceKind::Generation), "generation");
    assert_eq!(source_kind_as_str(GallerySourceKind::Director), "director");
    assert_eq!(source_kind_as_str(GallerySourceKind::Import), "import");
}

#[test]
fn safety_override_texts_round_trip() {
    assert_eq!(safety_override_as_str(GallerySafetyOverride::Safe), "safe");
    assert_eq!(safety_override_from_str("safe").unwrap(), GallerySafetyOverride::Safe);
    assert_eq!(safety_override_as_str(GallerySafetyOverride::Sensitive), "sensitive");
    assert_eq!(safety_override_from_str("sensitive").unwrap(), GallerySafetyOverride::Sensitive);
    assert_eq!(safety_override_as_str(GallerySafetyOverride::Hidden), "hidden");
    assert_eq!(safety_override_from_str("hidden").unwrap(), GallerySafetyOverride::Hidden);
}

#[test]
fn safety_override_rejects_unknown_text() {
    let error = safety_override_from_str("bogus").unwrap_err();
    assert_eq!(error.message(), "unknown gallery safety override `bogus`");
}

#[test]
fn vibe_model_texts_round_trip() {
    assert_eq!(vibe_model_as_str(VibeModel::NaiDiffusion4Full), "v4full");
    assert_eq!(vibe_model_from_str("v4full").unwrap(), VibeModel::NaiDiffusion4Full);
    assert_eq!(vibe_model_as_str(VibeModel::NaiDiffusion4Curated), "v4curated");
    assert_eq!(vibe_model_from_str("v4curated").unwrap(), VibeModel::NaiDiffusion4Curated);
    assert_eq!(vibe_model_as_str(VibeModel::NaiDiffusion45Full), "v4-5full");
    assert_eq!(vibe_model_from_str("v4-5full").unwrap(), VibeModel::NaiDiffusion45Full);
    assert_eq!(vibe_model_as_str(VibeModel::NaiDiffusion45Curated), "v4-5curated");
    assert_eq!(vibe_model_from_str("v4-5curated").unwrap(), VibeModel::NaiDiffusion45Curated);
}

#[test]
fn vibe_model_rejects_unknown_text() {
    let error = vibe_model_from_str("bogus").unwrap_err();
    assert_eq!(error.message(), "unknown vibe model `bogus`");
}

#[test]
fn safety_label_texts_round_trip() {
    assert_eq!(safety_label_as_str(SafetyLabel::Safe), "safe");
    assert_eq!(safety_label_from_str("safe").unwrap(), SafetyLabel::Safe);
    assert_eq!(safety_label_as_str(SafetyLabel::Sensitive), "sensitive");
    assert_eq!(safety_label_from_str("sensitive").unwrap(), SafetyLabel::Sensitive);
    assert_eq!(safety_label_as_str(SafetyLabel::Hidden), "hidden");
    assert_eq!(safety_label_from_str("hidden").unwrap(), SafetyLabel::Hidden);
}

#[test]
fn safety_label_rejects_unknown_text() {
    let error = safety_label_from_str("bogus").unwrap_err();
    assert_eq!(error.message(), "unknown safety label `bogus`");
}

#[test]
fn safety_risk_band_texts_round_trip() {
    assert_eq!(safety_risk_band_as_str(SafetyRiskBand::Low), "low");
    assert_eq!(safety_risk_band_from_str("low").unwrap(), SafetyRiskBand::Low);
    assert_eq!(safety_risk_band_as_str(SafetyRiskBand::Medium), "medium");
    assert_eq!(safety_risk_band_from_str("medium").unwrap(), SafetyRiskBand::Medium);
    assert_eq!(safety_risk_band_as_str(SafetyRiskBand::High), "high");
    assert_eq!(safety_risk_band_from_str("high").unwrap(), SafetyRiskBand::High);
}

#[test]
fn safety_risk_band_rejects_unknown_text() {
    let error = safety_risk_band_from_str("bogus").unwrap_err();
    assert_eq!(error.message(), "unknown safety risk band `bogus`");
}

#[test]
fn image_analysis_model_id_texts_decode() {
    assert_eq!(image_analysis_model_id_from_str("anime_dbrating").unwrap(), ImageAnalysisModelId::AnimeDbRating);
    assert_eq!(image_analysis_model_id_from_str("wd_swinv2_tagger_v3").unwrap(), ImageAnalysisModelId::WdSwinv2TaggerV3);
}

#[test]
fn image_analysis_model_id_rejects_unknown_text() {
    let error = image_analysis_model_id_from_str("bogus").unwrap_err();
    assert_eq!(error.message(), "unknown image analysis model id `bogus`");
}

#[test]
fn visual_asset_role_texts_round_trip() {
    assert_eq!(visual_asset_role_as_str(VisualAssetRole::Original), "original");
    assert_eq!(visual_asset_role_from_str("original").unwrap(), VisualAssetRole::Original);
    assert_eq!(visual_asset_role_as_str(VisualAssetRole::Thumbnail), "thumbnail");
    assert_eq!(visual_asset_role_from_str("thumbnail").unwrap(), VisualAssetRole::Thumbnail);
    assert_eq!(visual_asset_role_as_str(VisualAssetRole::Preview), "preview");
    assert_eq!(visual_asset_role_from_str("preview").unwrap(), VisualAssetRole::Preview);
    assert_eq!(visual_asset_role_as_str(VisualAssetRole::Sanitized), "sanitized");
    assert_eq!(visual_asset_role_from_str("sanitized").unwrap(), VisualAssetRole::Sanitized);
    assert_eq!(visual_asset_role_as_str(VisualAssetRole::Export), "export");
    assert_eq!(visual_asset_role_from_str("export").unwrap(), VisualAssetRole::Export);
}

#[test]
fn visual_asset_role_rejects_unknown_text() {
    let error = visual_asset_role_from_str("bogus").unwrap_err();
    assert_eq!(error.message(), "unknown visual asset role `bogus`");
}

#[test]
fn image_model_texts_round_trip() {
    assert_eq!(image_model_as_str(ImageModel::NaiDiffusion45Full), "nai-diffusion-4-5-full");
    assert_eq!(image_model_from_str("nai-diffusion-4-5-full").unwrap(), ImageModel::NaiDiffusion45Full);
    assert_eq!(image_model_as_str(ImageModel::NaiDiffusion45Curated), "nai-diffusion-4-5-curated");
    assert_eq!(image_model_from_str("nai-diffusion-4-5-curated").unwrap(), ImageModel::NaiDiffusion45Curated);
    assert_eq!(image_model_as_str(ImageModel::NaiDiffusion4Full), "nai-diffusion-4-full");
    assert_eq!(image_model_from_str("nai-diffusion-4-full").unwrap(), ImageModel::NaiDiffusion4Full);
    assert_eq!(image_model_as_str(ImageModel::NaiDiffusion4Curated), "nai-diffusion-4-curated");
    assert_eq!(image_model_from_str("nai-diffusion-4-curated").unwrap(), ImageModel::NaiDiffusion4Curated);
    assert_eq!(image_model_as_str(ImageModel::NaiDiffusion3), "nai-diffusion-3");
    assert_eq!(image_model_from_str("nai-diffusion-3").unwrap(), ImageModel::NaiDiffusion3);
    assert_eq!(image_model_as_str(ImageModel::NaiDiffusion3Furry), "nai-diffusion-3-furry");
    assert_eq!(image_model_from_str("nai-diffusion-3-furry").unwrap(), ImageModel::NaiDiffusion3Furry);
}

#[test]
fn image_model_rejects_unknown_text() {
    let error = image_model_from_str("bogus").unwrap_err();
    assert_eq!(error.message(), "unknown image model `bogus`");
}

#[test]
fn sampler_texts_round_trip() {
    assert_eq!(sampler_as_str(Sampler::KEuler), "k_euler");
    assert_eq!(sampler_from_str("k_euler").unwrap(), Sampler::KEuler);
    assert_eq!(sampler_as_str(Sampler::KEulerAncestral), "k_euler_ancestral");
    assert_eq!(sampler_from_str("k_euler_ancestral").unwrap(), Sampler::KEulerAncestral);
    assert_eq!(sampler_as_str(Sampler::KDpm2), "k_dpm2");
    assert_eq!(sampler_from_str("k_dpm2").unwrap(), Sampler::KDpm2);
    assert_eq!(sampler_as_str(Sampler::KDpm2Ancestral), "k_dpm2_ancestral");
    assert_eq!(sampler_from_str("k_dpm2_ancestral").unwrap(), Sampler::KDpm2Ancestral);
    assert_eq!(sampler_as_str(Sampler::KDpmpp2m), "k_dpmpp_2m");
    assert_eq!(sampler_from_str("k_dpmpp_2m").unwrap(), Sampler::KDpmpp2m);
    assert_eq!(sampler_as_str(Sampler::KDpmpp2sAncestral), "k_dpmpp_2s_ancestral");
    assert_eq!(sampler_from_str("k_dpmpp_2s_ancestral").unwrap(), Sampler::KDpmpp2sAncestral);
    assert_eq!(sampler_as_str(Sampler::KDpmppSde), "k_dpmpp_sde");
    assert_eq!(sampler_from_str("k_dpmpp_sde").unwrap(), Sampler::KDpmppSde);
    assert_eq!(sampler_as_str(Sampler::Ddim), "ddim");
    assert_eq!(sampler_from_str("ddim").unwrap(), Sampler::Ddim);
}

#[test]
fn sampler_rejects_unknown_text() {
    let error = sampler_from_str("bogus").unwrap_err();
    assert_eq!(error.message(), "unknown sampler `bogus`");
}

#[test]
fn noise_schedule_texts_round_trip() {
    assert_eq!(noise_schedule_as_str(NoiseSchedule::Karras), "karras");
    assert_eq!(noise_schedule_from_str("karras").unwrap(), NoiseSchedule::Karras);
    assert_eq!(noise_schedule_as_str(NoiseSchedule::Exponential), "exponential");
    assert_eq!(noise_schedule_from_str("exponential").unwrap(), NoiseSchedule::Exponential);
    assert_eq!(noise_schedule_as_str(NoiseSchedule::Polyexponential), "polyexponential");
    assert_eq!(noise_schedule_from_str("polyexponential").unwrap(), NoiseSchedule::Polyexponential);
}

#[test]
fn noise_schedule_rejects_unknown_text() {
    let error = noise_schedule_from_str("bogus").unwrap_err();
    assert_eq!(error.message(), "unknown noise schedule `bogus`");
}

#[test]
fn uc_preset_texts_round_trip() {
    assert_eq!(uc_preset_as_str(UcPreset::Heavy), "heavy");
    assert_eq!(uc_preset_from_str("heavy").unwrap(), UcPreset::Heavy);
    assert_eq!(uc_preset_as_str(UcPreset::Light), "light");
    assert_eq!(uc_preset_from_str("light").unwrap(), UcPreset::Light);
    assert_eq!(uc_preset_as_str(UcPreset::FurryFocus), "furry_focus");
    assert_eq!(uc_preset_from_str("furry_focus").unwrap(), UcPreset::FurryFocus);
    assert_eq!(uc_preset_as_str(UcPreset::HumanFocus), "human_focus");
    assert_eq!(uc_preset_from_str("human_focus").unwrap(), UcPreset::HumanFocus);
    assert_eq!(uc_preset_as_str(UcPreset::NoPreset), "none");
    assert_eq!(uc_preset_from_str("none").unwrap(), UcPreset::NoPreset);
}

#[test]
fn uc_preset_rejects_unknown_text() {
    let error = uc_preset_from_str("bogus").unwrap_err();
    assert_eq!(error.message(), "unknown uc preset `bogus`");
}

#[test]
fn image_format_texts_round_trip() {
    assert_eq!(image_format_as_str(ImageFormat::Png), "png");
    assert_eq!(image_format_from_str("png").unwrap(), ImageFormat::Png);
    assert_eq!(image_format_as_str(ImageFormat::Webp), "webp");
    assert_eq!(image_format_from_str("webp").unwrap(), ImageFormat::Webp);
}

#[test]
fn image_format_rejects_unknown_text() {
    let error = image_format_from_str("bogus").unwrap_err();
    assert_eq!(error.message(), "unknown image format `bogus`");
}

#[test]
fn stream_mode_texts_round_trip() {
    assert_eq!(stream_mode_as_str(StreamMode::Sse), "sse");
    assert_eq!(stream_mode_from_str("sse").unwrap(), StreamMode::Sse);
}

#[test]
fn stream_mode_rejects_unknown_text() {
    let error = stream_mode_from_str("bogus").unwrap_err();
    assert_eq!(error.message(), "unknown stream mode `bogus`");
}

#[test]
fn character_reference_type_texts_round_trip() {
    assert_eq!(character_reference_type_as_str(CharacterReferenceType::Character), "character");
    assert_eq!(character_reference_type_from_str("character").unwrap(), CharacterReferenceType::Character);
    assert_eq!(character_reference_type_as_str(CharacterReferenceType::Style), "style");
    assert_eq!(character_reference_type_from_str("style").unwrap(), CharacterReferenceType::Style);
    assert_eq!(character_reference_type_as_str(CharacterReferenceType::CharacterAndStyle), "character_and_style");
    assert_eq!(character_reference_type_from_str("character_and_style").unwrap(), CharacterReferenceType::CharacterAndStyle);
}

#[test]
fn character_reference_type_rejects_unknown_text() {
    let error = character_reference_type_from_str("bogus").unwrap_err();
    assert_eq!(error.message(), "unknown character reference type `bogus`");
}

#[test]
fn draft_seed_mode_texts_round_trip() {
    assert_eq!(draft_seed_mode_as_str(GenerationDraftSeedMode::Random), "random");
    assert_eq!(draft_seed_mode_from_str("random").unwrap(), GenerationDraftSeedMode::Random);
    assert_eq!(draft_seed_mode_as_str(GenerationDraftSeedMode::Fixed), "fixed");
    assert_eq!(draft_seed_mode_from_str("fixed").unwrap(), GenerationDraftSeedMode::Fixed);
}

#[test]
fn draft_seed_mode_rejects_unknown_text() {
    let error = draft_seed_mode_from_str("bogus").unwrap_err();
    assert_eq!(error.message(), "unknown generation draft seed mode `bogus`");
}

#[test]
fn position_mode_texts_round_trip() {
    assert_eq!(position_mode_as_str(GenerationDraftCharacterPositionMode::Global), "global");
    assert_eq!(position_mode_from_str("global").unwrap(), GenerationDraftCharacterPositionMode::Global);
    assert_eq!(position_mode_as_str(GenerationDraftCharacterPositionMode::Manual), "manual");
    assert_eq!(position_mode_from_str("manual").unwrap(), GenerationDraftCharacterPositionMode::Manual);
}

#[test]
fn position_mode_rejects_unknown_text() {
    let error = position_mode_from_str("bogus").unwrap_err();
    assert_eq!(error.message(), "unknown generation draft character position mode `bogus`");
}

#[test]
fn job_kind_texts_round_trip() {
    assert_eq!(job_kind_as_str(JobKind::GenerateImage), "generate_image");
    assert_eq!(job_kind_from_str("generate_image").unwrap(), JobKind::GenerateImage);
}

#[test]
fn job_kind_rejects_unknown_text() {
    let error = job_kind_from_str("bogus").unwrap_err();
    assert_eq!(error.message(), "unknown job kind `bogus`");
}

#[test]
fn batch_status_texts_round_trip() {
    assert_eq!(batch_status_as_str(BatchStatus::Running), "running");
    assert_eq!(batch_status_from_str("running").unwrap(), BatchStatus::Running);
    assert_eq!(batch_status_as_str(BatchStatus::Waiting), "waiting");
    assert_eq!(batch_status_from_str("waiting").unwrap(), BatchStatus::Waiting);
    assert_eq!(batch_status_as_str(BatchStatus::Paused), "paused");
    assert_eq!(batch_status_from_str("paused").unwrap(), BatchStatus::Paused);
    assert_eq!(batch_status_as_str(BatchStatus::Stopping), "stopping");
    assert_eq!(batch_status_from_str("stopping").unwrap(), BatchStatus::Stopping);
    assert_eq!(batch_status_as_str(BatchStatus::Succeeded), "succeeded");
    assert_eq!(batch_status_from_str("succeeded").unwrap(), BatchStatus::Succeeded);
    assert_eq!(batch_status_as_str(BatchStatus::Stopped), "stopped");
    assert_eq!(batch_status_from_str("stopped").unwrap(), BatchStatus::Stopped);
}

#[test]
fn batch_status_rejects_unknown_text() {
    let error = batch_status_from_str("bogus").unwrap_err();
    assert_eq!(error.message(), "unknown batch status `bogus`");
}

#[test]
fn job_status_texts_round_trip() {
    assert_eq!(job_status_as_str(JobStatus::Queued), "queued");
    assert_eq!(job_status_from_str("queued").unwrap(), JobStatus::Queued);
    assert_eq!(job_status_as_str(JobStatus::Preparing), "preparing");
    assert_eq!(job_status_from_str("preparing").unwrap(), JobStatus::Preparing);
    assert_eq!(job_status_as_str(JobStatus::Running), "running");
    assert_eq!(job_status_from_str("running").unwrap(), JobStatus::Running);
    assert_eq!(job_status_as_str(JobStatus::WaitingRetry), "waiting_retry");
    assert_eq!(job_status_from_str("waiting_retry").unwrap(), JobStatus::WaitingRetry);
    assert_eq!(job_status_as_str(JobStatus::Blocked), "blocked");
    assert_eq!(job_status_from_str("blocked").unwrap(), JobStatus::Blocked);
    assert_eq!(job_status_as_str(JobStatus::Succeeded), "succeeded");
    assert_eq!(job_status_from_str("succeeded").unwrap(), JobStatus::Succeeded);
    assert_eq!(job_status_as_str(JobStatus::Failed), "failed");
    assert_eq!(job_status_from_str("failed").unwrap(), JobStatus::Failed);
    assert_eq!(job_status_as_str(JobStatus::Skipped), "skipped");
    assert_eq!(job_status_from_str("skipped").unwrap(), JobStatus::Skipped);
}

#[test]
fn job_status_rejects_unknown_text() {
    let error = job_status_from_str("bogus").unwrap_err();
    assert_eq!(error.message(), "unknown job status `bogus`");
}

#[test]
fn run_history_kind_texts_round_trip() {
    assert_eq!(run_history_kind_as_str(RunHistoryKind::Generation), "generation");
    assert_eq!(run_history_kind_from_str("generation").unwrap(), RunHistoryKind::Generation);
    assert_eq!(run_history_kind_as_str(RunHistoryKind::Director), "director");
    assert_eq!(run_history_kind_from_str("director").unwrap(), RunHistoryKind::Director);
}

#[test]
fn run_history_kind_rejects_unknown_text() {
    let error = run_history_kind_from_str("bogus").unwrap_err();
    assert_eq!(error.message(), "unknown run kind `bogus`");
}

#[test]
fn run_history_status_texts_round_trip() {
    assert_eq!(run_history_status_as_str(RunHistoryStatus::Queued), "queued");
    assert_eq!(run_history_status_from_str("queued").unwrap(), RunHistoryStatus::Queued);
    assert_eq!(run_history_status_as_str(RunHistoryStatus::Preparing), "preparing");
    assert_eq!(run_history_status_from_str("preparing").unwrap(), RunHistoryStatus::Preparing);
    assert_eq!(run_history_status_as_str(RunHistoryStatus::Running), "running");
    assert_eq!(run_history_status_from_str("running").unwrap(), RunHistoryStatus::Running);
    assert_eq!(run_history_status_as_str(RunHistoryStatus::Waiting), "waiting");
    assert_eq!(run_history_status_from_str("waiting").unwrap(), RunHistoryStatus::Waiting);
    assert_eq!(run_history_status_as_str(RunHistoryStatus::Paused), "paused");
    assert_eq!(run_history_status_from_str("paused").unwrap(), RunHistoryStatus::Paused);
    assert_eq!(run_history_status_as_str(RunHistoryStatus::Succeeded), "succeeded");
    assert_eq!(run_history_status_from_str("succeeded").unwrap(), RunHistoryStatus::Succeeded);
    assert_eq!(run_history_status_as_str(RunHistoryStatus::Failed), "failed");
    assert_eq!(run_history_status_from_str("failed").unwrap(), RunHistoryStatus::Failed);
    assert_eq!(run_history_status_as_str(RunHistoryStatus::Skipped), "skipped");
    assert_eq!(run_history_status_from_str("skipped").unwrap(), RunHistoryStatus::Skipped);
    assert_eq!(run_history_status_as_str(RunHistoryStatus::Stopped), "stopped");
    assert_eq!(run_history_status_from_str("stopped").unwrap(), RunHistoryStatus::Stopped);
}

#[test]
fn run_history_status_rejects_unknown_text() {
    let error = run_history_status_from_str("bogus").unwrap_err();
    assert_eq!(error.message(), "unknown run status `bogus`");
}

#[test]
fn namespace_texts_round_trip() {
    assert_eq!(namespace_as_str(LibraryNamespace::PromptChunk), "prompt_chunk");
    assert_eq!(namespace_from_str("prompt_chunk").unwrap(), LibraryNamespace::PromptChunk);
    assert_eq!(namespace_as_str(LibraryNamespace::MainPreset), "main_preset");
    assert_eq!(namespace_from_str("main_preset").unwrap(), LibraryNamespace::MainPreset);
    assert_eq!(namespace_as_str(LibraryNamespace::CharacterPreset), "character_preset");
    assert_eq!(namespace_from_str("character_preset").unwrap(), LibraryNamespace::CharacterPreset);
    assert_eq!(namespace_as_str(LibraryNamespace::Vibe), "vibe");
    assert_eq!(namespace_from_str("vibe").unwrap(), LibraryNamespace::Vibe);
}

#[test]
fn namespace_rejects_unknown_text() {
    let error = namespace_from_str("bogus").unwrap_err();
    assert_eq!(error.message(), "unknown resource library namespace `bogus`");
}

#[test]
fn session_status_texts_round_trip() {
    assert_eq!(session_status_as_str(AgentSessionStatus::Idle), "idle");
    assert_eq!(session_status_from_str("idle").unwrap(), AgentSessionStatus::Idle);
    assert_eq!(session_status_as_str(AgentSessionStatus::Running), "running");
    assert_eq!(session_status_from_str("running").unwrap(), AgentSessionStatus::Running);
    assert_eq!(session_status_as_str(AgentSessionStatus::Interrupted), "interrupted");
    assert_eq!(session_status_from_str("interrupted").unwrap(), AgentSessionStatus::Interrupted);
}

#[test]
fn session_status_rejects_unknown_text() {
    let error = session_status_from_str("bogus").unwrap_err();
    assert_eq!(error.message(), "unknown Agent session status `bogus`");
}

#[test]
fn action_state_texts_round_trip() {
    assert_eq!(action_state_as_str(AgentActionState::Applied), "applied");
    assert_eq!(action_state_from_str("applied").unwrap(), AgentActionState::Applied);
    assert_eq!(action_state_as_str(AgentActionState::Undone), "undone");
    assert_eq!(action_state_from_str("undone").unwrap(), AgentActionState::Undone);
}

#[test]
fn action_state_rejects_unknown_text() {
    let error = action_state_from_str("bogus").unwrap_err();
    assert_eq!(error.message(), "unknown Agent action state `bogus`");
}

#[test]
fn permission_mode_texts_round_trip() {
    assert_eq!(permission_mode_as_str(AgentPermissionMode::Standard), "standard");
    assert_eq!(permission_mode_from_str("standard").unwrap(), AgentPermissionMode::Standard);
    assert_eq!(permission_mode_as_str(AgentPermissionMode::Ask), "ask");
    assert_eq!(permission_mode_from_str("ask").unwrap(), AgentPermissionMode::Ask);
    assert_eq!(permission_mode_as_str(AgentPermissionMode::BypassAll), "bypass_all");
    assert_eq!(permission_mode_from_str("bypass_all").unwrap(), AgentPermissionMode::BypassAll);
}

#[test]
fn permission_mode_rejects_unknown_text() {
    let error = permission_mode_from_str("bogus").unwrap_err();
    assert_eq!(error.message(), "unknown Agent permission mode `bogus`");
}
