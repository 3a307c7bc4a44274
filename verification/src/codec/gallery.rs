//! Stored texts of the safety and visual asset vocabularies.

use vstd::prelude::*;

use crate::domain::artifacts::{VisualAssetRole};
use crate::domain::safety::{ImageAnalysisModelId, SafetyLabel, SafetyRiskBand};
use crate::error::{decode_error, decode_message, DatabaseErrorKind, DatabaseResult};
use crate::text::str_eq;

verus! {

/// The text that stores each [`SafetyLabel`] value.
pub open spec fn safety_label_text(value: SafetyLabel) -> Seq<char> {
    match value {
        SafetyLabel::Safe => "safe"@,
        SafetyLabel::Sensitive => "sensitive"@,
        SafetyLabel::Hidden => "hidden"@,
    }
}

/// The [`SafetyLabel`] value stored as `text`, if `text` stores one.
pub open spec fn safety_label_parse(text: Seq<char>) -> Option<SafetyLabel> {
    if text == "safe"@ {
        Some(SafetyLabel::Safe)
    } else if text == "sensitive"@ {
        Some(SafetyLabel::Sensitive)
    } else if text == "hidden"@ {
        Some(SafetyLabel::Hidden)
    } else {
        None
    }
}

/// Decoding the stored text of a [`SafetyLabel`] gives the value back, and a text
/// decodes to a value only when it is that value's stored text; so distinct
/// values are stored as distinct texts.
pub proof fn lemma_safety_label_round_trip(value: SafetyLabel, text: Seq<char>)
    ensures
        safety_label_parse(safety_label_text(value)) == Some(value),
        safety_label_parse(text) == Some(value) ==> safety_label_text(value) == text,
{
    reveal_strlit("safe");
    assert("safe"@.len() == 4);
    reveal_strlit("sensitive");
    assert("sensitive"@.len() == 9);
    reveal_strlit("hidden");
    assert("hidden"@.len() == 6);
    match value {
        SafetyLabel::Safe => {
            assert(safety_label_parse("safe"@) == Some(SafetyLabel::Safe));
        },
        SafetyLabel::Sensitive => {
            assert(safety_label_parse("sensitive"@) == Some(SafetyLabel::Sensitive));
        },
        SafetyLabel::Hidden => {
            assert(safety_label_parse("hidden"@) == Some(SafetyLabel::Hidden));
        },
    }
}

/// The text that stores `value`.
pub fn safety_label_as_str(value: SafetyLabel) -> (text: &'static str)
    ensures
        text@ == safety_label_text(value),
{
    match value {
        SafetyLabel::Safe => "safe",
        SafetyLabel::Sensitive => "sensitive",
        SafetyLabel::Hidden => "hidden",
    }
}

/// Decodes a stored [`SafetyLabel`]; an unknown text is an error that names it.
pub fn safety_label_from_str(value: &str) -> (result: DatabaseResult<SafetyLabel>)
    ensures
        (match result {
            Ok(parsed) => safety_label_parse(value@) == Some(parsed),
            Err(error) => {
                &&& safety_label_parse(value@) is None
                &&& error.spec_kind() == DatabaseErrorKind::Database
                &&& error.spec_message() == decode_message("safety label"@, value@)
            },
        }),
{
    if str_eq(value, "safe") {
        Ok(SafetyLabel::Safe)
    } else if str_eq(value, "sensitive") {
        Ok(SafetyLabel::Sensitive)
    } else if str_eq(value, "hidden") {
        Ok(SafetyLabel::Hidden)
    } else {
        Err(decode_error("safety label", value))
    }
}

/// The text that stores each [`SafetyRiskBand`] value.
pub open spec fn safety_risk_band_text(value: SafetyRiskBand) -> Seq<char> {
    match value {
        SafetyRiskBand::Low => "low"@,
        SafetyRiskBand::Medium => "medium"@,
        SafetyRiskBand::High => "high"@,
    }
}

/// The [`SafetyRiskBand`] value stored as `text`, if `text` stores one.
pub open spec fn safety_risk_band_parse(text: Seq<char>) -> Option<SafetyRiskBand> {
    if text == "low"@ {
        Some(SafetyRiskBand::Low)
    } else if text == "medium"@ {
        Some(SafetyRiskBand::Medium)
    } else if text == "high"@ {
        Some(SafetyRiskBand::High)
    } else {
        None
    }
}

/// Decoding the stored text of a [`SafetyRiskBand`] gives the value back, and a text
/// decodes to a value only when it is that value's stored text; so distinct
/// values are stored as distinct texts.
pub proof fn lemma_safety_risk_band_round_trip(value: SafetyRiskBand, text: Seq<char>)
    ensures
        safety_risk_band_parse(safety_risk_band_text(value)) == Some(value),
        safety_risk_band_parse(text) == Some(value) ==> safety_risk_band_text(value) == text,
{
    reveal_strlit("low");
    assert("low"@.len() == 3);
    reveal_strlit("medium");
    assert("medium"@.len() == 6);
    reveal_strlit("high");
    assert("high"@.len() == 4);
    match value {
        SafetyRiskBand::Low => {
            assert(safety_risk_band_parse("low"@) == Some(SafetyRiskBand::Low));
        },
        SafetyRiskBand::Medium => {
            assert(safety_risk_band_parse("medium"@) == Some(SafetyRiskBand::Medium));
        },
        SafetyRiskBand::High => {
            assert(safety_risk_band_parse("high"@) == Some(SafetyRiskBand::High));
        },
    }
}

/// The text that stores `value`.
pub fn safety_risk_band_as_str(value: SafetyRiskBand) -> (text: &'static str)
    ensures
        text@ == safety_risk_band_text(value),
{
    match value {
        SafetyRiskBand::Low => "low",
        SafetyRiskBand::Medium => "medium",
        SafetyRiskBand::High => "high",
    }
}

/// Decodes a stored [`SafetyRiskBand`]; an unknown text is an error that names it.
pub fn safety_risk_band_from_str(value: &str) -> (result: DatabaseResult<SafetyRiskBand>)
    ensures
        (match result {
            Ok(parsed) => safety_risk_band_parse(value@) == Some(parsed),
            Err(error) => {
                &&& safety_risk_band_parse(value@) is None
                &&& error.spec_kind() == DatabaseErrorKind::Database
                &&& error.spec_message() == decode_message("safety risk band"@, value@)
            },
        }),
{
    if str_eq(value, "low") {
        Ok(SafetyRiskBand::Low)
    } else if str_eq(value, "medium") {
        Ok(SafetyRiskBand::Medium)
    } else if str_eq(value, "high") {
        Ok(SafetyRiskBand::High)
    } else {
        Err(decode_error("safety risk band", value))
    }
}

/// The text that stores each [`ImageAnalysisModelId`] value.
pub open spec fn image_analysis_model_id_text(value: ImageAnalysisModelId) -> Seq<char> {
    match value {
        ImageAnalysisModelId::AnimeDbRating => "anime_dbrating"@,
        ImageAnalysisModelId::WdSwinv2TaggerV3 => "wd_swinv2_tagger_v3"@,
    }
}

/// The [`ImageAnalysisModelId`] value stored as `text`, if `text` stores one.
pub open spec fn image_analysis_model_id_parse(text: Seq<char>) -> Option<ImageAnalysisModelId> {
    if text == "anime_dbrating"@ {
        Some(ImageAnalysisModelId::AnimeDbRating)
    } else if text == "wd_swinv2_tagger_v3"@ {
        Some(ImageAnalysisModelId::WdSwinv2TaggerV3)
    } else {
        None
    }
}

/// Decoding the stored text of a [`ImageAnalysisModelId`] gives the value back, and a text
/// decodes to a value only when it is that value's stored text; so distinct
/// values are stored as distinct texts.
pub proof fn lemma_image_analysis_model_id_round_trip(value: ImageAnalysisModelId, text: Seq<char>)
    ensures
        image_analysis_model_id_parse(image_analysis_model_id_text(value)) == Some(value),
        image_analysis_model_id_parse(text) == Some(value) ==> image_analysis_model_id_text(value) == text,
{
    reveal_strlit("anime_dbrating");
    assert("anime_dbrating"@.len() == 14);
    reveal_strlit("wd_swinv2_tagger_v3");
    assert("wd_swinv2_tagger_v3"@.len() == 19);
    match value {
        ImageAnalysisModelId::AnimeDbRating => {
            assert(image_analysis_model_id_parse("anime_dbrating"@) == Some(ImageAnalysisModelId::AnimeDbRating));
        },
        ImageAnalysisModelId::WdSwinv2TaggerV3 => {
            assert(image_analysis_model_id_parse("wd_swinv2_tagger_v3"@) == Some(ImageAnalysisModelId::WdSwinv2TaggerV3));
        },
    }
}

/// Decodes a stored [`ImageAnalysisModelId`]; an unknown text is an error that names it.
pub fn image_analysis_model_id_from_str(value: &str) -> (result: DatabaseResult<ImageAnalysisModelId>)
    ensures
        (match result {
            Ok(parsed) => image_analysis_model_id_parse(value@) == Some(parsed),
            Err(error) => {
                &&& image_analysis_model_id_parse(value@) is None
                &&& error.spec_kind() == DatabaseErrorKind::Database
                &&& error.spec_message() == decode_message("image analysis model id"@, value@)
            },
        }),
{
    if str_eq(value, "anime_dbrating") {
        Ok(ImageAnalysisModelId::AnimeDbRating)
    } else if str_eq(value, "wd_swinv2_tagger_v3") {
        Ok(ImageAnalysisModelId::WdSwinv2TaggerV3)
    } else {
        Err(decode_error("image analysis model id", value))
    }
}

/// The text that stores each [`VisualAssetRole`] value.
pub open spec fn visual_asset_role_text(value: VisualAssetRole) -> Seq<char> {
    match value {
        VisualAssetRole::Original => "original"@,
        VisualAssetRole::Thumbnail => "thumbnail"@,
        VisualAssetRole::Preview => "preview"@,
        VisualAssetRole::Sanitized => "sanitized"@,
        VisualAssetRole::Export => "export"@,
    }
}

/// The [`VisualAssetRole`] value stored as `text`, if `text` stores one.
pub open spec fn visual_asset_role_parse(text: Seq<char>) -> Option<VisualAssetRole> {
    if text == "original"@ {
        Some(VisualAssetRole::Original)
    } else if text == "thumbnail"@ {
        Some(VisualAssetRole::Thumbnail)
    } else if text == "preview"@ {
        Some(VisualAssetRole::Preview)
    } else if text == "sanitized"@ {
        Some(VisualAssetRole::Sanitized)
    } else if text == "export"@ {
        Some(VisualAssetRole::Export)
    } else {
        None
    }
}

/// Decoding the stored text of a [`VisualAssetRole`] gives the value back, and a text
/// decodes to a value only when it is that value's stored text; so distinct
/// values are stored as distinct texts.
pub proof fn lemma_visual_asset_role_round_trip(value: VisualAssetRole, text: Seq<char>)
    ensures
        visual_asset_role_parse(visual_asset_role_text(value)) == Some(value),
        visual_asset_role_parse(text) == Some(value) ==> visual_asset_role_text(value) == text,
{
    reveal_strlit("original");
    assert("original"@.len() == 8);
    reveal_strlit("thumbnail");
    assert("thumbnail"@.len() == 9);
    reveal_strlit("preview");
    assert("preview"@.len() == 7);
    reveal_strlit("sanitized");
    assert("sanitized"@.len() == 9);
    reveal_strlit("export");
    assert("export"@.len() == 6);
    match value {
        VisualAssetRole::Original => {
            assert(visual_asset_role_parse("original"@) == Some(VisualAssetRole::Original));
        },
        VisualAssetRole::Thumbnail => {
            assert(visual_asset_role_parse("thumbnail"@) == Some(VisualAssetRole::Thumbnail));
        },
        VisualAssetRole::Preview => {
            assert(visual_asset_role_parse("preview"@) == Some(VisualAssetRole::Preview));
        },
        VisualAssetRole::Sanitized => {
            assert("sanitized"@[0] != "thumbnail"@[0]);
            assert(visual_asset_role_parse("sanitized"@) == Some(VisualAssetRole::Sanitized));
        },
        VisualAssetRole::Export => {
            assert(visual_asset_role_parse("export"@) == Some(VisualAssetRole::Export));
        },
    }
}

/// The text that stores `value`.
pub fn visual_asset_role_as_str(value: VisualAssetRole) -> (text: &'static str)
    ensures
        text@ == visual_asset_role_text(value),
{
    match value {
        VisualAssetRole::Original => "original",
        VisualAssetRole::Thumbnail => "thumbnail",
        VisualAssetRole::Preview => "preview",
        VisualAssetRole::Sanitized => "sanitized",
        VisualAssetRole::Export => "export",
    }
}

/// Decodes a stored [`VisualAssetRole`]; an unknown text is an error that names it.
pub fn visual_asset_role_from_str(value: &str) -> (result: DatabaseResult<VisualAssetRole>)
    ensures
        (match result {
            Ok(parsed) => visual_asset_role_parse(value@) == Some(parsed),
            Err(error) => {
                &&& visual_asset_role_parse(value@) is None
                &&& error.spec_kind() == DatabaseErrorKind::Database
                &&& error.spec_message() == decode_message("visual asset role"@, value@)
            },
        }),
{
    if str_eq(value, "original") {
        Ok(VisualAssetRole::Original)
    } else if str_eq(value, "thumbnail") {
        Ok(VisualAssetRole::Thumbnail)
    } else if str_eq(value, "preview") {
        Ok(VisualAssetRole::Preview)
    } else if str_eq(value, "sanitized") {
        Ok(VisualAssetRole::Sanitized)
    } else if str_eq(value, "export") {
        Ok(VisualAssetRole::Export)
    } else {
        Err(decode_error("visual asset role", value))
    }
}


} // verus!
