//! Stored texts of the image generation vocabulary.

use vstd::prelude::*;

use crate::domain::generation::{CharacterReferenceType, GenerationDraftCharacterPositionMode, GenerationDraftSeedMode, ImageFormat, ImageModel, NoiseSchedule, Sampler, StreamMode, UcPreset};
use crate::error::{decode_error, decode_message, DatabaseErrorKind, DatabaseResult};
use crate::text::str_eq;

verus! {

/// The text that stores each [`ImageModel`] value.
pub open spec fn image_model_text(value: ImageModel) -> Seq<char> {
    match value {
        ImageModel::NaiDiffusion45Full => "nai-diffusion-4-5-full"@,
        ImageModel::NaiDiffusion45Curated => "nai-diffusion-4-5-curated"@,
        ImageModel::NaiDiffusion4Full => "nai-diffusion-4-full"@,
        ImageModel::NaiDiffusion4Curated => "nai-diffusion-4-curated"@,
        ImageModel::NaiDiffusion3 => "nai-diffusion-3"@,
        ImageModel::NaiDiffusion3Furry => "nai-diffusion-3-furry"@,
    }
}

/// The [`ImageModel`] value stored as `text`, if `text` stores one.
pub open spec fn image_model_parse(text: Seq<char>) -> Option<ImageModel> {
    if text == "nai-diffusion-4-5-full"@ {
        Some(ImageModel::NaiDiffusion45Full)
    } else if text == "nai-diffusion-4-5-curated"@ {
        Some(ImageModel::NaiDiffusion45Curated)
    } else if text == "nai-diffusion-4-full"@ {
        Some(ImageModel::NaiDiffusion4Full)
    } else if text == "nai-diffusion-4-curated"@ {
        Some(ImageModel::NaiDiffusion4Curated)
    } else if text == "nai-diffusion-3"@ {
        Some(ImageModel::NaiDiffusion3)
    } else if text == "nai-diffusion-3-furry"@ {
        Some(ImageModel::NaiDiffusion3Furry)
    } else {
        None
    }
}

/// Decoding the stored text of a [`ImageModel`] gives the value back, and a text
/// decodes to a value only when it is that value's stored text; so distinct
/// values are stored as distinct texts.
pub proof fn lemma_image_model_round_trip(value: ImageModel, text: Seq<char>)
    ensures
        image_model_parse(image_model_text(value)) == Some(value),
        image_model_parse(text) == Some(value) ==> image_model_text(value) == text,
{
    reveal_strlit("nai-diffusion-4-5-full");
    assert("nai-diffusion-4-5-full"@.len() == 22);
    reveal_strlit("nai-diffusion-4-5-curated");
    assert("nai-diffusion-4-5-curated"@.len() == 25);
    reveal_strlit("nai-diffusion-4-full");
    assert("nai-diffusion-4-full"@.len() == 20);
    reveal_strlit("nai-diffusion-4-curated");
    assert("nai-diffusion-4-curated"@.len() == 23);
    reveal_strlit("nai-diffusion-3");
    assert("nai-diffusion-3"@.len() == 15);
    reveal_strlit("nai-diffusion-3-furry");
    assert("nai-diffusion-3-furry"@.len() == 21);
    match value {
        ImageModel::NaiDiffusion45Full => {
            assert(image_model_parse("nai-diffusion-4-5-full"@) == Some(ImageModel::NaiDiffusion45Full));
        },
        ImageModel::NaiDiffusion45Curated => {
            assert(image_model_parse("nai-diffusion-4-5-curated"@) == Some(ImageModel::NaiDiffusion45Curated));
        },
        ImageModel::NaiDiffusion4Full => {
            assert(image_model_parse("nai-diffusion-4-full"@) == Some(ImageModel::NaiDiffusion4Full));
        },
        ImageModel::NaiDiffusion4Curated => {
            assert(image_model_parse("nai-diffusion-4-curated"@) == Some(ImageModel::NaiDiffusion4Curated));
        },
        ImageModel::NaiDiffusion3 => {
            assert(image_model_parse("nai-diffusion-3"@) == Some(ImageModel::NaiDiffusion3));
        },
        ImageModel::NaiDiffusion3Furry => {
            assert(image_model_parse("nai-diffusion-3-furry"@) == Some(ImageModel::NaiDiffusion3Furry));
        },
    }
}

/// The text that stores `value`.
pub fn image_model_as_str(value: ImageModel) -> (text: &'static str)
    ensures
        text@ == image_model_text(value),
{
    match value {
        ImageModel::NaiDiffusion45Full => "nai-diffusion-4-5-full",
        ImageModel::NaiDiffusion45Curated => "nai-diffusion-4-5-curated",
        ImageModel::NaiDiffusion4Full => "nai-diffusion-4-full",
        ImageModel::NaiDiffusion4Curated => "nai-diffusion-4-curated",
        ImageModel::NaiDiffusion3 => "nai-diffusion-3",
        ImageModel::NaiDiffusion3Furry => "nai-diffusion-3-furry",
    }
}

/// Decodes a stored [`ImageModel`]; an unknown text is an error that names it.
pub fn image_model_from_str(value: &str) -> (result: DatabaseResult<ImageModel>)
    ensures
        (match result {
            Ok(parsed) => image_model_parse(value@) == Some(parsed),
            Err(error) => {
                &&& image_model_parse(value@) is None
                &&& error.spec_kind() == DatabaseErrorKind::Database
                &&& error.spec_message() == decode_message("image model"@, value@)
            },
        }),
{
    if str_eq(value, "nai-diffusion-4-5-full") {
        Ok(ImageModel::NaiDiffusion45Full)
    } else if str_eq(value, "nai-diffusion-4-5-curated") {
        Ok(ImageModel::NaiDiffusion45Curated)
    } else if str_eq(value, "nai-diffusion-4-full") {
        Ok(ImageModel::NaiDiffusion4Full)
    } else if str_eq(value, "nai-diffusion-4-curated") {
        Ok(ImageModel::NaiDiffusion4Curated)
    } else if str_eq(value, "nai-diffusion-3") {
        Ok(ImageModel::NaiDiffusion3)
    } else if str_eq(value, "nai-diffusion-3-furry") {
        Ok(ImageModel::NaiDiffusion3Furry)
    } else {
        Err(decode_error("image model", value))
    }
}

/// The text that stores each [`Sampler`] value.
pub open spec fn sampler_text(value: Sampler) -> Seq<char> {
    match value {
        Sampler::KEuler => "k_euler"@,
        Sampler::KEulerAncestral => "k_euler_ancestral"@,
        Sampler::KDpm2 => "k_dpm2"@,
        Sampler::KDpm2Ancestral => "k_dpm2_ancestral"@,
        Sampler::KDpmpp2m => "k_dpmpp_2m"@,
        Sampler::KDpmpp2sAncestral => "k_dpmpp_2s_ancestral"@,
        Sampler::KDpmppSde => "k_dpmpp_sde"@,
        Sampler::Ddim => "ddim"@,
    }
}

/// The [`Sampler`] value stored as `text`, if `text` stores one.
pub open spec fn sampler_parse(text: Seq<char>) -> Option<Sampler> {
    if text == "k_euler"@ {
        Some(Sampler::KEuler)
    } else if text == "k_euler_ancestral"@ {
        Some(Sampler::KEulerAncestral)
    } else if text == "k_dpm2"@ {
        Some(Sampler::KDpm2)
    } else if text == "k_dpm2_ancestral"@ {
        Some(Sampler::KDpm2Ancestral)
    } else if text == "k_dpmpp_2m"@ {
        Some(Sampler::KDpmpp2m)
    } else if text == "k_dpmpp_2s_ancestral"@ {
        Some(Sampler::KDpmpp2sAncestral)
    } else if text == "k_dpmpp_sde"@ {
        Some(Sampler::KDpmppSde)
    } else if text == "ddim"@ {
        Some(Sampler::Ddim)
    } else {
        None
    }
}

/// Decoding the stored text of a [`Sampler`] gives the value back, and a text
/// decodes to a value only when it is that value's stored text; so distinct
/// values are stored as distinct texts.
pub proof fn lemma_sampler_round_trip(value: Sampler, text: Seq<char>)
    ensures
        sampler_parse(sampler_text(value)) == Some(value),
        sampler_parse(text) == Some(value) ==> sampler_text(value) == text,
{
    reveal_strlit("k_euler");
    assert("k_euler"@.len() == 7);
    reveal_strlit("k_euler_ancestral");
    assert("k_euler_ancestral"@.len() == 17);
    reveal_strlit("k_dpm2");
    assert("k_dpm2"@.len() == 6);
    reveal_strlit("k_dpm2_ancestral");
    assert("k_dpm2_ancestral"@.len() == 16);
    reveal_strlit("k_dpmpp_2m");
    assert("k_dpmpp_2m"@.len() == 10);
    reveal_strlit("k_dpmpp_2s_ancestral");
    assert("k_dpmpp_2s_ancestral"@.len() == 20);
    reveal_strlit("k_dpmpp_sde");
    assert("k_dpmpp_sde"@.len() == 11);
    reveal_strlit("ddim");
    assert("ddim"@.len() == 4);
    match value {
        Sampler::KEuler => {
            assert(sampler_parse("k_euler"@) == Some(Sampler::KEuler));
        },
        Sampler::KEulerAncestral => {
            assert(sampler_parse("k_euler_ancestral"@) == Some(Sampler::KEulerAncestral));
        },
        Sampler::KDpm2 => {
            assert(sampler_parse("k_dpm2"@) == Some(Sampler::KDpm2));
        },
        Sampler::KDpm2Ancestral => {
            assert(sampler_parse("k_dpm2_ancestral"@) == Some(Sampler::KDpm2Ancestral));
        },
        Sampler::KDpmpp2m => {
            assert(sampler_parse("k_dpmpp_2m"@) == Some(Sampler::KDpmpp2m));
        },
        Sampler::KDpmpp2sAncestral => {
            assert(sampler_parse("k_dpmpp_2s_ancestral"@) == Some(Sampler::KDpmpp2sAncestral));
        },
        Sampler::KDpmppSde => {
            assert(sampler_parse("k_dpmpp_sde"@) == Some(Sampler::KDpmppSde));
        },
        Sampler::Ddim => {
            assert(sampler_parse("ddim"@) == Some(Sampler::Ddim));
        },
    }
}

/// The text that stores `value`.
pub fn sampler_as_str(value: Sampler) -> (text: &'static str)
    ensures
        text@ == sampler_text(value),
{
    match value {
        Sampler::KEuler => "k_euler",
        Sampler::KEulerAncestral => "k_euler_ancestral",
        Sampler::KDpm2 => "k_dpm2",
        Sampler::KDpm2Ancestral => "k_dpm2_ancestral",
        Sampler::KDpmpp2m => "k_dpmpp_2m",
        Sampler::KDpmpp2sAncestral => "k_dpmpp_2s_ancestral",
        Sampler::KDpmppSde => "k_dpmpp_sde",
        Sampler::Ddim => "ddim",
    }
}

/// Decodes a stored [`Sampler`]; an unknown text is an error that names it.
pub fn sampler_from_str(value: &str) -> (result: DatabaseResult<Sampler>)
    ensures
        (match result {
            Ok(parsed) => sampler_parse(value@) == Some(parsed),
            Err(error) => {
                &&& sampler_parse(value@) is None
                &&& error.spec_kind() == DatabaseErrorKind::Database
                &&& error.spec_message() == decode_message("sampler"@, value@)
            },
        }),
{
    if str_eq(value, "k_euler") {
        Ok(Sampler::KEuler)
    } else if str_eq(value, "k_euler_ancestral") {
        Ok(Sampler::KEulerAncestral)
    } else if str_eq(value, "k_dpm2") {
        Ok(Sampler::KDpm2)
    } else if str_eq(value, "k_dpm2_ancestral") {
        Ok(Sampler::KDpm2Ancestral)
    } else if str_eq(value, "k_dpmpp_2m") {
        Ok(Sampler::KDpmpp2m)
    } else if str_eq(value, "k_dpmpp_2s_ancestral") {
        Ok(Sampler::KDpmpp2sAncestral)
    } else if str_eq(value, "k_dpmpp_sde") {
        Ok(Sampler::KDpmppSde)
    } else if str_eq(value, "ddim") {
        Ok(Sampler::Ddim)
    } else {
        Err(decode_error("sampler", value))
    }
}

/// The text that stores each [`NoiseSchedule`] value.
pub open spec fn noise_schedule_text(value: NoiseSchedule) -> Seq<char> {
    match value {
        NoiseSchedule::Karras => "karras"@,
        NoiseSchedule::Exponential => "exponential"@,
        NoiseSchedule::Polyexponential => "polyexponential"@,
    }
}

/// The [`NoiseSchedule`] value stored as `text`, if `text` stores one.
pub open spec fn noise_schedule_parse(text: Seq<char>) -> Option<NoiseSchedule> {
    if text == "karras"@ {
        Some(NoiseSchedule::Karras)
    } else if text == "exponential"@ {
        Some(NoiseSchedule::Exponential)
    } else if text == "polyexponential"@ {
        Some(NoiseSchedule::Polyexponential)
    } else {
        None
    }
}

/// Decoding the stored text of a [`NoiseSchedule`] gives the value back, and a text
/// decodes to a value only when it is that value's stored text; so distinct
/// values are stored as distinct texts.
pub proof fn lemma_noise_schedule_round_trip(value: NoiseSchedule, text: Seq<char>)
    ensures
        noise_schedule_parse(noise_schedule_text(value)) == Some(value),
        noise_schedule_parse(text) == Some(value) ==> noise_schedule_text(value) == text,
{
    reveal_strlit("karras");
    assert("karras"@.len() == 6);
    reveal_strlit("exponential");
    assert("exponential"@.len() == 11);
    reveal_strlit("polyexponential");
    assert("polyexponential"@.len() == 15);
    match value {
        NoiseSchedule::Karras => {
            assert(noise_schedule_parse("karras"@) == Some(NoiseSchedule::Karras));
        },
        NoiseSchedule::Exponential => {
            assert(noise_schedule_parse("exponential"@) == Some(NoiseSchedule::Exponential));
        },
        NoiseSchedule::Polyexponential => {
            assert(noise_schedule_parse("polyexponential"@) == Some(NoiseSchedule::Polyexponential));
        },
    }
}

/// The text that stores `value`.
pub fn noise_schedule_as_str(value: NoiseSchedule) -> (text: &'static str)
    ensures
        text@ == noise_schedule_text(value),
{
    match value {
        NoiseSchedule::Karras => "karras",
        NoiseSchedule::Exponential => "exponential",
        NoiseSchedule::Polyexponential => "polyexponential",
    }
}

/// Decodes a stored [`NoiseSchedule`]; an unknown text is an error that names it.
pub fn noise_schedule_from_str(value: &str) -> (result: DatabaseResult<NoiseSchedule>)
    ensures
        (match result {
            Ok(parsed) => noise_schedule_parse(value@) == Some(parsed),
            Err(error) => {
                &&& noise_schedule_parse(value@) is None
                &&& error.spec_kind() == DatabaseErrorKind::Database
                &&& error.spec_message() == decode_message("noise schedule"@, value@)
            },
        }),
{
    if str_eq(value, "karras") {
        Ok(NoiseSchedule::Karras)
    } else if str_eq(value, "exponential") {
        Ok(NoiseSchedule::Exponential)
    } else if str_eq(value, "polyexponential") {
        Ok(NoiseSchedule::Polyexponential)
    } else {
        Err(decode_error("noise schedule", value))
    }
}

/// The text that stores each [`UcPreset`] value.
pub open spec fn uc_preset_text(value: UcPreset) -> Seq<char> {
    match value {
        UcPreset::Heavy => "heavy"@,
        UcPreset::Light => "light"@,
        UcPreset::FurryFocus => "furry_focus"@,
        UcPreset::HumanFocus => "human_focus"@,
        UcPreset::NoPreset => "none"@,
    }
}

/// The [`UcPreset`] value stored as `text`, if `text` stores one.
pub open spec fn uc_preset_parse(text: Seq<char>) -> Option<UcPreset> {
    if text == "heavy"@ {
        Some(UcPreset::Heavy)
    } else if text == "light"@ {
        Some(UcPreset::Light)
    } else if text == "furry_focus"@ {
        Some(UcPreset::FurryFocus)
    } else if text == "human_focus"@ {
        Some(UcPreset::HumanFocus)
    } else if text == "none"@ {
        Some(UcPreset::NoPreset)
    } else {
        None
    }
}

/// Decoding the stored text of a [`UcPreset`] gives the value back, and a text
/// decodes to a value only when it is that value's stored text; so distinct
/// values are stored as distinct texts.
pub proof fn lemma_uc_preset_round_trip(value: UcPreset, text: Seq<char>)
    ensures
        uc_preset_parse(uc_preset_text(value)) == Some(value),
        uc_preset_parse(text) == Some(value) ==> uc_preset_text(value) == text,
{
    reveal_strlit("heavy");
    assert("heavy"@.len() == 5);
    reveal_strlit("light");
    assert("light"@.len() == 5);
    reveal_strlit("furry_focus");
    assert("furry_focus"@.len() == 11);
    reveal_strlit("human_focus");
    assert("human_focus"@.len() == 11);
    reveal_strlit("none");
    assert("none"@.len() == 4);
    match value {
        UcPreset::Heavy => {
            assert(uc_preset_parse("heavy"@) == Some(UcPreset::Heavy));
        },
        UcPreset::Light => {
            assert("light"@[0] != "heavy"@[0]);
            assert(uc_preset_parse("light"@) == Some(UcPreset::Light));
        },
        UcPreset::FurryFocus => {
            assert(uc_preset_parse("furry_focus"@) == Some(UcPreset::FurryFocus));
        },
        UcPreset::HumanFocus => {
            assert("human_focus"@[0] != "furry_focus"@[0]);
            assert(uc_preset_parse("human_focus"@) == Some(UcPreset::HumanFocus));
        },
        UcPreset::NoPreset => {
            assert(uc_preset_parse("none"@) == Some(UcPreset::NoPreset));
        },
    }
}

/// The text that stores `value`.
pub fn uc_preset_as_str(value: UcPreset) -> (text: &'static str)
    ensures
        text@ == uc_preset_text(value),
{
    match value {
        UcPreset::Heavy => "heavy",
        UcPreset::Light => "light",
        UcPreset::FurryFocus => "furry_focus",
        UcPreset::HumanFocus => "human_focus",
        UcPreset::NoPreset => "none",
    }
}

/// Decodes a stored [`UcPreset`]; an unknown text is an error that names it.
pub fn uc_preset_from_str(value: &str) -> (result: DatabaseResult<UcPreset>)
    ensures
        (match result {
            Ok(parsed) => uc_preset_parse(value@) == Some(parsed),
            Err(error) => {
                &&& uc_preset_parse(value@) is None
                &&& error.spec_kind() == DatabaseErrorKind::Database
                &&& error.spec_message() == decode_message("uc preset"@, value@)
            },
        }),
{
    if str_eq(value, "heavy") {
        Ok(UcPreset::Heavy)
    } else if str_eq(value, "light") {
        Ok(UcPreset::Light)
    } else if str_eq(value, "furry_focus") {
        Ok(UcPreset::FurryFocus)
    } else if str_eq(value, "human_focus") {
        Ok(UcPreset::HumanFocus)
    } else if str_eq(value, "none") {
        Ok(UcPreset::NoPreset)
    } else {
        Err(decode_error("uc preset", value))
    }
}

/// The text that stores each [`ImageFormat`] value.
pub open spec fn image_format_text(value: ImageFormat) -> Seq<char> {
    match value {
        ImageFormat::Png => "png"@,
        ImageFormat::Webp => "webp"@,
    }
}

/// The [`ImageFormat`] value stored as `text`, if `text` stores one.
pub open spec fn image_format_parse(text: Seq<char>) -> Option<ImageFormat> {
    if text == "png"@ {
        Some(ImageFormat::Png)
    } else if text == "webp"@ {
        Some(ImageFormat::Webp)
    } else {
        None
    }
}

/// Decoding the stored text of a [`ImageFormat`] gives the value back, and a text
/// decodes to a value only when it is that value's stored text; so distinct
/// values are stored as distinct texts.
pub proof fn lemma_image_format_round_trip(value: ImageFormat, text: Seq<char>)
    ensures
        image_format_parse(image_format_text(value)) == Some(value),
        image_format_parse(text) == Some(value) ==> image_format_text(value) == text,
{
    reveal_strlit("png");
    assert("png"@.len() == 3);
    reveal_strlit("webp");
    assert("webp"@.len() == 4);
    match value {
        ImageFormat::Png => {
            assert(image_format_parse("png"@) == Some(ImageFormat::Png));
        },
        ImageFormat::Webp => {
            assert(image_format_parse("webp"@) == Some(ImageFormat::Webp));
        },
    }
}

/// The text that stores `value`.
pub fn image_format_as_str(value: ImageFormat) -> (text: &'static str)
    ensures
        text@ == image_format_text(value),
{
    match value {
        ImageFormat::Png => "png",
        ImageFormat::Webp => "webp",
    }
}

/// Decodes a stored [`ImageFormat`]; an unknown text is an error that names it.
pub fn image_format_from_str(value: &str) -> (result: DatabaseResult<ImageFormat>)
    ensures
        (match result {
            Ok(parsed) => image_format_parse(value@) == Some(parsed),
            Err(error) => {
                &&& image_format_parse(value@) is None
                &&& error.spec_kind() == DatabaseErrorKind::Database
                &&& error.spec_message() == decode_message("image format"@, value@)
            },
        }),
{
    if str_eq(value, "png") {
        Ok(ImageFormat::Png)
    } else if str_eq(value, "webp") {
        Ok(ImageFormat::Webp)
    } else {
        Err(decode_error("image format", value))
    }
}

/// The text that stores each [`StreamMode`] value.
pub open spec fn stream_mode_text(value: StreamMode) -> Seq<char> {
    match value {
        StreamMode::Sse => "sse"@,
    }
}

/// The [`StreamMode`] value stored as `text`, if `text` stores one.
pub open spec fn stream_mode_parse(text: Seq<char>) -> Option<StreamMode> {
    if text == "sse"@ {
        Some(StreamMode::Sse)
    } else {
        None
    }
}

/// Decoding the stored text of a [`StreamMode`] gives the value back, and a text
/// decodes to a value only when it is that value's stored text; so distinct
/// values are stored as distinct texts.
pub proof fn lemma_stream_mode_round_trip(value: StreamMode, text: Seq<char>)
    ensures
        stream_mode_parse(stream_mode_text(value)) == Some(value),
        stream_mode_parse(text) == Some(value) ==> stream_mode_text(value) == text,
{
    reveal_strlit("sse");
    assert("sse"@.len() == 3);
    match value {
        StreamMode::Sse => {
            assert(stream_mode_parse("sse"@) == Some(StreamMode::Sse));
        },
    }
}

/// The text that stores `value`.
pub fn stream_mode_as_str(value: StreamMode) -> (text: &'static str)
    ensures
        text@ == stream_mode_text(value),
{
    match value {
        StreamMode::Sse => "sse",
    }
}

/// Decodes a stored [`StreamMode`]; an unknown text is an error that names it.
pub fn stream_mode_from_str(value: &str) -> (result: DatabaseResult<StreamMode>)
    ensures
        (match result {
            Ok(parsed) => stream_mode_parse(value@) == Some(parsed),
            Err(error) => {
                &&& stream_mode_parse(value@) is None
                &&& error.spec_kind() == DatabaseErrorKind::Database
                &&& error.spec_message() == decode_message("stream mode"@, value@)
            },
        }),
{
    if str_eq(value, "sse") {
        Ok(StreamMode::Sse)
    } else {
        Err(decode_error("stream mode", value))
    }
}

/// The text that stores each [`CharacterReferenceType`] value.
pub open spec fn character_reference_type_text(value: CharacterReferenceType) -> Seq<char> {
    match value {
        CharacterReferenceType::Character => "character"@,
        CharacterReferenceType::Style => "style"@,
        CharacterReferenceType::CharacterAndStyle => "character_and_style"@,
    }
}

/// The [`CharacterReferenceType`] value stored as `text`, if `text` stores one.
pub open spec fn character_reference_type_parse(text: Seq<char>) -> Option<CharacterReferenceType> {
    if text == "character"@ {
        Some(CharacterReferenceType::Character)
    } else if text == "style"@ {
        Some(CharacterReferenceType::Style)
    } else if text == "character_and_style"@ {
        Some(CharacterReferenceType::CharacterAndStyle)
    } else {
        None
    }
}

/// Decoding the stored text of a [`CharacterReferenceType`] gives the value back, and a text
/// decodes to a value only when it is that value's stored text; so distinct
/// values are stored as distinct texts.
pub proof fn lemma_character_reference_type_round_trip(value: CharacterReferenceType, text: Seq<char>)
    ensures
        character_reference_type_parse(character_reference_type_text(value)) == Some(value),
        character_reference_type_parse(text) == Some(value) ==> character_reference_type_text(value) == text,
{
    reveal_strlit("character");
    assert("character"@.len() == 9);
    reveal_strlit("style");
    assert("style"@.len() == 5);
    reveal_strlit("character_and_style");
    assert("character_and_style"@.len() == 19);
    match value {
        CharacterReferenceType::Character => {
            assert(character_reference_type_parse("character"@) == Some(CharacterReferenceType::Character));
        },
        CharacterReferenceType::Style => {
            assert(character_reference_type_parse("style"@) == Some(CharacterReferenceType::Style));
        },
        CharacterReferenceType::CharacterAndStyle => {
            assert(character_reference_type_parse("character_and_style"@) == Some(CharacterReferenceType::CharacterAndStyle));
        },
    }
}

/// The text that stores `value`.
pub fn character_reference_type_as_str(value: CharacterReferenceType) -> (text: &'static str)
    ensures
        text@ == character_reference_type_text(value),
{
    match value {
        CharacterReferenceType::Character => "character",
        CharacterReferenceType::Style => "style",
        CharacterReferenceType::CharacterAndStyle => "character_and_style",
    }
}

/// Decodes a stored [`CharacterReferenceType`]; an unknown text is an error that names it.
pub fn character_reference_type_from_str(value: &str) -> (result: DatabaseResult<CharacterReferenceType>)
    ensures
        (match result {
            Ok(parsed) => character_reference_type_parse(value@) == Some(parsed),
            Err(error) => {
                &&& character_reference_type_parse(value@) is None
                &&& error.spec_kind() == DatabaseErrorKind::Database
                &&& error.spec_message() == decode_message("character reference type"@, value@)
            },
        }),
{
    if str_eq(value, "character") {
        Ok(CharacterReferenceType::Character)
    } else if str_eq(value, "style") {
        Ok(CharacterReferenceType::Style)
    } else if str_eq(value, "character_and_style") {
        Ok(CharacterReferenceType::CharacterAndStyle)
    } else {
        Err(decode_error("character reference type", value))
    }
}

/// The text that stores each [`GenerationDraftSeedMode`] value.
pub open spec fn draft_seed_mode_text(value: GenerationDraftSeedMode) -> Seq<char> {
    match value {
        GenerationDraftSeedMode::Random => "random"@,
        GenerationDraftSeedMode::Fixed => "fixed"@,
    }
}

/// The [`GenerationDraftSeedMode`] value stored as `text`, if `text` stores one.
pub open spec fn draft_seed_mode_parse(text: Seq<char>) -> Option<GenerationDraftSeedMode> {
    if text == "random"@ {
        Some(GenerationDraftSeedMode::Random)
    } else if text == "fixed"@ {
        Some(GenerationDraftSeedMode::Fixed)
    } else {
        None
    }
}

/// Decoding the stored text of a [`GenerationDraftSeedMode`] gives the value back, and a text
/// decodes to a value only when it is that value's stored text; so distinct
/// values are stored as distinct texts.
pub proof fn lemma_draft_seed_mode_round_trip(value: GenerationDraftSeedMode, text: Seq<char>)
    ensures
        draft_seed_mode_parse(draft_seed_mode_text(value)) == Some(value),
        draft_seed_mode_parse(text) == Some(value) ==> draft_seed_mode_text(value) == text,
{
    reveal_strlit("random");
    assert("random"@.len() == 6);
    reveal_strlit("fixed");
    assert("fixed"@.len() == 5);
    match value {
        GenerationDraftSeedMode::Random => {
            assert(draft_seed_mode_parse("random"@) == Some(GenerationDraftSeedMode::Random));
        },
        GenerationDraftSeedMode::Fixed => {
            assert(draft_seed_mode_parse("fixed"@) == Some(GenerationDraftSeedMode::Fixed));
        },
    }
}

/// The text that stores `value`.
pub fn draft_seed_mode_as_str(value: GenerationDraftSeedMode) -> (text: &'static str)
    ensures
        text@ == draft_seed_mode_text(value),
{
    match value {
        GenerationDraftSeedMode::Random => "random",
        GenerationDraftSeedMode::Fixed => "fixed",
    }
}

/// Decodes a stored [`GenerationDraftSeedMode`]; an unknown text is an error that names it.
pub fn draft_seed_mode_from_str(value: &str) -> (result: DatabaseResult<GenerationDraftSeedMode>)
    ensures
        (match result {
            Ok(parsed) => draft_seed_mode_parse(value@) == Some(parsed),
            Err(error) => {
                &&& draft_seed_mode_parse(value@) is None
                &&& error.spec_kind() == DatabaseErrorKind::Database
                &&& error.spec_message() == decode_message("generation draft seed mode"@, value@)
            },
        }),
{
    if str_eq(value, "random") {
        Ok(GenerationDraftSeedMode::Random)
    } else if str_eq(value, "fixed") {
        Ok(GenerationDraftSeedMode::Fixed)
    } else {
        Err(decode_error("generation draft seed mode", value))
    }
}

/// The text that stores each [`GenerationDraftCharacterPositionMode`] value.
pub open spec fn position_mode_text(value: GenerationDraftCharacterPositionMode) -> Seq<char> {
    match value {
        GenerationDraftCharacterPositionMode::Global => "global"@,
        GenerationDraftCharacterPositionMode::Manual => "manual"@,
    }
}

/// The [`GenerationDraftCharacterPositionMode`] value stored as `text`, if `text` stores one.
pub open spec fn position_mode_parse(text: Seq<char>) -> Option<GenerationDraftCharacterPositionMode> {
    if text == "global"@ {
        Some(GenerationDraftCharacterPositionMode::Global)
    } else if text == "manual"@ {
        Some(GenerationDraftCharacterPositionMode::Manual)
    } else {
        None
    }
}

/// Decoding the stored text of a [`GenerationDraftCharacterPositionMode`] gives the value back, and a text
/// decodes to a value only when it is that value's stored text; so distinct
/// values are stored as distinct texts.
pub proof fn lemma_position_mode_round_trip(value: GenerationDraftCharacterPositionMode, text: Seq<char>)
    ensures
        position_mode_parse(position_mode_text(value)) == Some(value),
        position_mode_parse(text) == Some(value) ==> position_mode_text(value) == text,
{
    reveal_strlit("global");
    assert("global"@.len() == 6);
    reveal_strlit("manual");
    assert("manual"@.len() == 6);
    match value {
        GenerationDraftCharacterPositionMode::Global => {
            assert(position_mode_parse("global"@) == Some(GenerationDraftCharacterPositionMode::Global));
        },
        GenerationDraftCharacterPositionMode::Manual => {
            assert("manual"@[0] != "global"@[0]);
            assert(position_mode_parse("manual"@) == Some(GenerationDraftCharacterPositionMode::Manual));
        },
    }
}

/// The text that stores `value`.
pub fn position_mode_as_str(value: GenerationDraftCharacterPositionMode) -> (text: &'static str)
    ensures
        text@ == position_mode_text(value),
{
    match value {
        GenerationDraftCharacterPositionMode::Global => "global",
        GenerationDraftCharacterPositionMode::Manual => "manual",
    }
}

/// Decodes a stored [`GenerationDraftCharacterPositionMode`]; an unknown text is an error that names it.
pub fn position_mode_from_str(value: &str) -> (result: DatabaseResult<GenerationDraftCharacterPositionMode>)
    ensures
        (match result {
            Ok(parsed) => position_mode_parse(value@) == Some(parsed),
            Err(error) => {
                &&& position_mode_parse(value@) is None
                &&& error.spec_kind() == DatabaseErrorKind::Database
                &&& error.spec_message() == decode_message("generation draft character position mode"@, value@)
            },
        }),
{
    if str_eq(value, "global") {
        Ok(GenerationDraftCharacterPositionMode::Global)
    } else if str_eq(value, "manual") {
        Ok(GenerationDraftCharacterPositionMode::Manual)
    } else {
        Err(decode_error("generation draft character position mode", value))
    }
}


} // verus!
