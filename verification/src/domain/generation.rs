//! Image generation settings and plans.

use vstd::prelude::*;

verus! {

/// An image generation model.
#[derive(Copy, Clone, Debug, PartialEq, Eq, Structural)]
pub enum ImageModel {
    NaiDiffusion45Full,
    NaiDiffusion45Curated,
    NaiDiffusion4Full,
    NaiDiffusion4Curated,
    NaiDiffusion3,
    NaiDiffusion3Furry,
}

/// A diffusion sampler.
#[derive(Copy, Clone, Debug, PartialEq, Eq, Structural)]
pub enum Sampler {
    KEuler,
    KEulerAncestral,
    KDpm2,
    KDpm2Ancestral,
    KDpmpp2m,
    KDpmpp2sAncestral,
    KDpmppSde,
    Ddim,
}

/// A diffusion noise schedule.
#[derive(Copy, Clone, Debug, PartialEq, Eq, Structural)]
pub enum NoiseSchedule {
    Karras,
    Exponential,
    Polyexponential,
}

/// An undesired-content preset.
#[derive(Copy, Clone, Debug, PartialEq, Eq, Structural)]
pub enum UcPreset {
    Heavy,
    Light,
    FurryFocus,
    HumanFocus,
    NoPreset,
}

/// The encoding of a generated image.
#[derive(Copy, Clone, Debug, PartialEq, Eq, Structural)]
pub enum ImageFormat {
    Png,
    Webp,
}

/// How streamed generation results arrive.
#[derive(Copy, Clone, Debug, PartialEq, Eq, Structural)]
pub enum StreamMode {
    Sse,
}

/// What a character reference image contributes.
#[derive(Copy, Clone, Debug, PartialEq, Eq, Structural)]
pub enum CharacterReferenceType {
    Character,
    Style,
    CharacterAndStyle,
}

/// How a generation draft chooses its seed.
#[derive(Copy, Clone, Debug, PartialEq, Eq, Structural)]
pub enum GenerationDraftSeedMode {
    Random,
    Fixed,
}

/// Whether a draft places its characters by hand.
#[derive(Copy, Clone, Debug, PartialEq, Eq, Structural)]
pub enum GenerationDraftCharacterPositionMode {
    Global,
    Manual,
}

/// The account state a generation plan was made under.
#[derive(Copy, Clone, Debug, PartialEq, Eq, Structural)]
pub struct GenerationPlanContext {
    pub request_count: u32,
    pub pending_vibe_encode_count: u32,
    pub tier: i32,
    pub subscription_active: bool,
    pub v5_usage_is_negative: bool,
}

/// How a plan picks its seed.
#[derive(Copy, Clone, Debug, PartialEq, Eq, Structural)]
pub enum SeedMode {
    Auto,
    Fixed(i64),
}

/// How a plan's results arrive.
#[derive(Copy, Clone, Debug, PartialEq, Eq, Structural)]
pub enum GenerationOutputMode {
    Image,
    Stream(StreamMode),
}

} // verus!
