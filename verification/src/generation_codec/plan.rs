//! The stored form of a generation plan's context, seed mode and output mode.

use vstd::prelude::*;

use crate::decode::db_result_matches;
use crate::domain::generation::{GenerationOutputMode, GenerationPlanContext, SeedMode};
use crate::error::{decode_message, DatabaseResult};
use crate::generation_codec::scalars::{stream_mode_as_str, stream_mode_from_str, stream_mode_parse, stream_mode_text};

verus! {

/// Stored form of a [`GenerationPlanContext`].
#[derive(Copy, Clone, Debug)]
pub struct GenerationPlanContextDto {
    pub request_count: u32,
    pub pending_vibe_encode_count: u32,
    pub tier: i32,
    pub subscription_active: bool,
    pub v5_usage_is_negative: bool,
}

impl GenerationPlanContextDto {
    /// The context `self` holds.
    pub open spec fn spec_decode(self) -> GenerationPlanContext {
        GenerationPlanContext {
            request_count: self.request_count,
            pending_vibe_encode_count: self.pending_vibe_encode_count,
            tier: self.tier,
            subscription_active: self.subscription_active,
            v5_usage_is_negative: self.v5_usage_is_negative,
        }
    }

    /// The stored form of `value`.
    pub fn from_domain(value: &GenerationPlanContext) -> (dto: Self)
        ensures
            dto.spec_decode() == *value,
    {
        GenerationPlanContextDto {
            request_count: value.request_count,
            pending_vibe_encode_count: value.pending_vibe_encode_count,
            tier: value.tier,
            subscription_active: value.subscription_active,
            v5_usage_is_negative: value.v5_usage_is_negative,
        }
    }

    /// The context `self` holds.
    pub fn into_domain(self) -> (value: GenerationPlanContext)
        ensures
            value == self.spec_decode(),
    {
        GenerationPlanContext {
            request_count: self.request_count,
            pending_vibe_encode_count: self.pending_vibe_encode_count,
            tier: self.tier,
            subscription_active: self.subscription_active,
            v5_usage_is_negative: self.v5_usage_is_negative,
        }
    }
}

/// Stored form of a [`SeedMode`].
#[derive(Copy, Clone, Debug, PartialEq, Eq, Structural)]
pub enum SeedModeDto {
    Auto,
    Fixed(i64),
}

impl SeedModeDto {
    /// The seed mode `self` holds.
    pub open spec fn spec_decode(self) -> SeedMode {
        match self {
            SeedModeDto::Auto => SeedMode::Auto,
            SeedModeDto::Fixed(seed) => SeedMode::Fixed(seed),
        }
    }

    /// The stored form of `value`.
    pub fn from_domain(value: SeedMode) -> (dto: Self)
        ensures
            dto.spec_decode() == value,
    {
        match value {
            SeedMode::Auto => SeedModeDto::Auto,
            SeedMode::Fixed(seed) => SeedModeDto::Fixed(seed),
        }
    }

    /// The seed mode `self` holds.
    pub fn into_domain(self) -> (value: SeedMode)
        ensures
            value == self.spec_decode(),
    {
        match self {
            SeedModeDto::Auto => SeedMode::Auto,
            SeedModeDto::Fixed(seed) => SeedMode::Fixed(seed),
        }
    }
}

/// Stored form of a [`GenerationOutputMode`].
#[derive(Clone, Debug)]
pub enum GenerationOutputModeDto {
    Image,
    Stream(String),
}

impl GenerationOutputModeDto {
    /// `self` stores exactly `value`.
    pub open spec fn encodes(self, value: GenerationOutputMode) -> bool {
        match value {
            GenerationOutputMode::Image => self is Image,
            GenerationOutputMode::Stream(mode) => self matches GenerationOutputModeDto::Stream(text)
                && text@ == stream_mode_text(mode),
        }
    }

    /// The output mode `self` holds, or the message naming its unknown
    /// stream mode.
    pub open spec fn spec_decode(self) -> Result<GenerationOutputMode, Seq<char>> {
        match self {
            GenerationOutputModeDto::Image => Ok(GenerationOutputMode::Image),
            GenerationOutputModeDto::Stream(text) => match stream_mode_parse(text@) {
                Some(mode) => Ok(GenerationOutputMode::Stream(mode)),
                None => Err(decode_message("stream mode"@, text@)),
            },
        }
    }

    /// The stored form of `value`.
    pub fn from_domain(value: GenerationOutputMode) -> (dto: Self)
        ensures
            dto.encodes(value),
    {
        match value {
            GenerationOutputMode::Image => GenerationOutputModeDto::Image,
            GenerationOutputMode::Stream(mode) => GenerationOutputModeDto::Stream(stream_mode_as_str(mode).to_owned()),
        }
    }

    /// The output mode `self` holds.
    pub fn into_domain(self) -> (result: DatabaseResult<GenerationOutputMode>)
        ensures
            db_result_matches(result, self.spec_decode()),
    {
        match self {
            GenerationOutputModeDto::Image => Ok(GenerationOutputMode::Image),
            GenerationOutputModeDto::Stream(text) => Ok(GenerationOutputMode::Stream(stream_mode_from_str(text.as_str())?)),
        }
    }
}

/// Decoding a stored output mode gives back the mode that was stored.
pub proof fn lemma_output_mode_round_trip(dto: GenerationOutputModeDto, value: GenerationOutputMode)
    requires
        dto.encodes(value),
    ensures
        dto.spec_decode() == Ok::<GenerationOutputMode, Seq<char>>(value),
{
    if let GenerationOutputMode::Stream(mode) = value {
        crate::generation_codec::scalars::lemma_stream_mode_round_trip(mode, dto->Stream_0@);
    }
}

} // verus!
