//! Safety assessment vocabulary.

use vstd::prelude::*;

verus! {

/// The label a safety assessment assigns.
#[derive(Copy, Clone, Debug, PartialEq, Eq, Structural)]
pub enum SafetyLabel {
    Safe,
    Sensitive,
    Hidden,
}

/// How risky an image was judged.
#[derive(Copy, Clone, Debug, PartialEq, Eq, Structural)]
pub enum SafetyRiskBand {
    Low,
    Medium,
    High,
}

/// The image analysis model that produced an assessment.
#[derive(Copy, Clone, Debug, PartialEq, Eq, Structural)]
pub enum ImageAnalysisModelId {
    AnimeDbRating,
    WdSwinv2TaggerV3,
}


} // verus!
