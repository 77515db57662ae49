use vstd::prelude::*;

use crate::text::{chars_of, spells};

verus! {

/// The saturation curves of the global wave shaper.
#[derive(Debug, Copy, Clone, PartialEq, Eq, Structural)]
pub enum SaturationMode {
    AnalogModeled,
    TubeLike,
    SoftClipping,
    WaveShaping,
    SineShaper,
    Polynomial,
}

/// The saturation mode that a name selects; a name that selects none falls back to
/// `AnalogModeled`.
pub open spec fn saturation_mode_of(name: Seq<char>) -> SaturationMode {
    if name == "Tube Like"@ {
        SaturationMode::TubeLike
    } else if name == "Soft Clipping"@ {
        SaturationMode::SoftClipping
    } else if name == "Wave Shaping"@ {
        SaturationMode::WaveShaping
    } else if name == "Sine Shaper"@ {
        SaturationMode::SineShaper
    } else if name == "Polynomial"@ {
        SaturationMode::Polynomial
    } else {
        SaturationMode::AnalogModeled
    }
}

pub fn get_saturation_mode_from_mode_name(mode_name: &str) -> (r: SaturationMode)
    ensures
        r == saturation_mode_of(mode_name@),
{
    let name = chars_of(mode_name);
    if spells(&name, "Tube Like") {
        SaturationMode::TubeLike
    } else if spells(&name, "Soft Clipping") {
        SaturationMode::SoftClipping
    } else if spells(&name, "Wave Shaping") {
        SaturationMode::WaveShaping
    } else if spells(&name, "Sine Shaper") {
        SaturationMode::SineShaper
    } else if spells(&name, "Polynomial") {
        SaturationMode::Polynomial
    } else {
        SaturationMode::AnalogModeled
    }
}

} // verus!
