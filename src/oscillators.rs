use vstd::prelude::*;

use crate::text::{chars_of, spells};

verus! {

/// The wave-shape algorithms that an oscillator or an LFO can run.
#[derive(Debug, Clone, Copy, PartialEq, Eq, Structural)]
pub enum WaveShape {
    Noise,
    Pulse,
    Ramp,
    Saw,
    Sine,
    Square,
    SuperSaw,
    Triangle,
    FM,
    AM,
}

/// The wave shape that a name selects; a name that selects none falls back to `Sine`.
pub open spec fn wave_shape_of(name: Seq<char>) -> WaveShape {
    if name == "Noise"@ {
        WaveShape::Noise
    } else if name == "Pulse"@ {
        WaveShape::Pulse
    } else if name == "Ramp"@ {
        WaveShape::Ramp
    } else if name == "Saw"@ {
        WaveShape::Saw
    } else if name == "Square"@ {
        WaveShape::Square
    } else if name == "SuperSaw"@ {
        WaveShape::SuperSaw
    } else if name == "Triangle"@ {
        WaveShape::Triangle
    } else if name == "FM"@ {
        WaveShape::FM
    } else if name == "AM"@ {
        WaveShape::AM
    } else {
        WaveShape::Sine
    }
}

pub fn get_wave_shape_from_shape_name(wave_shape: &str) -> (r: WaveShape)
    ensures
        r == wave_shape_of(wave_shape@),
{
    let name = chars_of(wave_shape);
    if spells(&name, "Noise") {
        WaveShape::Noise
    } else if spells(&name, "Pulse") {
        WaveShape::Pulse
    } else if spells(&name, "Ramp") {
        WaveShape::Ramp
    } else if spells(&name, "Saw") {
        WaveShape::Saw
    } else if spells(&name, "Square") {
        WaveShape::Square
    } else if spells(&name, "SuperSaw") {
        WaveShape::SuperSaw
    } else if spells(&name, "Triangle") {
        WaveShape::Triangle
    } else if spells(&name, "FM") {
        WaveShape::FM
    } else if spells(&name, "AM") {
        WaveShape::AM
    } else {
        WaveShape::Sine
    }
}

/// The noise oscillator: it draws every sample at random and keeps no phase.
pub struct Noise {}

impl Noise {
    pub fn new() -> (r: Noise) {
        Noise {  }
    }
}

} // verus!
