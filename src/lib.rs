//! The logic of a monophonic software synthesizer, verified: the envelope and gate state
//! machines, the arpeggiator, MIDI message handling, the dB-domain dynamics decisions, the
//! phaser's delay line and the note transport that ties them together.

use vstd::prelude::*;

pub mod arpeggiator;
pub mod channels;
pub mod devices;
pub mod dynamics;
pub mod effects;
pub mod envelope;
pub mod filter;
pub mod midi;
pub mod oscillators;
pub mod saturation;
pub mod text;
pub mod timing;
pub mod transport;
