//! A polyphonic synthesizer's portable logic: music-domain values, MIDI
//! decoding, the embedded control panel, and the voice/envelope bookkeeping.
use vstd::prelude::*;

pub mod desktop;
pub mod engine;
pub mod midi;
pub mod music;
pub mod stm32;
pub mod synth;

verus! {
} // verus!
