use vstd::prelude::*;

verus! {

/// Shapes of the low-frequency oscillator.
#[derive(Debug, Clone, Copy, PartialEq, Eq, Structural)]
pub enum LfoWaveform {
    Sine,
    Triangle,
}

} // verus!
