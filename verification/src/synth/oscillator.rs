use vstd::prelude::*;

verus! {

/// Available waveform shapes for the oscillator.
#[derive(Debug, Clone, Copy, PartialEq, Eq, Structural)]
pub enum Waveform {
    Sine,
    Square,
    Triangle,
    Sawtooth,
}

impl Waveform {
    /// The waveform's name as the user sees it.
    pub open spec fn spec_name(self) -> Seq<char> {
        match self {
            Waveform::Sine => "Sine"@,
            Waveform::Square => "Square"@,
            Waveform::Triangle => "Triangle"@,
            Waveform::Sawtooth => "Sawtooth"@,
        }
    }
}

} // verus!
