//! The choices that a preset file offers for waveforms and filter modes.
use vstd::prelude::*;
use crate::synth::filter::FilterMode;
use crate::synth::oscillator::Waveform;

verus! {

/// Waveform names as preset files spell them.
#[derive(Debug, Clone, Copy, PartialEq, Eq, Structural)]
pub enum WaveformPreset {
    Sine,
    Square,
    Triangle,
    Sawtooth,
}

impl WaveformPreset {
    /// The label shown to the user.
    pub open spec fn spec_label(self) -> Seq<char> {
        match self {
            WaveformPreset::Sine => "Sine"@,
            WaveformPreset::Square => "Square"@,
            WaveformPreset::Triangle => "Triangle"@,
            WaveformPreset::Sawtooth => "Sawtooth"@,
        }
    }

    /// The synthesizer waveform of the same name.
    pub open spec fn spec_into_domain(self) -> Waveform {
        match self {
            WaveformPreset::Sine => Waveform::Sine,
            WaveformPreset::Square => Waveform::Square,
            WaveformPreset::Triangle => Waveform::Triangle,
            WaveformPreset::Sawtooth => Waveform::Sawtooth,
        }
    }

    /// Every choice, in the order they are offered.
    pub fn all() -> (r: [Self; 4])
        ensures
            r@ == seq![
                WaveformPreset::Sine,
                WaveformPreset::Square,
                WaveformPreset::Triangle,
                WaveformPreset::Sawtooth,
            ],
    {
        let r = [Self::Sine, Self::Square, Self::Triangle, Self::Sawtooth];
        assert(r@ =~= seq![
            WaveformPreset::Sine,
            WaveformPreset::Square,
            WaveformPreset::Triangle,
            WaveformPreset::Sawtooth,
        ]);
        r
    }

    pub fn label(self) -> (r: &'static str)
        ensures
            r@ == self.spec_label(),
    {
        match self {
            Self::Sine => "Sine",
            Self::Square => "Square",
            Self::Triangle => "Triangle",
            Self::Sawtooth => "Sawtooth",
        }
    }

    pub fn into_domain(self) -> (r: Waveform)
        ensures
            r == self.spec_into_domain(),
    {
        match self {
            Self::Sine => Waveform::Sine,
            Self::Square => Waveform::Square,
            Self::Triangle => Waveform::Triangle,
            Self::Sawtooth => Waveform::Sawtooth,
        }
    }
}

/// Filter mode names as preset files spell them.
#[derive(Debug, Clone, Copy, PartialEq, Eq, Structural)]
pub enum FilterModePreset {
    LowPass,
    BandPass,
    HighPass,
}

impl FilterModePreset {
    /// The label shown to the user.
    pub open spec fn spec_label(self) -> Seq<char> {
        match self {
            FilterModePreset::LowPass => "Low-pass"@,
            FilterModePreset::BandPass => "Band-pass"@,
            FilterModePreset::HighPass => "High-pass"@,
        }
    }

    /// The synthesizer filter mode of the same name.
    pub open spec fn spec_into_domain(self) -> FilterMode {
        match self {
            FilterModePreset::LowPass => FilterMode::LowPass,
            FilterModePreset::BandPass => FilterMode::BandPass,
            FilterModePreset::HighPass => FilterMode::HighPass,
        }
    }

    /// Every choice, in the order they are offered.
    pub fn all() -> (r: [Self; 3])
        ensures
            r@ == seq![
                FilterModePreset::LowPass,
                FilterModePreset::BandPass,
                FilterModePreset::HighPass,
            ],
    {
        let r = [Self::LowPass, Self::BandPass, Self::HighPass];
        assert(r@ =~= seq![
            FilterModePreset::LowPass,
            FilterModePreset::BandPass,
            FilterModePreset::HighPass,
        ]);
        r
    }

    pub fn label(self) -> (r: &'static str)
        ensures
            r@ == self.spec_label(),
    {
        match self {
            Self::LowPass => "Low-pass",
            Self::BandPass => "Band-pass",
            Self::HighPass => "High-pass",
        }
    }

    pub fn into_domain(self) -> (r: FilterMode)
        ensures
            r == self.spec_into_domain(),
    {
        match self {
            Self::LowPass => FilterMode::LowPass,
            Self::BandPass => FilterMode::BandPass,
            Self::HighPass => FilterMode::HighPass,
        }
    }
}

/// A preset choice becomes the synthesizer waveform or filter response of
/// the same name: the label that the user picks names what is played.
pub proof fn lemma_preset_label_names_its_domain(w: WaveformPreset, m: FilterModePreset)
    ensures
        w.spec_label() == w.spec_into_domain().spec_name(),
        m.spec_label() == m.spec_into_domain().spec_name(),
{
}

/// Each preset waveform names a different synthesizer waveform, and every
/// synthesizer waveform has a preset name.
pub proof fn lemma_waveform_presets_match_domain(a: WaveformPreset, b: WaveformPreset, w: Waveform)
    ensures
        a.spec_into_domain() == b.spec_into_domain() ==> a == b,
        exists|p: WaveformPreset| #[trigger] p.spec_into_domain() == w,
{
    match w {
        Waveform::Sine => assert(WaveformPreset::Sine.spec_into_domain() == w),
        Waveform::Square => assert(WaveformPreset::Square.spec_into_domain() == w),
        Waveform::Triangle => assert(WaveformPreset::Triangle.spec_into_domain() == w),
        Waveform::Sawtooth => assert(WaveformPreset::Sawtooth.spec_into_domain() == w),
    }
}

/// Each preset filter mode names a different synthesizer filter mode, and
/// every synthesizer filter mode has a preset name.
pub proof fn lemma_filter_presets_match_domain(a: FilterModePreset, b: FilterModePreset, m: FilterMode)
    ensures
        a.spec_into_domain() == b.spec_into_domain() ==> a == b,
        exists|p: FilterModePreset| #[trigger] p.spec_into_domain() == m,
{
    match m {
        FilterMode::LowPass => assert(FilterModePreset::LowPass.spec_into_domain() == m),
        FilterMode::BandPass => assert(FilterModePreset::BandPass.spec_into_domain() == m),
        FilterMode::HighPass => assert(FilterModePreset::HighPass.spec_into_domain() == m),
    }
}

/// Whether `char::is_whitespace` accepts a character: the characters with
/// Unicode's White_Space property.
pub open spec fn is_white_space(c: char) -> bool {
    let u = c as u32;
    ||| 0x09 <= u <= 0x0d
    ||| u == 0x20
    ||| u == 0x85
    ||| u == 0xa0
    ||| u == 0x1680
    ||| 0x2000 <= u <= 0x200a
    ||| u == 0x2028
    ||| u == 0x2029
    ||| u == 0x202f
    ||| u == 0x205f
    ||| u == 0x3000
}

/// A name is blank when nothing is left of it once white space is trimmed:
/// every character is white space (an empty name is blank too).
pub open spec fn is_blank(name: Seq<char>) -> bool {
    forall|i: int| 0 <= i < name.len() ==> is_white_space(#[trigger] name[i])
}

fn white_space(c: char) -> (r: bool)
    ensures
        r == is_white_space(c),
{
    let u = c as u32;
    (0x09 <= u && u <= 0x0d) || u == 0x20 || u == 0x85 || u == 0xa0 || u == 0x1680 || (0x2000
        <= u && u <= 0x200a) || u == 0x2028 || u == 0x2029 || u == 0x202f || u == 0x205f || u
        == 0x3000
}

/// Whether a preset name is blank.
pub fn name_is_blank(name: &str) -> (r: bool)
    ensures
        r == is_blank(name@),
{
    broadcast use vstd::string::axiom_spec_iter;

    let mut blank = true;
    for c in it: name.chars()
        invariant
            it.seq() == name@,
            blank == (forall|i: int| 0 <= i < it.index() ==> is_white_space(#[trigger] it.seq()[i])),
    {
        if !white_space(c) {
            blank = false;
        }
    }
    blank
}

/// Why a preset cannot become an instrument, before its numbers are read.
#[derive(Debug, Clone, Copy, PartialEq, Eq, Structural)]
pub enum PresetShapeError {
    /// The name is blank.
    EmptyName,
    /// The preset has no oscillator.
    NoOscillator,
}

/// The checks that come first when a preset becomes an instrument: its name
/// must not be blank, then it needs at least one oscillator.
pub open spec fn spec_check_preset_shape(name: Seq<char>, oscillator_count: usize) -> Result<
    (),
    PresetShapeError,
> {
    if is_blank(name) {
        Err(PresetShapeError::EmptyName)
    } else if oscillator_count == 0 {
        Err(PresetShapeError::NoOscillator)
    } else {
        Ok(())
    }
}

/// Checks a preset's name and oscillator count.
pub fn check_preset_shape(name: &str, oscillator_count: usize) -> (r: Result<(), PresetShapeError>)
    ensures
        r == spec_check_preset_shape(name@, oscillator_count),
{
    if name_is_blank(name) {
        Err(PresetShapeError::EmptyName)
    } else if oscillator_count == 0 {
        Err(PresetShapeError::NoOscillator)
    } else {
        Ok(())
    }
}

} // verus!
