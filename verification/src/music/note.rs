use vstd::prelude::*;
use crate::music::pitch::Pitch;

verus! {

/// A pitch class in a given octave; `A4` is concert A.
#[derive(Debug, Clone, Copy, PartialEq, Eq, Hash, Structural)]
pub struct Note {
    pub pitch: Pitch,
    pub octave: i8,
}

/// The MIDI number of a note, before it is narrowed to a byte:
/// octave -1 starts at 0 and each octave spans 12 semitones.
pub open spec fn midi_position(note: Note) -> int {
    (note.octave + 1) * 12 + note.pitch.spec_semitone()
}

/// The note that a MIDI number names.
pub open spec fn note_of_midi_number(midi_number: u8) -> Note {
    Note {
        pitch: Pitch::spec_from_semitone(midi_number % 12).unwrap(),
        octave: (midi_number / 12 - 1) as i8,
    }
}

/// Signed distance in semitones from concert A (A4); the frequency of a
/// note is 440 Hz times two to the power of this distance over 12.
pub open spec fn semitones_from_a4(note: Note) -> int {
    (note.octave - 4) * 12 + note.pitch.spec_semitone() - 9
}

impl Note {
    // The fourth-octave notes of the computer-keyboard layout; they are
    // functions because a constant may hold only literals.
    #[allow(non_snake_case)]
    pub fn C4() -> (r: Self)
        ensures
            r == (Note { pitch: Pitch::C, octave: 4 }),
    {
        Self { pitch: Pitch::C, octave: 4 }
    }
    #[allow(non_snake_case)]
    pub fn CSHARP4() -> (r: Self)
        ensures
            r == (Note { pitch: Pitch::CSharp, octave: 4 }),
    {
        Self { pitch: Pitch::CSharp, octave: 4 }
    }
    #[allow(non_snake_case)]
    pub fn D4() -> (r: Self)
        ensures
            r == (Note { pitch: Pitch::D, octave: 4 }),
    {
        Self { pitch: Pitch::D, octave: 4 }
    }
    #[allow(non_snake_case)]
    pub fn DSHARP4() -> (r: Self)
        ensures
            r == (Note { pitch: Pitch::DSharp, octave: 4 }),
    {
        Self { pitch: Pitch::DSharp, octave: 4 }
    }
    #[allow(non_snake_case)]
    pub fn E4() -> (r: Self)
        ensures
            r == (Note { pitch: Pitch::E, octave: 4 }),
    {
        Self { pitch: Pitch::E, octave: 4 }
    }
    #[allow(non_snake_case)]
    pub fn F4() -> (r: Self)
        ensures
            r == (Note { pitch: Pitch::F, octave: 4 }),
    {
        Self { pitch: Pitch::F, octave: 4 }
    }
    #[allow(non_snake_case)]
    pub fn FSHARP4() -> (r: Self)
        ensures
            r == (Note { pitch: Pitch::FSharp, octave: 4 }),
    {
        Self { pitch: Pitch::FSharp, octave: 4 }
    }
    #[allow(non_snake_case)]
    pub fn G4() -> (r: Self)
        ensures
            r == (Note { pitch: Pitch::G, octave: 4 }),
    {
        Self { pitch: Pitch::G, octave: 4 }
    }
    #[allow(non_snake_case)]
    pub fn GSHARP4() -> (r: Self)
        ensures
            r == (Note { pitch: Pitch::GSharp, octave: 4 }),
    {
        Self { pitch: Pitch::GSharp, octave: 4 }
    }
    #[allow(non_snake_case)]
    pub fn A4() -> (r: Self)
        ensures
            r == (Note { pitch: Pitch::A, octave: 4 }),
    {
        Self { pitch: Pitch::A, octave: 4 }
    }
    #[allow(non_snake_case)]
    pub fn ASHARP4() -> (r: Self)
        ensures
            r == (Note { pitch: Pitch::ASharp, octave: 4 }),
    {
        Self { pitch: Pitch::ASharp, octave: 4 }
    }
    #[allow(non_snake_case)]
    pub fn B4() -> (r: Self)
        ensures
            r == (Note { pitch: Pitch::B, octave: 4 }),
    {
        Self { pitch: Pitch::B, octave: 4 }
    }

    /// The signed distance in semitones from A4, the exponent of the note's
    /// equal-temperament frequency.
    pub fn semitone_offset_from_a4(&self) -> (r: i32)
        ensures
            r == semitones_from_a4(*self),
    {
        let semitone = self.pitch.semitone();
        (self.octave as i32 - 4) * 12 + semitone as i32 - 9
    }

    /// The MIDI note number, wrapped to a byte as the `as u8` cast does for
    /// notes outside MIDI's octaves.
    pub fn midi_number(&self) -> (r: u8)
        ensures
            r == midi_position(*self) as u8,
            0 <= midi_position(*self) < 256 ==> r == midi_position(*self),
    {
        let semitone = self.pitch.semitone();
        ((self.octave as i32 + 1) * 12 + semitone as i32) as u8
    }

    pub fn from_midi_number(midi_number: u8) -> (r: Self)
        ensures
            r == note_of_midi_number(midi_number),
            midi_position(r) == midi_number,
    {
        let octave: i32 = (midi_number as i32 / 12) - 1;
        let semitone: u8 = midi_number % 12;
        let pitch = match Pitch::from_semitone(semitone) {
            Some(pitch) => pitch,
            None => Pitch::C,
        };
        proof {
            assert(semitone < 12);
        }
        Self { pitch, octave: octave as i8 }
    }
}

/// The semitone distance from A4 and the MIDI number differ by 69 for every
/// note: raising a note by a semitone raises both by one.
pub proof fn lemma_offset_matches_midi_position(note: Note)
    ensures
        semitones_from_a4(note) == midi_position(note) - 69,
{
}

/// Decoding a MIDI number and encoding the note again gives the number back.
pub proof fn lemma_midi_number_round_trip(midi_number: u8)
    ensures
        midi_position(note_of_midi_number(midi_number)) == midi_number,
{
    assert(midi_number % 12 < 12);
}

/// A note whose MIDI number fits in a byte is recovered from that number.
pub proof fn lemma_note_round_trip(note: Note)
    requires
        0 <= midi_position(note) < 256,
    ensures
        note_of_midi_number(midi_position(note) as u8) == note,
{
    let m = midi_position(note) as u8;
    let s = note.pitch.spec_semitone();
    assert(m as int == (note.octave + 1) * 12 + s);
    assert(m % 12 == s) by (nonlinear_arith)
        requires
            m as int == (note.octave + 1) * 12 + s,
            0 <= s < 12,
            0 <= m,
    ;
    assert(m / 12 == note.octave + 1) by (nonlinear_arith)
        requires
            m as int == (note.octave + 1) * 12 + s,
            0 <= s < 12,
            0 <= m,
    ;
    crate::music::pitch::lemma_pitch_semitone_round_trip(note.pitch);
}

} // verus!
