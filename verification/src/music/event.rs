use vstd::prelude::*;
use crate::music::note::Note;

verus! {

/// Platform-independent performance events understood by the engine.
#[allow(inconsistent_fields)]
#[derive(Debug, Clone, Copy, PartialEq, Eq, Hash, Structural)]
pub enum NoteEvent {
    /// A key/note was pressed
    NoteOn { note: Note, velocity: u8 },
    /// A key/note was released
    NoteOff { note: Note },
    /// Sustain pedal state changed
    Sustain { pressed: bool },
    /// Change pitch continuously (MIDI pitch bend)
    PitchBend { value: i16 },
    /// Change a controller value
    ControlChange { controller: u8, value: u8 },
    /// Change the currently selected instrument/preset
    ProgramChange { program: u8 },
    /// Change the volume/expression level
    Expression { value: u8 },
    /// Change the octave offset of a keyboard layout
    OctaveShift { offset: i8 },
    /// All currently sounding notes should stop
    AllNotesOff,
}

} // verus!
