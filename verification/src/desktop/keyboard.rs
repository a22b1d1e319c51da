//! The computer-keyboard piano layout: the home row plays the white keys
//! and the row above the black keys of the octave from C4.
use vstd::prelude::*;
use crate::music::event::NoteEvent;
use crate::music::note::{Note, midi_position};
use crate::music::pitch::Pitch;

verus! {

/// The physical keys that the layout uses; every other key is `Other`.
#[derive(Debug, Clone, Copy, PartialEq, Eq, Structural)]
pub enum KeyCode {
    KeyA,
    KeyW,
    KeyS,
    KeyE,
    KeyD,
    KeyF,
    KeyT,
    KeyG,
    KeyY,
    KeyH,
    KeyU,
    KeyJ,
    Digit1,
    Digit2,
    Digit3,
    Digit4,
    Digit5,
    Digit6,
    Digit7,
    Digit8,
    Digit9,
    Escape,
    Other,
}

/// The pitch class that a key plays in the fourth octave.
pub open spec fn key_pitch(key: KeyCode) -> Option<Pitch> {
    match key {
        KeyCode::KeyA => Some(Pitch::C),
        KeyCode::KeyW => Some(Pitch::CSharp),
        KeyCode::KeyS => Some(Pitch::D),
        KeyCode::KeyE => Some(Pitch::DSharp),
        KeyCode::KeyD => Some(Pitch::E),
        KeyCode::KeyF => Some(Pitch::F),
        KeyCode::KeyT => Some(Pitch::FSharp),
        KeyCode::KeyG => Some(Pitch::G),
        KeyCode::KeyY => Some(Pitch::GSharp),
        KeyCode::KeyH => Some(Pitch::A),
        KeyCode::KeyU => Some(Pitch::ASharp),
        KeyCode::KeyJ => Some(Pitch::B),
        _ => None,
    }
}

/// The note that a key plays.
pub open spec fn key_note(key: KeyCode) -> Option<Note> {
    match key_pitch(key) {
        Some(pitch) => Some(Note { pitch, octave: 4 }),
        None => None,
    }
}

fn note_for_key(key: KeyCode) -> (r: Option<Note>)
    ensures
        r == key_note(key),
{
    let pitch = match key {
        KeyCode::KeyA => Pitch::C,
        KeyCode::KeyW => Pitch::CSharp,
        KeyCode::KeyS => Pitch::D,
        KeyCode::KeyE => Pitch::DSharp,
        KeyCode::KeyD => Pitch::E,
        KeyCode::KeyF => Pitch::F,
        KeyCode::KeyT => Pitch::FSharp,
        KeyCode::KeyG => Pitch::G,
        KeyCode::KeyY => Pitch::GSharp,
        KeyCode::KeyH => Pitch::A,
        KeyCode::KeyU => Pitch::ASharp,
        KeyCode::KeyJ => Pitch::B,
        _ => return None,
    };
    Some(Note { pitch, octave: 4 })
}

/// The note-on that pressing a key sends, at velocity 100.
pub fn key_to_note(key: KeyCode) -> (r: Option<NoteEvent>)
    ensures
        r == match key_note(key) {
            Some(note) => Some(NoteEvent::NoteOn { note, velocity: 100 }),
            None => None,
        },
{
    match note_for_key(key) {
        Some(note) => Some(NoteEvent::NoteOn { note, velocity: 100 }),
        None => None,
    }
}

/// The note-off that releasing a key sends.
pub fn key_to_note_off(key: KeyCode) -> (r: Option<NoteEvent>)
    ensures
        r == match key_note(key) {
            Some(note) => Some(NoteEvent::NoteOff { note }),
            None => None,
        },
{
    match note_for_key(key) {
        Some(note) => Some(NoteEvent::NoteOff { note }),
        None => None,
    }
}

/// The twelve keys play the twelve notes from C4 (MIDI 60) to B4 (MIDI 71),
/// each key a different note.
pub proof fn lemma_layout_is_one_chromatic_octave(a: KeyCode, b: KeyCode)
    ensures
        key_note(a) matches Some(n) ==> 60 <= midi_position(n) <= 71,
        (key_note(a) matches Some(n) && key_note(b) matches Some(m) && n == m) ==> a == b,
        key_note(a) is None <==> (a == KeyCode::Other || a == KeyCode::Escape || key_instrument(a)
            is Some),
{
}

/// The instrument that a number key selects: keys 1 to 9 select the first
/// to the ninth instrument.
pub open spec fn key_instrument(key: KeyCode) -> Option<usize> {
    match key {
        KeyCode::Digit1 => Some(0),
        KeyCode::Digit2 => Some(1),
        KeyCode::Digit3 => Some(2),
        KeyCode::Digit4 => Some(3),
        KeyCode::Digit5 => Some(4),
        KeyCode::Digit6 => Some(5),
        KeyCode::Digit7 => Some(6),
        KeyCode::Digit8 => Some(7),
        KeyCode::Digit9 => Some(8),
        _ => None,
    }
}

/// The instrument index that a number key selects.
pub fn key_to_instrument(key: KeyCode) -> (r: Option<usize>)
    ensures
        r == key_instrument(key),
{
    match key {
        KeyCode::Digit1 => Some(0),
        KeyCode::Digit2 => Some(1),
        KeyCode::Digit3 => Some(2),
        KeyCode::Digit4 => Some(3),
        KeyCode::Digit5 => Some(4),
        KeyCode::Digit6 => Some(5),
        KeyCode::Digit7 => Some(6),
        KeyCode::Digit8 => Some(7),
        KeyCode::Digit9 => Some(8),
        _ => None,
    }
}

/// No key both plays a note and selects an instrument.
pub proof fn lemma_note_and_instrument_keys_are_disjoint(key: KeyCode)
    ensures
        !(key_note(key) is Some && key_instrument(key) is Some),
{
}

/// What a key event on the piano window asks for.
#[derive(Debug, Clone, Copy, PartialEq, Eq, Structural)]
pub enum KeyAction {
    /// Close the window and quit.
    Exit,
    /// Nothing to do.
    Ignore,
    /// Select the instrument at this index.
    SelectInstrument(usize),
    /// Send this note event to the synthesizer.
    Send(NoteEvent),
}

/// The instrument that a typed digit selects: '1' to '9' select the first
/// to the ninth instrument, whichever physical key typed them.
pub open spec fn character_instrument(c: char) -> Option<usize> {
    let u = c as u32;
    if 0x31 <= u <= 0x39 {
        Some((u - 0x31) as usize)
    } else {
        None
    }
}

/// The instrument index that a typed character selects.
pub fn character_to_instrument(c: char) -> (r: Option<usize>)
    ensures
        r == character_instrument(c),
{
    let u = c as u32;
    if 0x31 <= u && u <= 0x39 {
        Some((u - 0x31) as usize)
    } else {
        None
    }
}

/// The instrument that a pressed key selects: by its number key, or else by
/// the digit it types (`character`, when the key types one).
pub open spec fn pressed_instrument(key: KeyCode, character: Option<char>) -> Option<usize> {
    match key_instrument(key) {
        Some(index) => Some(index),
        None => match character {
            Some(c) => character_instrument(c),
            None => None,
        },
    }
}

/// The answer to a key event: pressing Escape quits; the operating system's
/// key repeats are ignored so that a held key keeps a single voice; a pressed
/// number key, or a pressed key that types a digit, selects an instrument; a
/// pressed or released piano key sends its note-on or note-off; any other
/// key does nothing.
pub open spec fn spec_key_action(
    key: KeyCode,
    character: Option<char>,
    pressed: bool,
    repeat: bool,
) -> KeyAction {
    if key == KeyCode::Escape && pressed {
        KeyAction::Exit
    } else if repeat {
        KeyAction::Ignore
    } else if pressed && pressed_instrument(key, character) is Some {
        KeyAction::SelectInstrument(pressed_instrument(key, character).unwrap())
    } else {
        match key_note(key) {
            Some(note) => if pressed {
                KeyAction::Send(NoteEvent::NoteOn { note, velocity: 100 })
            } else {
                KeyAction::Send(NoteEvent::NoteOff { note })
            },
            None => KeyAction::Ignore,
        }
    }
}

/// Decides what a key event on the piano window asks for; `character` is
/// what the key types, if it types one character.
pub fn key_action(key: KeyCode, character: Option<char>, pressed: bool, repeat: bool) -> (r:
    KeyAction)
    ensures
        r == spec_key_action(key, character, pressed, repeat),
{
    if key == KeyCode::Escape && pressed {
        return KeyAction::Exit;
    }
    if repeat {
        return KeyAction::Ignore;
    }
    if pressed {
        let index = match key_to_instrument(key) {
            Some(index) => Some(index),
            None => match character {
                Some(c) => character_to_instrument(c),
                None => None,
            },
        };
        if let Some(index) = index {
            return KeyAction::SelectInstrument(index);
        }
    }
    let event = if pressed {
        key_to_note(key)
    } else {
        key_to_note_off(key)
    };
    match event {
        Some(event) => KeyAction::Send(event),
        None => KeyAction::Ignore,
    }
}

/// A piano key pressed and then released sends a note-on and then the
/// note-off of the same note, so each key owns exactly one voice.
pub proof fn lemma_press_then_release_same_note(key: KeyCode)
    requires
        key_note(key) is Some,
    ensures
        spec_key_action(key, None, true, false) matches KeyAction::Send(NoteEvent::NoteOn { note: a, .. })
            && spec_key_action(key, None, false, false) matches KeyAction::Send(
            NoteEvent::NoteOff { note: b },
        ) && a == b,
{
}

} // verus!
