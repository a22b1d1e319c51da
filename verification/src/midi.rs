//! Raw MIDI and USB-MIDI decoding into note events.
//!
//! MIDI channel information is intentionally ignored: the engine treats every
//! input as a single instrument.
use vstd::prelude::*;
use crate::music::event::NoteEvent;
use crate::music::note::{Note, note_of_midi_number};

pub mod usb;

verus! {

/// The note event that a raw MIDI message stands for, if any: a status byte
/// (at least 0x80) and two data bytes are needed; bytes after the third are
/// ignored. Note-off (0x8n) and note-on (0x9n) on any channel `n` are
/// understood, and a note-on of velocity zero is a note-off.
pub open spec fn spec_parse_message(message: Seq<u8>) -> Option<NoteEvent> {
    if message.len() < 3 || message[0] < 0x80 {
        None
    } else {
        let note = note_of_midi_number(message[1]);
        let velocity = message[2];
        let kind = message[0] & 0xF0u8;
        if kind == 0x80 {
            Some(NoteEvent::NoteOff { note })
        } else if kind == 0x90 && velocity == 0 {
            Some(NoteEvent::NoteOff { note })
        } else if kind == 0x90 {
            Some(NoteEvent::NoteOn { note, velocity })
        } else {
            None
        }
    }
}

/// Converts a raw MIDI message into an event understood by the engine.
pub fn parse_message(message: &[u8]) -> (r: Option<NoteEvent>)
    ensures
        r == spec_parse_message(message@),
{
    if message.len() < 3 {
        return None;
    }
    let status = message[0];
    if status < 0x80 {
        return None;
    }
    let note = Note::from_midi_number(message[1]);
    let velocity = message[2];
    let kind = status & 0xF0;
    if kind == 0x80 {
        Some(NoteEvent::NoteOff { note })
    } else if kind == 0x90 && velocity == 0 {
        Some(NoteEvent::NoteOff { note })
    } else if kind == 0x90 {
        Some(NoteEvent::NoteOn { note, velocity })
    } else {
        None
    }
}

/// The channel in the low four bits of the status byte does not change what
/// a message means.
pub proof fn lemma_channel_is_ignored(status: u8, channel: u8, data1: u8, data2: u8)
    requires
        channel < 16,
    ensures
        spec_parse_message(seq![(status & 0xF0u8) | channel, data1, data2])
            == spec_parse_message(seq![status, data1, data2]),
{
    let s2 = (status & 0xF0u8) | channel;
    assert(s2 & 0xF0u8 == status & 0xF0u8) by (bit_vector)
        requires
            s2 == (status & 0xF0u8) | channel,
            channel < 16,
    ;
    assert((s2 < 0x80) == (status < 0x80)) by (bit_vector)
        requires
            s2 == (status & 0xF0u8) | channel,
            channel < 16,
    ;
}

/// A note-on whose velocity is zero releases the same note that a note-off
/// would release.
pub proof fn lemma_silent_note_on_is_note_off(channel: u8, midi_number: u8, release_velocity: u8)
    requires
        channel < 16,
    ensures
        spec_parse_message(seq![0x90u8 | channel, midi_number, 0u8])
            == spec_parse_message(seq![0x80u8 | channel, midi_number, release_velocity]),
{
    assert((0x90u8 | channel) & 0xF0u8 == 0x90u8 && (0x80u8 | channel) & 0xF0u8 == 0x80u8
        && 0x90u8 | channel >= 0x80 && 0x80u8 | channel >= 0x80) by (bit_vector)
        requires
            channel < 16,
    ;
}

/// Bytes after the third never change what a message means.
pub proof fn lemma_trailing_bytes_are_ignored(message: Seq<u8>)
    requires
        message.len() >= 3,
    ensures
        spec_parse_message(message) == spec_parse_message(message.take(3)),
{
}

} // verus!
