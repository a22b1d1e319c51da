use vstd::prelude::*;
use crate::music::event::NoteEvent;
use crate::midi::{parse_message, spec_parse_message};

verus! {

/// The note event that a four-byte USB MIDI packet carries: code index
/// numbers 0x8 and 0x9 (low nibble of the header byte) are three-byte
/// note-off and note-on messages; every other packet carries no note event.
pub open spec fn packet_note_event(bytes: Seq<u8>) -> Option<NoteEvent> {
    let cin = bytes[0] & 0x0fu8;
    if cin == 0x08 || cin == 0x09 {
        spec_parse_message(bytes.subrange(1, 4))
    } else {
        None
    }
}

/// One USB MIDI 1.0 event packet.
#[derive(Debug, Clone, Copy, PartialEq, Eq)]
pub struct EventPacket([u8; 4]);

impl EventPacket {
    /// The four bytes of the packet.
    pub closed spec fn bytes(self) -> Seq<u8> {
        self.0@
    }

    /// The cable number: the high nibble of the header byte.
    pub open spec fn spec_cable_number(self) -> u8 {
        self.bytes()[0] >> 4u8
    }

    /// The code index number: the low nibble of the header byte.
    pub open spec fn spec_code_index_number(self) -> u8 {
        self.bytes()[0] & 0x0fu8
    }

    /// The note event that the packet carries.
    pub open spec fn spec_note_event(self) -> Option<NoteEvent> {
        packet_note_event(self.bytes())
    }

    pub fn new(bytes: [u8; 4]) -> (r: Self)
        ensures
            r.bytes() == bytes@,
            r.bytes().len() == 4,
    {
        Self(bytes)
    }

    pub fn cable_number(self) -> (r: u8)
        ensures
            r == self.spec_cable_number(),
            r < 16,
    {
        let header = self.0[0];
        assert(header >> 4u8 < 16) by (bit_vector);
        header >> 4
    }

    pub fn code_index_number(self) -> (r: u8)
        ensures
            r == self.spec_code_index_number(),
            r < 16,
    {
        let header = self.0[0];
        assert(header & 0x0fu8 < 16) by (bit_vector);
        header & 0x0f
    }

    /// Converts channel-voice USB packets into the engine's note events.
    pub fn note_event(self) -> (r: Option<NoteEvent>)
        ensures
            r == self.spec_note_event(),
    {
        let cin = self.code_index_number();
        if cin == 0x08 || cin == 0x09 {
            let message = [self.0[1], self.0[2], self.0[3]];
            assert(message@ =~= self.bytes().subrange(1, 4));
            parse_message(message.as_slice())
        } else {
            None
        }
    }
}

} // verus!
