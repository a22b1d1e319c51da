//! USB MIDI input on the board.
use vstd::prelude::*;
use crate::midi::usb::{EventPacket, packet_note_event};
use crate::music::event::NoteEvent;

verus! {

/// Minimal boundary implemented by the concrete USB device endpoint.
///
/// Keeping the USB peripheral driver behind this trait lets the MIDI/event
/// layer run independently of interrupt and endpoint ownership choices.
pub trait UsbMidiEndpoint {
    type Error;

    /// Reads one four-byte USB MIDI 1.0 event packet without blocking.
    /// `Ok(false)` means that no packet is currently available.
    fn read_event_packet(&mut self, packet: &mut [u8; 4]) -> Result<bool, Self::Error>;
}

/// What the endpoint answered when it was last asked for a packet.
pub enum EndpointRead {
    /// The read failed.
    Failed,
    /// No packet was available.
    Empty,
    /// These four bytes were read.
    Packet(Seq<u8>),
}

pub struct UsbMidiInput<E> {
    endpoint: E,
    reads: Ghost<Seq<(Seq<u8>, EndpointRead)>>,
}

impl<E: UsbMidiEndpoint> UsbMidiInput<E> {
    pub closed spec fn endpoint(&self) -> E {
        self.endpoint
    }

    /// The reads of the endpoint, oldest first: the buffer handed to it and
    /// what it answered.
    pub closed spec fn reads(&self) -> Seq<(Seq<u8>, EndpointRead)> {
        self.reads@
    }

    pub fn new(endpoint: E) -> (r: Self)
        ensures
            r.endpoint() == endpoint,
            r.reads() == Seq::<(Seq<u8>, EndpointRead)>::empty(),
    {
        Self { endpoint, reads: Ghost(Seq::empty()) }
    }

    /// Polls USB once and returns a note event when the packet contains one.
    ///
    /// The endpoint is read exactly once, into a zeroed buffer. A failed
    /// read is returned as the endpoint's error; no packet gives `Ok(None)`;
    /// a packet gives the note event it carries, if any (see
    /// `EventPacket::note_event`).
    pub fn poll(&mut self) -> (r: Result<Option<NoteEvent>, E::Error>)
        ensures
            final(self).reads().len() == old(self).reads().len() + 1,
            final(self).reads().drop_last() == old(self).reads(),
            final(self).reads().last().0 == seq![0u8, 0u8, 0u8, 0u8],
            match final(self).reads().last().1 {
                EndpointRead::Failed => r is Err,
                EndpointRead::Empty => r == Ok::<Option<NoteEvent>, E::Error>(None),
                EndpointRead::Packet(bytes) => bytes.len() == 4 && r == Ok::<
                    Option<NoteEvent>,
                    E::Error,
                >(packet_note_event(bytes)),
            },
    {
        let mut bytes: [u8; 4] = [0; 4];
        let ghost handed = bytes@;
        assert(handed =~= seq![0u8, 0u8, 0u8, 0u8]);
        let answer = self.endpoint.read_event_packet(&mut bytes);
        let available = match answer {
            Ok(available) => available,
            Err(error) => {
                self.reads = Ghost(self.reads@.push((handed, EndpointRead::Failed)));
                return Err(error);
            },
        };
        if !available {
            self.reads = Ghost(self.reads@.push((handed, EndpointRead::Empty)));
            return Ok(None);
        }
        self.reads = Ghost(self.reads@.push((handed, EndpointRead::Packet(bytes@))));
        let event = EventPacket::new(bytes).note_event();
        Ok(event)
    }

    pub fn into_inner(self) -> (r: E)
        ensures
            r == self.endpoint(),
    {
        self.endpoint
    }
}

} // verus!
