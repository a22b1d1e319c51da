use openrsynth::midi::parse_message;
use openrsynth::midi::usb::EventPacket;
use openrsynth::music::event::NoteEvent;
use openrsynth::music::note::Note;

#[test]
fn parses_note_on_on_any_channel() {
    assert_eq!(
        parse_message(&[0x92, 69, 100]),
        Some(NoteEvent::NoteOn {
            note: Note::A4(),
            velocity: 100,
        })
    );
}

#[test]
fn parses_note_off() {
    assert_eq!(
        parse_message(&[0x80, 60, 64]),
        Some(NoteEvent::NoteOff { note: Note::C4() })
    );
}

#[test]
fn treats_zero_velocity_note_on_as_note_off() {
    assert_eq!(
        parse_message(&[0x90, 60, 0]),
        Some(NoteEvent::NoteOff { note: Note::C4() })
    );
}

#[test]
fn ignores_unsupported_and_incomplete_messages() {
    assert_eq!(parse_message(&[0xB0, 64, 127]), None);
    assert_eq!(parse_message(&[0x90, 60]), None);
    assert_eq!(parse_message(&[]), None);
}

#[test]
fn decodes_usb_note_on() {
    let packet = EventPacket::new([0x19, 0x90, 69, 100]);
    assert_eq!(packet.cable_number(), 1);
    assert_eq!(
        packet.note_event(),
        Some(NoteEvent::NoteOn {
            note: Note::A4(),
            velocity: 100
        })
    );
}

#[test]
fn decodes_zero_velocity_as_note_off() {
    let packet = EventPacket::new([0x09, 0x90, 60, 0]);
    assert_eq!(
        packet.note_event(),
        Some(NoteEvent::NoteOff { note: Note::C4() })
    );
}

#[test]
fn ignores_non_note_packets() {
    assert_eq!(EventPacket::new([0x0b, 0xb0, 1, 127]).note_event(), None);
}

#[test]
fn channel_nibble_does_not_change_the_event() {
    for channel in 0u8..16 {
        assert_eq!(
            parse_message(&[0x90 | channel, 64, 90]),
            Some(NoteEvent::NoteOn {
                note: Note::from_midi_number(64),
                velocity: 90,
            })
        );
        assert_eq!(
            parse_message(&[0x80 | channel, 64, 90]),
            Some(NoteEvent::NoteOff {
                note: Note::from_midi_number(64),
            })
        );
    }
}

#[test]
fn status_bytes_below_0x80_are_not_messages() {
    assert_eq!(parse_message(&[0x7f, 60, 100]), None);
    assert_eq!(parse_message(&[0x10, 60, 100]), None);
}

#[test]
fn trailing_bytes_are_ignored() {
    assert_eq!(
        parse_message(&[0x91, 62, 5, 0xff, 0x00]),
        Some(NoteEvent::NoteOn {
            note: Note::D4(),
            velocity: 5,
        })
    );
}

#[test]
fn zero_velocity_note_on_releases_like_note_off() {
    assert_eq!(parse_message(&[0x93, 70, 0]), parse_message(&[0x83, 70, 33]));
}

#[test]
fn usb_packet_fields_split_the_header_byte() {
    let packet = EventPacket::new([0xa8, 0x80, 61, 0]);
    assert_eq!(packet.cable_number(), 0x0a);
    assert_eq!(packet.code_index_number(), 0x08);
    assert_eq!(
        packet.note_event(),
        Some(NoteEvent::NoteOff {
            note: Note::CSHARP4()
        })
    );
}
