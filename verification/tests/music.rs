use openrsynth::music::event::NoteEvent;
use openrsynth::music::note::Note;
use openrsynth::music::pitch::Pitch;

#[test]
fn creates_and_displays_note_event() {
    let event = NoteEvent::NoteOn {
        note: Note::A4(),
        velocity: 100,
    };

    assert!(matches!(event, NoteEvent::NoteOn { .. }));
}

#[test]
fn semitones_round_trip_through_pitches() {
    for semitone in 0u8..12 {
        let pitch = Pitch::from_semitone(semitone).unwrap();
        assert_eq!(pitch.semitone(), semitone);
    }
    assert_eq!(Pitch::from_semitone(12), None);
    assert_eq!(Pitch::from_semitone(255), None);
    assert_eq!(Pitch::from_semitone(9), Some(Pitch::A));
}

#[test]
fn midi_numbers_round_trip_through_notes() {
    for number in 0u8..=255 {
        assert_eq!(Note::from_midi_number(number).midi_number(), number);
    }
}

#[test]
fn concert_a_is_midi_69_and_middle_c_is_60() {
    assert_eq!(Note::A4().midi_number(), 69);
    assert_eq!(Note::C4().midi_number(), 60);
    assert_eq!(Note::B4().midi_number(), 71);
    assert_eq!(
        Note::from_midi_number(0),
        Note {
            pitch: Pitch::C,
            octave: -1
        }
    );
    assert_eq!(
        Note::from_midi_number(127),
        Note {
            pitch: Pitch::G,
            octave: 9
        }
    );
}

#[test]
fn notes_outside_midi_wrap_to_a_byte() {
    let high = Note {
        pitch: Pitch::C,
        octave: 21,
    };
    assert_eq!(high.midi_number(), ((22 * 12) % 256) as u8);
    let low = Note {
        pitch: Pitch::C,
        octave: -2,
    };
    assert_eq!(low.midi_number(), 244);
}

#[test]
fn semitone_offsets_count_from_concert_a() {
    assert_eq!(Note::A4().semitone_offset_from_a4(), 0);
    assert_eq!(Note::C4().semitone_offset_from_a4(), -9);
    assert_eq!(
        Note {
            pitch: Pitch::A,
            octave: 5
        }
        .semitone_offset_from_a4(),
        12
    );
    assert_eq!(
        Note::from_midi_number(21).semitone_offset_from_a4(),
        21 - 69
    );
}
