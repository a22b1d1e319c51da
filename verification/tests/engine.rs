use openrsynth::engine::{route_event, EngineAction, InstrumentSelection};
use openrsynth::music::event::NoteEvent;
use openrsynth::music::note::Note;

#[test]
fn program_change_selects_the_numbered_instrument() {
    let mut selection = InstrumentSelection::new(2);
    match route_event(NoteEvent::ProgramChange { program: 1 }) {
        EngineAction::SelectInstrument(index) => assert!(selection.select(index)),
        other => panic!("unexpected action {other:?}"),
    }
    assert_eq!(selection.selected_index(), 1);
}

#[test]
fn out_of_range_program_keeps_the_selection() {
    let mut selection = InstrumentSelection::new(2);
    match route_event(NoteEvent::ProgramChange { program: 99 }) {
        EngineAction::SelectInstrument(index) => assert!(!selection.select(index)),
        other => panic!("unexpected action {other:?}"),
    }
    assert_eq!(selection.selected_index(), 0);
}

#[test]
fn note_events_play_and_release() {
    assert_eq!(
        route_event(NoteEvent::NoteOn {
            note: Note::E4(),
            velocity: 7
        }),
        EngineAction::Play {
            note: Note::E4(),
            velocity: 7
        }
    );
    assert_eq!(
        route_event(NoteEvent::NoteOff { note: Note::E4() }),
        EngineAction::Release { note: Note::E4() }
    );
    assert_eq!(route_event(NoteEvent::AllNotesOff), EngineAction::Nothing);
    assert_eq!(
        route_event(NoteEvent::Sustain { pressed: true }),
        EngineAction::Unsupported
    );
}

#[test]
fn replacing_instruments_keeps_a_valid_selection() {
    let mut selection = InstrumentSelection::new(5);
    assert!(selection.select(4));
    assert!(!selection.replace(0));
    assert_eq!(selection.instrument_count(), 5);
    assert!(selection.replace(3));
    assert_eq!(selection.selected_index(), 2);
    assert!(selection.replace(10));
    assert_eq!(selection.selected_index(), 2);
}
