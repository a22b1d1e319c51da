use openrsynth::desktop::presets::{check_preset_shape, name_is_blank, PresetShapeError};
use openrsynth::desktop::keyboard::{character_to_instrument, key_action, KeyAction};
use openrsynth::desktop::keyboard::key_to_instrument;
use openrsynth::desktop::keyboard::{key_to_note, key_to_note_off, KeyCode};
use openrsynth::desktop::presets::{FilterModePreset, WaveformPreset};
use openrsynth::music::event::NoteEvent;
use openrsynth::music::note::Note;
use openrsynth::synth::filter::FilterMode;
use openrsynth::synth::oscillator::Waveform;

#[test]
fn preset_labels_name_each_choice() {
    let labels: Vec<&str> = WaveformPreset::all().iter().map(|w| w.label()).collect();
    assert_eq!(labels, vec!["Sine", "Square", "Triangle", "Sawtooth"]);
    let labels: Vec<&str> = FilterModePreset::all().iter().map(|m| m.label()).collect();
    assert_eq!(labels, vec!["Low-pass", "Band-pass", "High-pass"]);
}

#[test]
fn preset_choices_map_to_the_synthesizer() {
    assert_eq!(WaveformPreset::Sawtooth.into_domain(), Waveform::Sawtooth);
    assert_eq!(WaveformPreset::Sine.into_domain(), Waveform::Sine);
    assert_eq!(FilterModePreset::BandPass.into_domain(), FilterMode::BandPass);
    assert_eq!(FilterModePreset::HighPass.into_domain(), FilterMode::HighPass);
}

#[test]
fn home_row_plays_the_fourth_octave() {
    assert_eq!(
        key_to_note(KeyCode::KeyA),
        Some(NoteEvent::NoteOn {
            note: Note::C4(),
            velocity: 100
        })
    );
    assert_eq!(
        key_to_note(KeyCode::KeyH),
        Some(NoteEvent::NoteOn {
            note: Note::A4(),
            velocity: 100
        })
    );
    assert_eq!(
        key_to_note_off(KeyCode::KeyU),
        Some(NoteEvent::NoteOff {
            note: Note::ASHARP4()
        })
    );
    assert_eq!(key_to_note(KeyCode::Other), None);
    assert_eq!(key_to_note_off(KeyCode::Other), None);
}

#[test]
fn keys_play_twelve_consecutive_notes() {
    let keys = [
        KeyCode::KeyA,
        KeyCode::KeyW,
        KeyCode::KeyS,
        KeyCode::KeyE,
        KeyCode::KeyD,
        KeyCode::KeyF,
        KeyCode::KeyT,
        KeyCode::KeyG,
        KeyCode::KeyY,
        KeyCode::KeyH,
        KeyCode::KeyU,
        KeyCode::KeyJ,
    ];
    for (offset, key) in keys.into_iter().enumerate() {
        match key_to_note(key) {
            Some(NoteEvent::NoteOn { note, .. }) => {
                assert_eq!(note.midi_number() as usize, 60 + offset)
            }
            other => panic!("unexpected {other:?}"),
        }
    }
}

#[test]
fn number_keys_select_instruments() {
    assert_eq!(key_to_instrument(KeyCode::Digit1), Some(0));
    assert_eq!(key_to_instrument(KeyCode::Digit9), Some(8));
    assert_eq!(key_to_instrument(KeyCode::KeyA), None);
    assert_eq!(key_to_note(KeyCode::Digit3), None);
}

#[test]
fn key_events_quit_select_play_and_ignore_repeats() {
    assert_eq!(key_action(KeyCode::Escape, None, true, false), KeyAction::Exit);
    assert_eq!(key_action(KeyCode::Escape, None, true, true), KeyAction::Exit);
    assert_eq!(key_action(KeyCode::Escape, None, false, false), KeyAction::Ignore);
    assert_eq!(key_action(KeyCode::KeyA, None, true, true), KeyAction::Ignore);
    assert_eq!(key_action(KeyCode::Digit3, None, true, false), KeyAction::SelectInstrument(2));
    assert_eq!(key_action(KeyCode::Digit3, None, false, false), KeyAction::Ignore);
    assert_eq!(
        key_action(KeyCode::KeyW, None, true, false),
        KeyAction::Send(NoteEvent::NoteOn {
            note: Note::CSHARP4(),
            velocity: 100
        })
    );
    assert_eq!(
        key_action(KeyCode::KeyW, None, false, false),
        KeyAction::Send(NoteEvent::NoteOff {
            note: Note::CSHARP4()
        })
    );
    assert_eq!(key_action(KeyCode::Other, None, true, false), KeyAction::Ignore);
}

#[test]
fn preset_names_must_not_be_blank_and_presets_need_an_oscillator() {
    assert!(name_is_blank(""));
    assert!(name_is_blank(" \t\n\u{3000}"));
    assert!(!name_is_blank(" Warm "));
    assert_eq!(check_preset_shape("Warm", 1), Ok(()));
    assert_eq!(check_preset_shape("  ", 1), Err(PresetShapeError::EmptyName));
    assert_eq!(check_preset_shape("", 0), Err(PresetShapeError::EmptyName));
    assert_eq!(check_preset_shape("Warm", 0), Err(PresetShapeError::NoOscillator));
}

#[test]
fn a_typed_digit_selects_an_instrument_on_any_layout() {
    assert_eq!(character_to_instrument('1'), Some(0));
    assert_eq!(character_to_instrument('9'), Some(8));
    assert_eq!(character_to_instrument('0'), None);
    assert_eq!(character_to_instrument('&'), None);
    assert_eq!(
        key_action(KeyCode::Other, Some('4'), true, false),
        KeyAction::SelectInstrument(3)
    );
    assert_eq!(
        key_action(KeyCode::Digit2, Some('&'), true, false),
        KeyAction::SelectInstrument(1)
    );
    assert_eq!(key_action(KeyCode::Other, Some('4'), false, false), KeyAction::Ignore);
}
