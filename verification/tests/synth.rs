use openrsynth::music::note::Note;
use openrsynth::synth::envelope::{EnvelopeState, EnvelopeStep, EnvelopeTimer};
use openrsynth::synth::voice_manager::{
    steal_index, MaxVoices, PooledVoice, VoiceManager, VoiceMixingPolicy, VoiceStealingPolicy,
    DEFAULT_MAX_POLYPHONY,
};

/// A voice that has just started playing `note`, with the envelope timing
/// of a 100 ms attack, 200 ms decay and 500 ms release at 48 kHz.
fn voice(note: Note) -> PooledVoice<()> {
    let mut envelope = EnvelopeTimer::new(4_800, 9_600, 0, 24_000);
    envelope.note_on();
    PooledVoice {
        note,
        envelope,
        sound: (),
    }
}

fn notes(manager: &VoiceManager<()>) -> Vec<Note> {
    manager.voices().iter().map(|v| v.note).collect()
}

#[test]
fn unlimited_mixing_keeps_every_voice() {
    let mut manager = VoiceManager::new();
    manager.set_mixing_policy(VoiceMixingPolicy::Unlimited);
    for note in [Note::C4(), Note::D4(), Note::E4()] {
        manager.note_on(voice(note));
    }

    assert_eq!(manager.active_voice_count(), 3);
}

#[test]
fn bounded_released_first_mixing_is_the_default() {
    let manager: VoiceManager<()> = VoiceManager::new();

    assert_eq!(
        manager.mixing_policy(),
        VoiceMixingPolicy::limited(DEFAULT_MAX_POLYPHONY, VoiceStealingPolicy::OldestReleased,)
    );
    assert_eq!(manager.active_voice_count(), 0);
}

#[test]
fn limited_mixing_never_exceeds_maximum_polyphony() {
    let mut manager = VoiceManager::new();
    manager.set_mixing_policy(VoiceMixingPolicy::limited(2, VoiceStealingPolicy::Oldest));
    for note in [Note::C4(), Note::D4(), Note::E4()] {
        manager.note_on(voice(note));
    }

    assert_eq!(manager.active_voice_count(), 2);
    assert_eq!(notes(&manager), vec![Note::D4(), Note::E4()]);
}

#[test]
fn released_voices_are_stolen_before_held_voices() {
    let mut manager = VoiceManager::new();
    manager.set_mixing_policy(VoiceMixingPolicy::limited(
        2,
        VoiceStealingPolicy::OldestReleased,
    ));
    manager.note_on(voice(Note::C4()));
    manager.note_on(voice(Note::D4()));
    manager.note_off(Note::C4());
    manager.note_on(voice(Note::E4()));

    assert_eq!(manager.active_voice_count(), 2);
    assert_eq!(notes(&manager), vec![Note::D4(), Note::E4()]);
}

#[test]
fn a_held_voice_is_stolen_when_none_is_released() {
    let mut manager = VoiceManager::new();
    manager.set_mixing_policy(VoiceMixingPolicy::limited(
        2,
        VoiceStealingPolicy::OldestReleased,
    ));
    manager.note_on(voice(Note::C4()));
    manager.note_on(voice(Note::D4()));
    manager.note_off(Note::D4());
    manager.note_on(voice(Note::E4()));
    assert_eq!(notes(&manager), vec![Note::C4(), Note::E4()]);
    manager.note_on(voice(Note::F4()));
    assert_eq!(notes(&manager), vec![Note::E4(), Note::F4()]);
}

#[test]
fn finished_voices_are_dropped_before_stealing() {
    let mut manager = VoiceManager::new();
    manager.set_mixing_policy(VoiceMixingPolicy::limited(2, VoiceStealingPolicy::Oldest));
    manager.note_on(voice(Note::C4()));
    manager.note_on(voice(Note::D4()));
    let mut quick = EnvelopeTimer::new(0, 0, 0, 0);
    quick.note_off();
    quick.advance();
    assert!(quick.is_finished());
    manager.voice_mut(0).envelope = quick;
    manager.note_on(voice(Note::E4()));
    assert_eq!(notes(&manager), vec![Note::D4(), Note::E4()]);
    manager.voice_mut(1).envelope = quick;
    manager.cleanup();
    assert_eq!(notes(&manager), vec![Note::D4()]);
}

#[test]
fn a_released_voice_is_dropped_once_its_release_ends() {
    let mut manager = VoiceManager::new();
    let mut short = EnvelopeTimer::new(0, 0, 0, 2);
    short.note_on();
    manager.note_on(PooledVoice {
        note: Note::A4(),
        envelope: short,
        sound: (),
    });
    manager.note_off(Note::A4());
    manager.voice_mut(0).envelope.advance();
    manager.cleanup();
    assert_eq!(manager.active_voice_count(), 1);
    manager.voice_mut(0).envelope.advance();
    manager.cleanup();
    assert_eq!(manager.active_voice_count(), 0);
}

#[test]
fn lowering_the_limit_steals_the_oldest_voices() {
    let mut manager = VoiceManager::new();
    manager.set_mixing_policy(VoiceMixingPolicy::Unlimited);
    for note in [Note::C4(), Note::D4(), Note::E4(), Note::F4()] {
        manager.note_on(voice(note));
    }
    manager.set_mixing_policy(VoiceMixingPolicy::limited(2, VoiceStealingPolicy::Oldest));
    assert_eq!(notes(&manager), vec![Note::E4(), Note::F4()]);
}

#[test]
fn note_off_releases_only_matching_voices() {
    let mut manager = VoiceManager::new();
    manager.note_on(voice(Note::C4()));
    manager.note_on(voice(Note::D4()));
    manager.note_on(voice(Note::C4()));
    manager.note_off(Note::C4());
    let releasing: Vec<bool> = manager
        .voices()
        .iter()
        .map(|v| v.envelope.is_releasing())
        .collect();
    assert_eq!(releasing, vec![true, false, true]);
}

#[test]
fn steal_index_prefers_the_first_releasing_voice() {
    assert_eq!(steal_index(&vec![false, true, true], VoiceStealingPolicy::OldestReleased), 1);
    assert_eq!(steal_index(&vec![false, false], VoiceStealingPolicy::OldestReleased), 0);
    assert_eq!(steal_index(&vec![false, true], VoiceStealingPolicy::Oldest), 0);
}

#[test]
fn zero_voices_is_not_a_limit() {
    assert!(MaxVoices::new(0).is_none());
    assert_eq!(MaxVoices::new(5).unwrap().get(), 5);
}

fn run(timer: &mut EnvelopeTimer, samples: usize) -> Vec<EnvelopeStep> {
    (0..samples).map(|_| timer.advance()).collect()
}

#[test]
fn envelope_stages_follow_their_lengths() {
    let mut timer = EnvelopeTimer::new(3, 2, 0, 4);
    assert_eq!(timer.advance(), EnvelopeStep::Silent);
    timer.note_on();
    assert_eq!(
        run(&mut timer, 3),
        vec![
            EnvelopeStep::Attack {
                position: 0,
                length: 3
            },
            EnvelopeStep::Attack {
                position: 1,
                length: 3
            },
            EnvelopeStep::AttackComplete,
        ]
    );
    assert_eq!(timer.state(), EnvelopeState::Decay);
    assert_eq!(
        run(&mut timer, 2),
        vec![
            EnvelopeStep::Decay {
                position: 0,
                length: 2
            },
            EnvelopeStep::DecayComplete,
        ]
    );
    assert_eq!(run(&mut timer, 3), vec![EnvelopeStep::SustainHeld; 3]);
    timer.note_off();
    assert!(timer.is_releasing());
    assert_eq!(
        run(&mut timer, 4),
        vec![
            EnvelopeStep::Release {
                position: 0,
                length: 4
            },
            EnvelopeStep::Release {
                position: 1,
                length: 4
            },
            EnvelopeStep::Release {
                position: 2,
                length: 4
            },
            EnvelopeStep::ReleaseComplete,
        ]
    );
    assert!(timer.is_finished());
}

#[test]
fn maximum_sustain_starts_the_release_by_itself() {
    let mut timer = EnvelopeTimer::new(0, 0, 3, 2);
    timer.note_on();
    assert_eq!(timer.advance(), EnvelopeStep::AttackComplete);
    assert_eq!(timer.advance(), EnvelopeStep::DecayComplete);
    for position in 0..3 {
        assert_eq!(
            timer.advance(),
            EnvelopeStep::Sustain {
                position,
                length: 3
            }
        );
    }
    assert!(!timer.is_releasing());
    assert_eq!(timer.advance(), EnvelopeStep::SustainExpired);
    assert!(timer.is_releasing());
}

#[test]
fn unlimited_sustain_holds_a_held_note() {
    let mut timer = EnvelopeTimer::new(0, 0, 0, 2);
    timer.note_on();
    for _ in 0..100 {
        timer.advance();
    }
    assert_eq!(timer.state(), EnvelopeState::Sustain);
    assert!(!timer.is_releasing());
}

#[test]
fn zero_length_release_ends_at_once() {
    let mut timer = EnvelopeTimer::new(0, 0, 0, 0);
    timer.note_on();
    timer.note_off();
    assert_eq!(timer.advance(), EnvelopeStep::ReleaseComplete);
    assert!(timer.is_finished());
    assert_eq!(timer.advance(), EnvelopeStep::Silent);
}
