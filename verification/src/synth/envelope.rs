//! The stage sequencing of an ADSR envelope, counted in samples.
//!
//! An envelope moves Idle → Attack → Decay → Sustain → Release → Idle. The
//! timer below decides, one sample at a time, which stage the envelope is in
//! and how far into it; the level of each sample is shaped from that by the
//! envelope's curves.
use vstd::prelude::*;

verus! {

/// Stages of an ADSR envelope.
#[derive(Debug, Clone, Copy, PartialEq, Eq, Structural)]
pub enum EnvelopeState {
    Idle,
    Attack,
    Decay,
    Sustain,
    Release,
}

/// What one sample of the envelope is, for the level computation.
#[derive(Debug, Clone, Copy, PartialEq, Eq, Structural)]
pub enum EnvelopeStep {
    /// Idle: the level is zero.
    Silent,
    /// The attack curve at `position / length`.
    Attack { position: u32, length: u32 },
    /// The attack is over: full level; the decay follows.
    AttackComplete,
    /// The decay curve at `position / length`.
    Decay { position: u32, length: u32 },
    /// The decay is over: the sustain level; the sustain follows.
    DecayComplete,
    /// Sustain without a time limit: the sustain level.
    SustainHeld,
    /// A time-limited sustain, shaped toward its end level at
    /// `position / length`.
    Sustain { position: u32, length: u32 },
    /// The sustain reached its time limit: the end level, from which the
    /// release now starts.
    SustainExpired,
    /// The release curve at `position / length`.
    Release { position: u32, length: u32 },
    /// The release is over: zero; the envelope is idle again.
    ReleaseComplete,
}

/// The timer's state: stage lengths in samples (a maximum sustain of zero
/// means no limit), the current stage, and the samples counted in it.
pub struct TimerModel {
    pub attack_samples: u32,
    pub decay_samples: u32,
    pub maximum_sustain_samples: u32,
    pub release_samples: u32,
    pub state: EnvelopeState,
    pub sample_counter: u32,
}

/// One sample: the next timer state and what the sample is.
pub open spec fn advance_model(t: TimerModel) -> (TimerModel, EnvelopeStep) {
    match t.state {
        EnvelopeState::Idle => (t, EnvelopeStep::Silent),
        EnvelopeState::Attack => {
            if t.attack_samples == 0 {
                (
                    TimerModel { state: EnvelopeState::Decay, sample_counter: 0, ..t },
                    EnvelopeStep::AttackComplete,
                )
            } else if t.sample_counter + 1 >= t.attack_samples {
                (
                    TimerModel { state: EnvelopeState::Decay, sample_counter: 0, ..t },
                    EnvelopeStep::AttackComplete,
                )
            } else {
                (
                    TimerModel { sample_counter: (t.sample_counter + 1) as u32, ..t },
                    EnvelopeStep::Attack { position: t.sample_counter, length: t.attack_samples },
                )
            }
        },
        EnvelopeState::Decay => {
            if t.decay_samples == 0 {
                (
                    TimerModel { state: EnvelopeState::Sustain, sample_counter: 0, ..t },
                    EnvelopeStep::DecayComplete,
                )
            } else if t.sample_counter + 1 >= t.decay_samples {
                (
                    TimerModel { state: EnvelopeState::Sustain, sample_counter: 0, ..t },
                    EnvelopeStep::DecayComplete,
                )
            } else {
                (
                    TimerModel { sample_counter: (t.sample_counter + 1) as u32, ..t },
                    EnvelopeStep::Decay { position: t.sample_counter, length: t.decay_samples },
                )
            }
        },
        EnvelopeState::Sustain => {
            if t.maximum_sustain_samples > 0 && t.sample_counter >= t.maximum_sustain_samples {
                (
                    TimerModel { state: EnvelopeState::Release, sample_counter: 0, ..t },
                    EnvelopeStep::SustainExpired,
                )
            } else {
                let next = if t.sample_counter == u32::MAX {
                    t.sample_counter
                } else {
                    (t.sample_counter + 1) as u32
                };
                let step = if t.maximum_sustain_samples > 0 {
                    EnvelopeStep::Sustain {
                        position: t.sample_counter,
                        length: t.maximum_sustain_samples,
                    }
                } else {
                    EnvelopeStep::SustainHeld
                };
                (TimerModel { sample_counter: next, ..t }, step)
            }
        },
        EnvelopeState::Release => {
            if t.release_samples == 0 {
                (TimerModel { state: EnvelopeState::Idle, ..t }, EnvelopeStep::ReleaseComplete)
            } else if t.sample_counter + 1 >= t.release_samples {
                (
                    TimerModel { state: EnvelopeState::Idle, sample_counter: 0, ..t },
                    EnvelopeStep::ReleaseComplete,
                )
            } else {
                (
                    TimerModel { sample_counter: (t.sample_counter + 1) as u32, ..t },
                    EnvelopeStep::Release {
                        position: t.sample_counter,
                        length: t.release_samples,
                    },
                )
            }
        },
    }
}

/// The timer after `n` samples.
pub open spec fn advance_n(t: TimerModel, n: nat) -> TimerModel
    decreases n,
{
    if n == 0 {
        t
    } else {
        advance_model(advance_n(t, (n - 1) as nat)).0
    }
}

/// The timer when a note starts: the attack begins.
pub open spec fn note_on_model(t: TimerModel) -> TimerModel {
    TimerModel { state: EnvelopeState::Attack, sample_counter: 0, ..t }
}

/// The timer when a note is released: the release begins.
pub open spec fn note_off_model(t: TimerModel) -> TimerModel {
    TimerModel { state: EnvelopeState::Release, sample_counter: 0, ..t }
}

/// The stages only ever move forward, one at a time, in the order
/// Attack, Decay, Sustain, Release, Idle: a sample either stays in its stage
/// or enters the next one, and an idle envelope stays idle. In particular
/// the decay always leads into the sustain, never into the release.
pub proof fn lemma_stages_move_forward(t: TimerModel)
    ensures
        t.state == EnvelopeState::Idle ==> advance_model(t).0.state == EnvelopeState::Idle,
        t.state == EnvelopeState::Attack ==> advance_model(t).0.state == EnvelopeState::Attack
            || advance_model(t).0.state == EnvelopeState::Decay,
        t.state == EnvelopeState::Decay ==> advance_model(t).0.state == EnvelopeState::Decay
            || advance_model(t).0.state == EnvelopeState::Sustain,
        t.state == EnvelopeState::Sustain ==> advance_model(t).0.state == EnvelopeState::Sustain
            || advance_model(t).0.state == EnvelopeState::Release,
        t.state == EnvelopeState::Release ==> advance_model(t).0.state == EnvelopeState::Release
            || advance_model(t).0.state == EnvelopeState::Idle,
        advance_model(t).0.attack_samples == t.attack_samples,
        advance_model(t).0.decay_samples == t.decay_samples,
        advance_model(t).0.maximum_sustain_samples == t.maximum_sustain_samples,
        advance_model(t).0.release_samples == t.release_samples,
{
}

/// Without a maximum sustain, a note that is held is never released by the
/// envelope itself: from the attack, decay or sustain, any number of samples
/// later it is still in one of them.
pub proof fn lemma_held_note_never_releases(t: TimerModel, n: nat)
    requires
        t.state == EnvelopeState::Attack || t.state == EnvelopeState::Decay || t.state
            == EnvelopeState::Sustain,
        t.maximum_sustain_samples == 0,
    ensures
        advance_n(t, n).state == EnvelopeState::Attack || advance_n(t, n).state
            == EnvelopeState::Decay || advance_n(t, n).state == EnvelopeState::Sustain,
        advance_n(t, n).maximum_sustain_samples == 0,
    decreases n,
{
    if n > 0 {
        lemma_held_note_never_releases(t, (n - 1) as nat);
        lemma_stages_move_forward(advance_n(t, (n - 1) as nat));
    }
}

/// The decay lasts `decay_samples` samples (one sample when it is zero):
/// the samples before the last are decay curve points, the last completes
/// the decay, and the sustain then starts from its beginning.
pub proof fn lemma_decay_duration(t: TimerModel, k: nat)
    requires
        t.state == EnvelopeState::Decay,
        t.sample_counter == 0,
        k < t.decay_samples,
    ensures
        advance_n(t, k).state == EnvelopeState::Decay,
        advance_n(t, k).sample_counter == k,
        advance_n(t, k).decay_samples == t.decay_samples,
        k + 1 < t.decay_samples ==> advance_model(advance_n(t, k)).1 == (EnvelopeStep::Decay {
            position: k as u32,
            length: t.decay_samples,
        }),
        k + 1 == t.decay_samples ==> advance_model(advance_n(t, k)).1
            == EnvelopeStep::DecayComplete && advance_n(t, k + 1).state == EnvelopeState::Sustain
            && advance_n(t, k + 1).sample_counter == 0,
    decreases k,
{
    if k > 0 {
        lemma_decay_duration(t, (k - 1) as nat);
    }
}

/// A decay of zero samples ends at the next sample, in the sustain.
pub proof fn lemma_instant_decay(t: TimerModel)
    requires
        t.state == EnvelopeState::Decay,
        t.decay_samples == 0,
    ensures
        advance_model(t).1 == EnvelopeStep::DecayComplete,
        advance_model(t).0.state == EnvelopeState::Sustain,
        advance_model(t).0.sample_counter == 0,
{
}

/// The attack lasts `attack_samples` samples (one sample when it is zero):
/// the samples before the last are attack curve points, the last completes
/// the attack and the decay follows.
pub proof fn lemma_attack_duration(t: TimerModel, k: nat)
    requires
        t.state == EnvelopeState::Attack,
        t.sample_counter == 0,
        k + 1 < t.attack_samples,
    ensures
        advance_n(t, k).state == EnvelopeState::Attack,
        advance_n(t, k).sample_counter == k,
        advance_model(advance_n(t, k)).1 == (EnvelopeStep::Attack {
            position: k as u32,
            length: t.attack_samples,
        }),
        advance_model(advance_n(t, (t.attack_samples - 1) as nat)).1
            == EnvelopeStep::AttackComplete,
        advance_n(t, t.attack_samples as nat).state == EnvelopeState::Decay,
    decreases k,
{
    if k > 0 {
        lemma_attack_duration(t, (k - 1) as nat);
    }
    lemma_attack_reaches_end(t, (t.attack_samples - 1) as nat);
}

proof fn lemma_attack_reaches_end(t: TimerModel, k: nat)
    requires
        t.state == EnvelopeState::Attack,
        t.sample_counter == 0,
        t.attack_samples > 0,
        k < t.attack_samples,
    ensures
        advance_n(t, k).state == EnvelopeState::Attack,
        advance_n(t, k).sample_counter == k,
        advance_n(t, k).attack_samples == t.attack_samples,
    decreases k,
{
    if k > 0 {
        lemma_attack_reaches_end(t, (k - 1) as nat);
    }
}

/// The release lasts `release_samples` samples (one sample when it is zero)
/// and then the envelope is idle: a released note finishes on time.
pub proof fn lemma_release_finishes_on_time(t: TimerModel, k: nat)
    requires
        t.state == EnvelopeState::Release,
        t.sample_counter == 0,
        k < t.release_samples,
    ensures
        advance_n(t, k).state == EnvelopeState::Release,
        advance_n(t, k).sample_counter == k,
        advance_n(t, k).release_samples == t.release_samples,
        k + 1 < t.release_samples ==> advance_model(advance_n(t, k)).1 == (EnvelopeStep::Release {
            position: k as u32,
            length: t.release_samples,
        }),
        k + 1 == t.release_samples ==> advance_model(advance_n(t, k)).1
            == EnvelopeStep::ReleaseComplete && advance_n(t, k + 1).state == EnvelopeState::Idle,
    decreases k,
{
    if k > 0 {
        lemma_release_finishes_on_time(t, (k - 1) as nat);
    }
}

/// A release of zero samples ends at the next sample.
pub proof fn lemma_instant_release(t: TimerModel)
    requires
        t.state == EnvelopeState::Release,
        t.release_samples == 0,
    ensures
        advance_model(t).1 == EnvelopeStep::ReleaseComplete,
        advance_model(t).0.state == EnvelopeState::Idle,
{
}

/// Without a maximum sustain, a held note keeps sustaining for any number of
/// samples.
pub proof fn lemma_unlimited_sustain_holds(t: TimerModel, n: nat)
    requires
        t.state == EnvelopeState::Sustain,
        t.maximum_sustain_samples == 0,
    ensures
        advance_n(t, n).state == EnvelopeState::Sustain,
        advance_n(t, n).maximum_sustain_samples == 0,
        advance_model(advance_n(t, n)).1 == EnvelopeStep::SustainHeld,
    decreases n,
{
    if n > 0 {
        lemma_unlimited_sustain_holds(t, (n - 1) as nat);
    }
}

/// With a maximum sustain of `m` samples, a held note sustains for `m`
/// samples and the next sample starts the release by itself.
pub proof fn lemma_maximum_sustain_starts_release(t: TimerModel, k: nat)
    requires
        t.state == EnvelopeState::Sustain,
        t.sample_counter == 0,
        t.maximum_sustain_samples > 0,
        k <= t.maximum_sustain_samples,
    ensures
        advance_n(t, k).state == EnvelopeState::Sustain,
        advance_n(t, k).sample_counter == k,
        advance_n(t, k).maximum_sustain_samples == t.maximum_sustain_samples,
        k < t.maximum_sustain_samples ==> advance_model(advance_n(t, k)).1 == (EnvelopeStep::Sustain {
            position: k as u32,
            length: t.maximum_sustain_samples,
        }),
        k == t.maximum_sustain_samples ==> advance_model(advance_n(t, k)).1
            == EnvelopeStep::SustainExpired && advance_n(t, k + 1).state == EnvelopeState::Release,
    decreases k,
{
    if k > 0 {
        lemma_maximum_sustain_starts_release(t, (k - 1) as nat);
    }
}

/// An idle envelope stays idle and silent until a note starts.
pub proof fn lemma_idle_stays_silent(t: TimerModel, n: nat)
    requires
        t.state == EnvelopeState::Idle,
    ensures
        advance_n(t, n) == t,
        advance_model(advance_n(t, n)).1 == EnvelopeStep::Silent,
    decreases n,
{
    if n > 0 {
        lemma_idle_stays_silent(t, (n - 1) as nat);
    }
}

/// Sample-counting state of an ADSR envelope.
#[derive(Debug, Clone, Copy, PartialEq, Eq)]
pub struct EnvelopeTimer {
    attack_samples: u32,
    decay_samples: u32,
    maximum_sustain_samples: u32,
    release_samples: u32,
    state: EnvelopeState,
    sample_counter: u32,
}

impl EnvelopeTimer {
    pub closed spec fn view(&self) -> TimerModel {
        TimerModel {
            attack_samples: self.attack_samples,
            decay_samples: self.decay_samples,
            maximum_sustain_samples: self.maximum_sustain_samples,
            release_samples: self.release_samples,
            state: self.state,
            sample_counter: self.sample_counter,
        }
    }

    /// An idle envelope with the given stage lengths in samples; a maximum
    /// sustain of zero means no limit.
    pub fn new(
        attack_samples: u32,
        decay_samples: u32,
        maximum_sustain_samples: u32,
        release_samples: u32,
    ) -> (r: Self)
        ensures
            r@ == (TimerModel {
                attack_samples,
                decay_samples,
                maximum_sustain_samples,
                release_samples,
                state: EnvelopeState::Idle,
                sample_counter: 0,
            }),
    {
        Self {
            attack_samples,
            decay_samples,
            maximum_sustain_samples,
            release_samples,
            state: EnvelopeState::Idle,
            sample_counter: 0,
        }
    }

    pub fn note_on(&mut self)
        ensures
            final(self)@ == note_on_model(old(self)@),
    {
        self.state = EnvelopeState::Attack;
        self.sample_counter = 0;
    }

    pub fn note_off(&mut self)
        ensures
            final(self)@ == note_off_model(old(self)@),
    {
        self.state = EnvelopeState::Release;
        self.sample_counter = 0;
    }

    /// Advances one sample and tells what the sample is.
    pub fn advance(&mut self) -> (r: EnvelopeStep)
        ensures
            advance_model(old(self)@) == (final(self)@, r),
    {
        match self.state {
            EnvelopeState::Idle => EnvelopeStep::Silent,
            EnvelopeState::Attack => {
                if self.attack_samples == 0 {
                    self.state = EnvelopeState::Decay;
                    self.sample_counter = 0;
                    EnvelopeStep::AttackComplete
                } else {
                    let position = self.sample_counter;
                    if position >= self.attack_samples - 1 {
                        self.state = EnvelopeState::Decay;
                        self.sample_counter = 0;
                        EnvelopeStep::AttackComplete
                    } else {
                        self.sample_counter = position + 1;
                        EnvelopeStep::Attack { position, length: self.attack_samples }
                    }
                }
            },
            EnvelopeState::Decay => {
                if self.decay_samples == 0 {
                    self.state = EnvelopeState::Sustain;
                    self.sample_counter = 0;
                    EnvelopeStep::DecayComplete
                } else {
                    let position = self.sample_counter;
                    if position >= self.decay_samples - 1 {
                        self.state = EnvelopeState::Sustain;
                        self.sample_counter = 0;
                        EnvelopeStep::DecayComplete
                    } else {
                        self.sample_counter = position + 1;
                        EnvelopeStep::Decay { position, length: self.decay_samples }
                    }
                }
            },
            EnvelopeState::Sustain => {
                if self.maximum_sustain_samples > 0 && self.sample_counter
                    >= self.maximum_sustain_samples {
                    self.note_off();
                    EnvelopeStep::SustainExpired
                } else {
                    let position = self.sample_counter;
                    self.sample_counter = self.sample_counter.saturating_add(1);
                    if self.maximum_sustain_samples > 0 {
                        EnvelopeStep::Sustain { position, length: self.maximum_sustain_samples }
                    } else {
                        EnvelopeStep::SustainHeld
                    }
                }
            },
            EnvelopeState::Release => {
                if self.release_samples == 0 {
                    self.state = EnvelopeState::Idle;
                    EnvelopeStep::ReleaseComplete
                } else {
                    let position = self.sample_counter;
                    if position >= self.release_samples - 1 {
                        self.state = EnvelopeState::Idle;
                        self.sample_counter = 0;
                        EnvelopeStep::ReleaseComplete
                    } else {
                        self.sample_counter = position + 1;
                        EnvelopeStep::Release { position, length: self.release_samples }
                    }
                }
            },
        }
    }

    pub fn state(&self) -> (r: EnvelopeState)
        ensures
            r == self@.state,
    {
        self.state
    }

    pub fn is_finished(&self) -> (r: bool)
        ensures
            r == (self@.state == EnvelopeState::Idle),
    {
        self.state == EnvelopeState::Idle
    }

    pub fn is_releasing(&self) -> (r: bool)
        ensures
            r == (self@.state == EnvelopeState::Release),
    {
        self.state == EnvelopeState::Release
    }
}

} // verus!
