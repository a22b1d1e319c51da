//! The voice pool: which voices sound, and which one is stolen when
//! polyphony is bounded.
use vstd::prelude::*;
use crate::music::note::Note;
use crate::synth::envelope::{EnvelopeState, EnvelopeTimer, note_off_model};

verus! {

pub const DEFAULT_MAX_POLYPHONY: usize = 16;

/// Selects which voice is removed when bounded polyphony is full.
#[derive(Debug, Clone, Copy, PartialEq, Eq, Structural)]
pub enum VoiceStealingPolicy {
    /// Remove the voice that has been alive the longest.
    Oldest,
    /// Prefer the oldest voice already in its release stage, then fall back to
    /// the oldest voice overall.
    OldestReleased,
}

/// A maximum number of simultaneous voices; never zero.
#[derive(Debug, Clone, Copy, PartialEq, Eq)]
pub struct MaxVoices {
    count: usize,
}

impl MaxVoices {
    #[verifier::type_invariant]
    spec fn at_least_one(self) -> bool {
        self.count > 0
    }

    pub closed spec fn spec_get(self) -> usize {
        self.count
    }

    /// The limit of `count` voices; `None` for zero.
    pub fn new(count: usize) -> (r: Option<Self>)
        ensures
            r is Some <==> count > 0,
            r matches Some(m) ==> m.spec_get() == count,
    {
        if count == 0 {
            None
        } else {
            Some(Self { count })
        }
    }

    pub fn get(self) -> (r: usize)
        ensures
            r == self.spec_get(),
            r > 0,
    {
        proof {
            use_type_invariant(&self);
        }
        self.count
    }
}

/// Controls whether every voice is mixed or the mixer enforces bounded polyphony.
#[derive(Debug, Clone, Copy, PartialEq, Eq)]
pub enum VoiceMixingPolicy {
    Unlimited,
    Limited { max_voices: MaxVoices, stealing: VoiceStealingPolicy },
}

impl VoiceMixingPolicy {
    /// A bounded policy of `max_voices` voices (at least one).
    pub fn limited(max_voices: usize, stealing: VoiceStealingPolicy) -> (r: Self)
        requires
            max_voices > 0,
        ensures
            r matches VoiceMixingPolicy::Limited { max_voices: m, stealing: s } && m.spec_get()
                == max_voices && s == stealing,
    {
        match MaxVoices::new(max_voices) {
            Some(max_voices) => Self::Limited { max_voices, stealing },
            None => Self::Unlimited,
        }
    }
}

/// Sixteen voices, stealing released voices first.
pub open spec fn is_default_policy(policy: VoiceMixingPolicy) -> bool {
    policy matches VoiceMixingPolicy::Limited { max_voices: m, stealing: s } && m.spec_get()
        == DEFAULT_MAX_POLYPHONY && s == VoiceStealingPolicy::OldestReleased
}

impl Default for VoiceMixingPolicy {
    fn default() -> (r: Self)
        ensures
            is_default_policy(r),
    {
        Self::limited(DEFAULT_MAX_POLYPHONY, VoiceStealingPolicy::OldestReleased)
    }
}

/// The number of voices a policy allows, if it bounds them.
pub open spec fn voice_limit(policy: VoiceMixingPolicy) -> Option<int> {
    match policy {
        VoiceMixingPolicy::Unlimited => None,
        VoiceMixingPolicy::Limited { max_voices, .. } => Some(max_voices.spec_get() as int),
    }
}

/// The voice that stealing removes, given which voices answered that they
/// are releasing: the first voice under `Oldest`; under `OldestReleased` the
/// first releasing voice, or the first voice when none is releasing.
pub open spec fn spec_steal_index(releasing: Seq<bool>, policy: VoiceStealingPolicy) -> int {
    match policy {
        VoiceStealingPolicy::Oldest => 0,
        VoiceStealingPolicy::OldestReleased => first_true_or_zero(releasing),
    }
}

/// Index of the first `true`, or 0 when there is none.
pub open spec fn first_true_or_zero(flags: Seq<bool>) -> int {
    if exists|i: int| 0 <= i < flags.len() && flags[i] {
        choose|i: int| 0 <= i < flags.len() && flags[i] && forall|j: int| 0 <= j < i ==> !flags[j]
    } else {
        0
    }
}

/// The first releasing voice is stolen before any held voice, and when no
/// voice is releasing the oldest one goes.
pub proof fn lemma_released_voices_stolen_first(releasing: Seq<bool>)
    ensures
        ({
            let i = spec_steal_index(releasing, VoiceStealingPolicy::OldestReleased);
            &&& (exists|k: int| 0 <= k < releasing.len() && releasing[k]) ==> (0 <= i
                < releasing.len() && releasing[i] && forall|j: int| 0 <= j < i ==> !releasing[j])
            &&& (forall|k: int| 0 <= k < releasing.len() ==> !releasing[k]) ==> i == 0
        }),
{
    if exists|k: int| 0 <= k < releasing.len() && releasing[k] {
        let k = choose|k: int| 0 <= k < releasing.len() && releasing[k];
        let i = lemma_first_true_below(releasing, k);
        lemma_first_true_is(releasing, i);
    }
}

/// A set flag at `k` means there is a first set flag, at or before `k`.
proof fn lemma_first_true_below(flags: Seq<bool>, k: int) -> (i: int)
    requires
        0 <= k < flags.len(),
        flags[k],
    ensures
        0 <= i <= k,
        flags[i],
        forall|j: int| 0 <= j < i ==> !flags[j],
    decreases k,
{
    if exists|j: int| 0 <= j < k && flags[j] {
        let j = choose|j: int| 0 <= j < k && flags[j];
        lemma_first_true_below(flags, j)
    } else {
        k
    }
}

/// The first set flag is the one that `first_true_or_zero` names.
proof fn lemma_first_true_is(flags: Seq<bool>, i: int)
    requires
        0 <= i < flags.len(),
        flags[i],
        forall|j: int| 0 <= j < i ==> !flags[j],
    ensures
        first_true_or_zero(flags) == i,
{
    assert(exists|k: int| 0 <= k < flags.len() && flags[k]);
    assert(exists|c: int|
        0 <= c < flags.len() && flags[c] && forall|j: int| 0 <= j < c ==> !flags[j]) by {
        assert(0 <= i < flags.len() && flags[i] && forall|j: int| 0 <= j < i ==> !flags[j]);
    }
    let c = first_true_or_zero(flags);
    assert(0 <= c < flags.len() && flags[c] && forall|j: int| 0 <= j < c ==> !flags[j]);
    if c < i {
        assert(!flags[c]);
    } else if c > i {
        assert(!flags[i]);
    }
}

/// The index of the voice to steal, from the voices' releasing states.
pub fn steal_index(releasing: &Vec<bool>, policy: VoiceStealingPolicy) -> (r: usize)
    ensures
        r == spec_steal_index(releasing@, policy),
        releasing@.len() > 0 ==> r < releasing@.len(),
{
    match policy {
        VoiceStealingPolicy::Oldest => 0,
        VoiceStealingPolicy::OldestReleased => {
            let mut i: usize = 0;
            while i < releasing.len()
                invariant
                    policy == VoiceStealingPolicy::OldestReleased,
                    i <= releasing@.len(),
                    forall|j: int| 0 <= j < i ==> !releasing@[j],
                decreases releasing@.len() - i,
            {
                if releasing[i] {
                    proof {
                        lemma_first_true_is(releasing@, i as int);
                    }
                    return i;
                }
                i = i + 1;
            }
            0
        },
    }
}

/// Two limits with the same count are the same limit.
pub proof fn lemma_max_voices_equal(a: MaxVoices, b: MaxVoices)
    requires
        a.spec_get() == b.spec_get(),
    ensures
        a == b,
{
}

/// There is one default policy: sixteen voices, stealing released voices
/// first, the policy that `VoiceMixingPolicy::limited(16, OldestReleased)`
/// builds.
pub proof fn lemma_default_policy_is_unique(p: VoiceMixingPolicy, q: VoiceMixingPolicy)
    requires
        is_default_policy(p),
        is_default_policy(q),
    ensures
        p == q,
{
    match (p, q) {
        (
            VoiceMixingPolicy::Limited { max_voices: a, .. },
            VoiceMixingPolicy::Limited { max_voices: b, .. },
        ) => lemma_max_voices_equal(a, b),
        _ => {},
    }
}

/// A sounding voice: the note it plays, its envelope's timing, and the rest
/// of its sound, which the pool carries without reading.
pub struct PooledVoice<S> {
    pub note: Note,
    pub envelope: EnvelopeTimer,
    pub sound: S,
}

/// A voice has finished sounding when its envelope is idle again.
pub open spec fn voice_finished<S>(voice: PooledVoice<S>) -> bool {
    voice.envelope@.state == EnvelopeState::Idle
}

/// A voice is releasing when its envelope is in its release stage.
pub open spec fn voice_releasing<S>(voice: PooledVoice<S>) -> bool {
    voice.envelope@.state == EnvelopeState::Release
}

/// Which voices are releasing, in order.
pub open spec fn releasing_flags<S>(voices: Seq<PooledVoice<S>>) -> Seq<bool> {
    voices.map_values(|voice: PooledVoice<S>| voice_releasing(voice))
}

/// The voices that have not finished, in the order they had.
pub open spec fn keep_unfinished<S>(voices: Seq<PooledVoice<S>>) -> Seq<PooledVoice<S>>
    decreases voices.len(),
{
    if voices.len() == 0 {
        Seq::empty()
    } else {
        let kept = keep_unfinished(voices.drop_last());
        if voice_finished(voices.last()) {
            kept
        } else {
            kept.push(voices.last())
        }
    }
}

/// The voices after stealing one: under `Oldest` the first goes; under
/// `OldestReleased` the first releasing voice goes, or the first voice when
/// none is releasing.
pub open spec fn steal_one<S>(voices: Seq<PooledVoice<S>>, stealing: VoiceStealingPolicy) -> Seq<
    PooledVoice<S>,
> {
    voices.remove(spec_steal_index(releasing_flags(voices), stealing))
}

/// The voices after stealing `count` of them one at a time.
pub open spec fn steal_times<S>(
    voices: Seq<PooledVoice<S>>,
    count: nat,
    stealing: VoiceStealingPolicy,
) -> Seq<PooledVoice<S>>
    decreases count,
{
    if count == 0 {
        voices
    } else {
        steal_one(steal_times(voices, (count - 1) as nat, stealing), stealing)
    }
}

/// The voices after stealing until at most `target` remain.
pub open spec fn steal_down_to<S>(
    voices: Seq<PooledVoice<S>>,
    target: nat,
    stealing: VoiceStealingPolicy,
) -> Seq<PooledVoice<S>> {
    if voices.len() <= target {
        voices
    } else {
        steal_times(voices, (voices.len() - target) as nat, stealing)
    }
}

/// The voices after a note-on of `voice`: finished voices are dropped, then
/// under a bound of `n` voices, voices are stolen until fewer than `n` remain,
/// and the new voice comes last.
pub open spec fn voices_after_note_on<S>(
    voices: Seq<PooledVoice<S>>,
    policy: VoiceMixingPolicy,
    voice: PooledVoice<S>,
) -> Seq<PooledVoice<S>> {
    let kept = keep_unfinished(voices);
    match policy {
        VoiceMixingPolicy::Unlimited => kept.push(voice),
        VoiceMixingPolicy::Limited { max_voices, stealing } => steal_down_to(
            kept,
            (max_voices.spec_get() - 1) as nat,
            stealing,
        ).push(voice),
    }
}

/// The voices after a policy change: a bound of `n` voices steals voices
/// until at most `n` remain.
pub open spec fn voices_after_policy<S>(voices: Seq<PooledVoice<S>>, policy: VoiceMixingPolicy) -> Seq<
    PooledVoice<S>,
> {
    match policy {
        VoiceMixingPolicy::Unlimited => voices,
        VoiceMixingPolicy::Limited { max_voices, stealing } => steal_down_to(
            voices,
            max_voices.spec_get() as nat,
            stealing,
        ),
    }
}

/// The index that stealing removes is a voice of the pool.
pub proof fn lemma_steal_index_in_range<S>(voices: Seq<PooledVoice<S>>, stealing: VoiceStealingPolicy)
    requires
        voices.len() > 0,
    ensures
        0 <= spec_steal_index(releasing_flags(voices), stealing) < voices.len(),
{
    let flags = releasing_flags(voices);
    if exists|k: int| 0 <= k < flags.len() && flags[k] {
        let k = choose|k: int| 0 <= k < flags.len() && flags[k];
        let i = lemma_first_true_below(flags, k);
        lemma_first_true_is(flags, i);
    }
}

/// Stealing `count` voices from at least `count` leaves exactly that many
/// fewer.
pub proof fn lemma_steal_times_len<S>(
    voices: Seq<PooledVoice<S>>,
    count: nat,
    stealing: VoiceStealingPolicy,
)
    requires
        count <= voices.len(),
    ensures
        steal_times(voices, count, stealing).len() == voices.len() - count,
    decreases count,
{
    if count > 0 {
        lemma_steal_times_len(voices, (count - 1) as nat, stealing);
        lemma_steal_index_in_range(steal_times(voices, (count - 1) as nat, stealing), stealing);
    }
}

/// Stealing down to `target` leaves `target` voices, or all of them when
/// there were no more.
pub proof fn lemma_steal_down_to_len<S>(
    voices: Seq<PooledVoice<S>>,
    target: nat,
    stealing: VoiceStealingPolicy,
)
    ensures
        steal_down_to(voices, target, stealing).len() == if voices.len() <= target {
            voices.len()
        } else {
            target
        },
{
    if voices.len() > target {
        lemma_steal_times_len(voices, (voices.len() - target) as nat, stealing);
    }
}

/// Under `Oldest`, stealing removes the oldest voices and keeps the newest in
/// order.
pub proof fn lemma_oldest_steals_the_oldest<S>(voices: Seq<PooledVoice<S>>, count: nat)
    requires
        count <= voices.len(),
    ensures
        steal_times(voices, count, VoiceStealingPolicy::Oldest) == voices.skip(count as int),
    decreases count,
{
    if count > 0 {
        lemma_oldest_steals_the_oldest(voices, (count - 1) as nat);
        assert(voices.skip(count - 1).remove(0) =~= voices.skip(count as int));
    }
}

/// Dropping finished voices keeps exactly the unfinished ones, in order: no
/// unfinished voice is dropped and no finished voice stays.
pub proof fn lemma_keep_unfinished<S>(voices: Seq<PooledVoice<S>>)
    ensures
        keep_unfinished(voices).len() <= voices.len(),
        forall|i: int|
            0 <= i < keep_unfinished(voices).len() ==> !voice_finished(
                #[trigger] keep_unfinished(voices)[i],
            ),
        (forall|i: int| 0 <= i < voices.len() ==> !voice_finished(#[trigger] voices[i]))
            ==> keep_unfinished(voices) == voices,
    decreases voices.len(),
{
    if voices.len() > 0 {
        lemma_keep_unfinished(voices.drop_last());
        if forall|i: int| 0 <= i < voices.len() ==> !voice_finished(#[trigger] voices[i]) {
            assert forall|i: int| 0 <= i < voices.drop_last().len() implies !voice_finished(
                #[trigger] voices.drop_last()[i],
            ) by {
                assert(voices.drop_last()[i] == voices[i]);
            }
            assert(!voice_finished(voices[voices.len() - 1]));
            assert(voices.drop_last().push(voices.last()) =~= voices);
        }
    }
}

/// Dropping finished voices keeps every unfinished voice, in order, whatever
/// the other voices are: the voices left are exactly the pool filtered by
/// "not finished".
pub proof fn lemma_keep_unfinished_is_filter<S>(voices: Seq<PooledVoice<S>>)
    ensures
        keep_unfinished(voices) == voices.filter(|v: PooledVoice<S>| !voice_finished(v)),
    decreases voices.len(),
{
    reveal(Seq::filter);
    if voices.len() > 0 {
        lemma_keep_unfinished_is_filter(voices.drop_last());
    }
}

/// An unfinished voice survives a cleanup: it is still in the pool after
/// finished voices are dropped, however many of them finish at once.
pub proof fn lemma_unfinished_voice_survives<S>(voices: Seq<PooledVoice<S>>, i: int)
    requires
        0 <= i < voices.len(),
        !voice_finished(voices[i]),
    ensures
        keep_unfinished(voices).contains(voices[i]),
{
    lemma_keep_unfinished_is_filter(voices);
    let pred = |v: PooledVoice<S>| !voice_finished(v);
    assert(pred(voices[i]));
    voices.filter_lemma(pred);
    assert(voices.contains(voices[i]));
}

/// A released voice is stolen before any held one: when some voice is
/// releasing, `OldestReleased` removes the first releasing voice, and every
/// voice before it stays; when none is, it removes the oldest voice.
pub proof fn lemma_released_voice_stolen_before_held<S>(voices: Seq<PooledVoice<S>>)
    requires
        voices.len() > 0,
    ensures
        ({
            let i = spec_steal_index(releasing_flags(voices), VoiceStealingPolicy::OldestReleased);
            &&& steal_one(voices, VoiceStealingPolicy::OldestReleased) == voices.remove(i)
            &&& (exists|k: int| 0 <= k < voices.len() && voice_releasing(#[trigger] voices[k]))
                ==> (0 <= i < voices.len() && voice_releasing(voices[i]) && forall|j: int|
                0 <= j < i ==> !voice_releasing(#[trigger] voices[j]))
            &&& (forall|k: int| 0 <= k < voices.len() ==> !voice_releasing(#[trigger] voices[k]))
                ==> i == 0
        }),
{
    let flags = releasing_flags(voices);
    lemma_released_voices_stolen_first(flags);
    let i = spec_steal_index(flags, VoiceStealingPolicy::OldestReleased);
    if exists|k: int| 0 <= k < voices.len() && voice_releasing(#[trigger] voices[k]) {
        let k = choose|k: int| 0 <= k < voices.len() && voice_releasing(#[trigger] voices[k]);
        assert(flags[k]);
        assert forall|j: int| 0 <= j < i implies !voice_releasing(#[trigger] voices[j]) by {
            assert(!flags[j]);
        }
    }
    if forall|k: int| 0 <= k < voices.len() ==> !voice_releasing(#[trigger] voices[k]) {
        assert forall|k: int| 0 <= k < flags.len() implies !flags[k] by {
            assert(!voice_releasing(voices[k]));
        }
    }
}

/// The pool of sounding voices, oldest first, under a mixing policy.
pub struct VoiceManager<S> {
    voices: Vec<PooledVoice<S>>,
    mixing_policy: VoiceMixingPolicy,
}

impl<S> VoiceManager<S> {
    /// The voices, oldest first.
    pub closed spec fn view(&self) -> Seq<PooledVoice<S>> {
        self.voices@
    }

    pub closed spec fn policy(&self) -> VoiceMixingPolicy {
        self.mixing_policy
    }

    /// The pool holds no more voices than its policy allows, and a bound
    /// allows at least one voice.
    pub open spec fn wf(&self) -> bool {
        voice_limit(self.policy()) matches Some(m) ==> 0 < m && self.view().len() <= m
    }

    pub fn new() -> (r: Self)
        ensures
            r.wf(),
            r.view() == Seq::<PooledVoice<S>>::empty(),
            is_default_policy(r.policy()),
    {
        Self { voices: Vec::new(), mixing_policy: VoiceMixingPolicy::default() }
    }

    /// Adds a voice after dropping finished voices and, under a bounded
    /// policy, stealing voices until there is room for it.
    pub fn note_on(&mut self, voice: PooledVoice<S>)
        requires
            old(self).wf(),
        ensures
            final(self).wf(),
            final(self).policy() == old(self).policy(),
            final(self).view() == voices_after_note_on(old(self).view(), old(self).policy(), voice),
    {
        self.cleanup();
        self.make_room_for_voice();
        self.voices.push(voice);
    }

    /// Starts the release of every voice playing `note`; the other voices
    /// are left as they were, and no voice is added, dropped or moved.
    pub fn note_off(&mut self, note: Note)
        requires
            old(self).wf(),
        ensures
            final(self).wf(),
            final(self).policy() == old(self).policy(),
            final(self).view().len() == old(self).view().len(),
            forall|i: int|
                0 <= i < old(self).view().len() ==> {
                    let before = #[trigger] old(self).view()[i];
                    let after = final(self).view()[i];
                    if before.note == note {
                        &&& after.note == before.note
                        &&& after.sound == before.sound
                        &&& after.envelope@ == note_off_model(before.envelope@)
                    } else {
                        after == before
                    }
                },
    {
        let mut i: usize = 0;
        while i < self.voices.len()
            invariant
                self.voices@.len() == old(self).voices@.len(),
                self.mixing_policy == old(self).mixing_policy,
                i <= self.voices@.len(),
                forall|j: int| i <= j < self.voices@.len() ==> self.voices@[j] == old(self).voices@[j],
                forall|j: int|
                    0 <= j < i ==> {
                        let before = #[trigger] old(self).voices@[j];
                        let after = self.voices@[j];
                        if before.note == note {
                            &&& after.note == before.note
                            &&& after.sound == before.sound
                            &&& after.envelope@ == note_off_model(before.envelope@)
                        } else {
                            after == before
                        }
                    },
            decreases self.voices@.len() - i,
        {
            if self.voices[i].note == note {
                let mut voice = self.voices.remove(i);
                voice.envelope.note_off();
                self.voices.insert(i, voice);
            }
            i = i + 1;
        }
    }

    /// Drops the voices whose envelope is idle again, keeping the others in
    /// order.
    pub fn cleanup(&mut self)
        requires
            old(self).wf(),
        ensures
            final(self).wf(),
            final(self).policy() == old(self).policy(),
            final(self).view() == keep_unfinished(old(self).view()),
            final(self).view() == old(self).view().filter(
                |v: PooledVoice<S>| !voice_finished(v),
            ),
    {
        let ghost initial = self.voices@;
        let ghost mut processed: int = 0;
        let mut i: usize = 0;
        while i < self.voices.len()
            invariant
                self.mixing_policy == old(self).mixing_policy,
                initial == old(self).voices@,
                0 <= processed <= initial.len(),
                i == keep_unfinished(initial.take(processed)).len(),
                i <= self.voices@.len(),
                self.voices@ == keep_unfinished(initial.take(processed)) + initial.skip(processed),
            decreases self.voices@.len() - i,
        {
            assert(self.voices@[i as int] == initial[processed]);
            let finished_now = self.voices[i].envelope.is_finished();
            proof {
                assert(initial.take(processed + 1).drop_last() =~= initial.take(processed));
                processed = processed + 1;
            }
            if finished_now {
                let _ = self.voices.remove(i);
            } else {
                i = i + 1;
            }
            proof {
                let kept = keep_unfinished(initial.take(processed));
                assert(self.voices@ =~= kept + initial.skip(processed));
            }
        }
        proof {
            assert(processed == initial.len()) by {
                if processed < initial.len() {
                    assert(self.voices@.len() > i);
                }
            }
            assert(initial.take(initial.len() as int) =~= initial);
            assert(self.voices@ =~= keep_unfinished(initial));
            lemma_keep_unfinished(initial);
            lemma_keep_unfinished_is_filter(initial);
        }
    }

    /// Replaces the policy and steals voices until the new bound holds.
    pub fn set_mixing_policy(&mut self, policy: VoiceMixingPolicy)
        requires
            old(self).wf(),
        ensures
            final(self).wf(),
            final(self).policy() == policy,
            final(self).view() == voices_after_policy(old(self).view(), policy),
    {
        self.mixing_policy = policy;
        match self.mixing_policy {
            VoiceMixingPolicy::Unlimited => {},
            VoiceMixingPolicy::Limited { max_voices, stealing } => {
                let max = max_voices.get();
                self.steal_down_to(max, stealing);
            },
        }
    }

    pub fn mixing_policy(&self) -> (r: VoiceMixingPolicy)
        ensures
            r == self.policy(),
    {
        self.mixing_policy
    }

    pub fn active_voice_count(&self) -> (r: usize)
        ensures
            r == self.view().len(),
    {
        self.voices.len()
    }

    /// The voices, oldest first, for reading.
    pub fn voices(&self) -> (r: &Vec<PooledVoice<S>>)
        ensures
            r@ == self.view(),
    {
        &self.voices
    }

    /// The voice at `index`, to be rendered in place.
    pub fn voice_mut(&mut self, index: usize) -> (r: &mut PooledVoice<S>)
        requires
            index < old(self).view().len(),
        ensures
            *r == old(self).view()[index as int],
            final(self).view() == old(self).view().update(index as int, *final(r)),
            final(self).policy() == old(self).policy(),
    {
        &mut self.voices[index]
    }

    /// Under a bounded policy, steals voices until one more fits.
    fn make_room_for_voice(&mut self)
        requires
            old(self).wf(),
        ensures
            final(self).policy() == old(self).policy(),
            match old(self).policy() {
                VoiceMixingPolicy::Unlimited => final(self).view() == old(self).view(),
                VoiceMixingPolicy::Limited { max_voices, stealing } => final(self).view()
                    == steal_down_to(old(self).view(), (max_voices.spec_get() - 1) as nat, stealing),
            },
            voice_limit(old(self).policy()) matches Some(m) ==> final(self).view().len() < m,
    {
        match self.mixing_policy {
            VoiceMixingPolicy::Unlimited => {},
            VoiceMixingPolicy::Limited { max_voices, stealing } => {
                let max = max_voices.get();
                self.steal_down_to(max - 1, stealing);
            },
        }
    }

    /// Steals voices one at a time until at most `target` remain.
    fn steal_down_to(&mut self, target: usize, stealing: VoiceStealingPolicy)
        ensures
            final(self).policy() == old(self).policy(),
            final(self).view() == steal_down_to(old(self).view(), target as nat, stealing),
            final(self).view().len() == if old(self).view().len() <= target {
                old(self).view().len()
            } else {
                target as nat
            },
    {
        let ghost initial = self.voices@;
        let ghost mut count: nat = 0;
        while self.voices.len() > target
            invariant
                self.mixing_policy == old(self).mixing_policy,
                initial == old(self).voices@,
                count <= initial.len(),
                self.voices@ == steal_times(initial, count, stealing),
                self.voices@.len() == initial.len() - count,
                count > 0 ==> initial.len() - count >= target,
            decreases self.voices@.len(),
        {
            let index = self.steal_index_now(stealing);
            let _ = self.voices.remove(index);
            proof {
                count = count + 1;
            }
        }
        proof {
            lemma_steal_down_to_len(initial, target as nat, stealing);
            if count > 0 {
                assert(count == initial.len() - target);
            }
        }
    }

    /// The index of the voice that stealing removes now.
    fn steal_index_now(&self, stealing: VoiceStealingPolicy) -> (r: usize)
        requires
            self.voices@.len() > 0,
        ensures
            r == spec_steal_index(releasing_flags(self.voices@), stealing),
            r < self.voices@.len(),
    {
        proof {
            lemma_steal_index_in_range(self.voices@, stealing);
        }
        match stealing {
            VoiceStealingPolicy::Oldest => 0,
            VoiceStealingPolicy::OldestReleased => {
                let mut releasing: Vec<bool> = Vec::new();
                let mut i: usize = 0;
                while i < self.voices.len()
                    invariant
                        i <= self.voices@.len(),
                        releasing@ == releasing_flags(self.voices@).take(i as int),
                    decreases self.voices@.len() - i,
                {
                    let is_releasing = self.voices[i].envelope.is_releasing();
                    releasing.push(is_releasing);
                    i = i + 1;
                    assert(releasing@ =~= releasing_flags(self.voices@).take(i as int));
                }
                assert(releasing@ =~= releasing_flags(self.voices@));
                steal_index(&releasing, VoiceStealingPolicy::OldestReleased)
            },
        }
    }
}

} // verus!
