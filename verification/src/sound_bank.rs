//! Per-bank playback state and the step algorithm.
//!
//! A bank holds at most one playback sink for each of its samples. The sinks
//! themselves belong to the audio device and stay with the caller; the state
//! here records for each sample whether its sink is held, decides which
//! sinks are dropped when a sample is to play, and remembers the sample
//! played last.

use crate::config::BankConfig;
use crate::config::BankConfigView;
use crate::config::BankRef;
use crate::config::BankSampleRef;
use crate::config::SampleRef;
use crate::error::SampleNotFoundError;
use crate::sample_loader::first_missing;
use crate::sample_loader::slot_of;
use crate::sample_loader::LoadedSample;
use crate::sample_loader::SampleLoader;
use crate::text::lemma_first_where_is;
use crate::text::lemma_first_where_none;
use vstd::arithmetic::div_mod::lemma_fundamental_div_mod;
use vstd::arithmetic::div_mod::lemma_fundamental_div_mod_converse;
use vstd::prelude::*;

verus! {

/// The index that a step action selects in a bank of `sample_count` samples:
/// nothing in an empty bank; in a bank that has not played yet, the first
/// sample for `steps >= 0` and the last one for `steps < 0`; otherwise
/// `last + steps` reduced modulo `sample_count` to a non-negative index.
pub open spec fn step_index(sample_count: int, last_played: Option<int>, steps: int) -> Option<int> {
    if sample_count < 1 {
        None
    } else {
        match last_played {
            None => if steps >= 0 {
                Some(0)
            } else {
                Some(sample_count - 1)
            },
            Some(last) => Some((last + steps) % sample_count),
        }
    }
}

/// The index behind an optional sample reference.
pub open spec fn sample_index(sample_ref: Option<SampleRef>) -> Option<int> {
    match sample_ref {
        Some(r) => Some(r.sample_index as int),
        None => None,
    }
}

/// Applies a relative step to the sample last played in a bank.
pub fn apply_steps(sample_count: usize, last_played: Option<SampleRef>, steps: i32) -> (next: Option<
    SampleRef,
>)
    ensures
        sample_index(next) == step_index(sample_count as int, sample_index(last_played), steps as int),
{
    if sample_count < 1 {
        return None;
    }
    match last_played {
        None => {
            if steps >= 0 {
                Some(SampleRef { sample_index: 0 })
            } else {
                Some(SampleRef { sample_index: sample_count - 1 })
            }
        },
        Some(last_played) => {
            let last: usize = last_played.sample_index;
            let from: usize = last % sample_count;
            let ghost n = sample_count as int;
            proof {
                lemma_fundamental_div_mod(last as int, n);
            }
            if steps >= 0 {
                let forward: usize = (steps as usize) % sample_count;
                let next: usize = if from >= sample_count - forward {
                    from - (sample_count - forward)
                } else {
                    from + forward
                };
                proof {
                    lemma_fundamental_div_mod(steps as int, n);
                    let carry: int = if from >= sample_count - forward { 1 } else { 0 };
                    let q = (last as int) / n + (steps as int) / n + carry;
                    assert(last + steps == q * n + next) by (nonlinear_arith)
                        requires
                            last == n * ((last as int) / n) + from,
                            steps == n * ((steps as int) / n) + forward,
                            next == from + forward - carry * n,
                            q == (last as int) / n + (steps as int) / n + carry,
                    ;
                    lemma_fundamental_div_mod_converse(last + steps, n, q, next as int);
                }
                Some(SampleRef { sample_index: next })
            } else {
                let distance: usize = (-(steps as i64)) as usize;
                let back: usize = distance % sample_count;
                let next: usize = if from >= back {
                    from - back
                } else {
                    sample_count - (back - from)
                };
                proof {
                    lemma_fundamental_div_mod(distance as int, n);
                    let borrow: int = if from >= back { 0 } else { 1 };
                    let q = (last as int) / n - (distance as int) / n - borrow;
                    assert(last + steps == q * n + next) by (nonlinear_arith)
                        requires
                            last == n * ((last as int) / n) + from,
                            distance == n * ((distance as int) / n) + back,
                            steps == -distance,
                            next == from - back + borrow * n,
                            q == (last as int) / n - (distance as int) / n - borrow,
                    ;
                    lemma_fundamental_div_mod_converse(last + steps, n, q, next as int);
                }
                Some(SampleRef { sample_index: next })
            }
        },
    }
}

/// A bank that has not played yet starts, on a step that is not negative, at
/// its first sample.
pub proof fn lemma_first_step_forward(sample_count: int, steps: int)
    requires
        sample_count >= 1,
        steps >= 0,
    ensures
        step_index(sample_count, None, steps) == Some(0int),
{
}

/// A bank that has not played yet starts, on a negative step, at its last
/// sample.
pub proof fn lemma_first_step_backward(sample_count: int, steps: int)
    requires
        sample_count >= 1,
        steps < 0,
    ensures
        step_index(sample_count, None, steps) == Some(sample_count - 1),
{
}

/// A step of zero repeats the sample played last.
pub proof fn lemma_step_zero_repeats(sample_count: int, last: int)
    requires
        sample_count >= 1,
        0 <= last < sample_count,
    ensures
        step_index(sample_count, Some(last), 0) == Some(last),
{
    vstd::arithmetic::div_mod::lemma_small_mod(last as nat, sample_count as nat);
}

/// A step from the sample played last selects `(((last + steps) mod count) +
/// count) mod count`, an index of the bank, however far and in whichever
/// direction the step goes.
pub proof fn lemma_step_wraps(sample_count: int, last: int, steps: int)
    requires
        sample_count >= 1,
    ensures
        step_index(sample_count, Some(last), steps) == Some(
            (((last + steps) % sample_count) + sample_count) % sample_count,
        ),
        0 <= step_index(sample_count, Some(last), steps)->0 < sample_count,
{
    let target = (last + steps) % sample_count;
    vstd::arithmetic::div_mod::lemma_mod_bound(last + steps, sample_count);
    lemma_fundamental_div_mod_converse(target + sample_count, sample_count, 1, target);
}

/// Every step in a bank with a sample selects a sample of the bank.
pub proof fn lemma_step_in_bank(sample_count: int, last_played: Option<int>, steps: int)
    requires
        sample_count >= 1,
    ensures
        step_index(sample_count, last_played, steps) is Some,
        0 <= step_index(sample_count, last_played, steps)->0 < sample_count,
{
    if let Some(last) = last_played {
        lemma_step_wraps(sample_count, last, steps);
    }
}

/// A bank with its samples loaded.
pub struct SoundBankView {
    pub config: BankConfigView,
    pub samples: Seq<LoadedSample>,
}

/// An initialized bank of sounds: the configuration of a bank together with
/// its samples, loaded into memory.
#[derive(Debug)]
pub struct SoundBank {
    pub config: BankConfig,
    samples: Vec<LoadedSample>,
}

impl View for SoundBank {
    type V = SoundBankView;

    closed spec fn view(&self) -> SoundBankView {
        SoundBankView { config: self.config@, samples: self.samples@ }
    }
}

/// Whether `samples` are the loaded samples that a loader with these keys
/// holds for the samples of a bank, one for one.
pub open spec fn loaded_from(samples: Seq<LoadedSample>, keys: Seq<Seq<char>>, config: BankConfigView) -> bool {
    &&& samples.len() == config.samples.len()
    &&& forall|s: int|
        0 <= s < samples.len() ==> slot_of(keys, config.samples[s].file) == Some(
            (#[trigger] samples[s]).slot as int,
        )
}

impl SoundBank {
    /// Whether this is the bank that `new` makes of a configuration and a
    /// loader with these keys: every sample is loaded, and the bank holds
    /// the configuration and the loaded samples.
    pub open spec fn made_of(&self, keys: Seq<Seq<char>>, config: BankConfigView) -> bool {
        &&& first_missing(keys, config.samples) is None
        &&& self@.config == config
        &&& loaded_from(self@.samples, keys, config)
    }

    /// Makes a bank of the loaded samples that the loader holds for the
    /// samples of the configuration; fails where one of them is not loaded.
    pub fn new<L: SampleLoader>(loader: &L, config: BankConfig) -> (result: Result<
        SoundBank,
        SampleNotFoundError,
    >)
        ensures
            match result {
                Ok(bank) => bank.made_of(loader.keys(), config@),
                Err(_) => first_missing(loader.keys(), config@.samples) is Some,
            },
    {
        let ghost missing = |s: int| slot_of(loader.keys(), config@.samples[s].file) is None;
        let mut samples: Vec<LoadedSample> = Vec::new();
        let mut sample_index: usize = 0;
        while sample_index < config.samples.len()
            invariant
                sample_index <= config.samples@.len(),
                samples@.len() == sample_index,
                missing == |s: int| slot_of(loader.keys(), config@.samples[s].file) is None,
                forall|j: int| 0 <= j < sample_index ==> !#[trigger] missing(j),
                forall|s: int|
                    0 <= s < sample_index ==> slot_of(loader.keys(), config@.samples[s].file)
                        == Some((#[trigger] samples@[s]).slot as int),
            decreases config.samples@.len() - sample_index,
        {
            let sample = match loader.get(&config.samples[sample_index]) {
                None => {
                    proof {
                        lemma_first_where_is(
                            config@.samples.len() as int,
                            missing,
                            sample_index as int,
                        );
                    }
                    return Err(SampleNotFoundError {});
                },
                Some(sample) => sample,
            };
            samples.push(sample);
            sample_index += 1;
        }
        proof {
            lemma_first_where_none(config@.samples.len() as int, missing);
        }
        Ok(SoundBank { config, samples })
    }

    /// Makes a bank of each configuration, in order; fails where a sample of
    /// one of them is not loaded.
    pub fn new_all<L: SampleLoader>(loader: &L, configs: &Vec<BankConfig>) -> (result: Result<
        Vec<SoundBank>,
        SampleNotFoundError,
    >)
        ensures
            match result {
                Ok(banks) => {
                    &&& banks@.len() == configs@.len()
                    &&& forall|b: int|
                        0 <= b < configs@.len() ==> (#[trigger] banks@[b]).made_of(
                            loader.keys(),
                            configs@[b]@,
                        )
                },
                Err(_) => exists|b: int|
                    0 <= b < configs@.len() && first_missing(
                        loader.keys(),
                        (#[trigger] configs@[b])@.samples,
                    ) is Some,
            },
    {
        let mut banks: Vec<SoundBank> = Vec::new();
        let mut bank_index: usize = 0;
        while bank_index < configs.len()
            invariant
                bank_index <= configs@.len(),
                banks@.len() == bank_index,
                forall|b: int|
                    0 <= b < bank_index ==> (#[trigger] banks@[b]).made_of(
                        loader.keys(),
                        configs@[b]@,
                    ),
            decreases configs@.len() - bank_index,
        {
            let config = configs[bank_index].clone();
            match SoundBank::new(loader, config) {
                Ok(bank) => {
                    banks.push(bank);
                },
                Err(error) => {
                    return Err(error);
                },
            }
            bank_index += 1;
        }
        Ok(banks)
    }

    /// The number of samples of this bank.
    pub fn sample_count(&self) -> (count: usize)
        ensures
            count == self@.samples.len(),
    {
        self.samples.len()
    }

    /// The loaded sample at a reference into this bank.
    pub fn get_sample(&self, sample_ref: SampleRef) -> (sample: LoadedSample)
        requires
            sample_ref.sample_index < self@.samples.len(),
        ensures
            sample == self@.samples[sample_ref.sample_index as int],
    {
        self.samples[sample_ref.sample_index]
    }
}

/// What is to be done to play a sample: drop the sinks of `silence`, then
/// acquire a fresh sink and start `sample` on it.
#[derive(Debug, PartialEq, Eq)]
pub struct Playback {
    pub sample: BankSampleRef,
    pub silence: Vec<BankSampleRef>,
}

pub struct PlaybackView {
    pub sample: BankSampleRef,
    pub silence: Seq<BankSampleRef>,
}

impl View for Playback {
    type V = PlaybackView;

    open spec fn view(&self) -> PlaybackView {
        PlaybackView { sample: self.sample, silence: self.silence@ }
    }
}

/// The reference of the sample in a slot of a bank.
pub open spec fn sample_at(bank_ref: BankRef, slot: int) -> BankSampleRef {
    BankSampleRef { bank: bank_ref, sample: SampleRef { sample_index: slot as usize } }
}

/// The samples of a bank whose flag is set among the first `limit` slots, in
/// the order of their slots.
pub open spec fn flagged(bank_ref: BankRef, flags: Seq<bool>, limit: int) -> Seq<BankSampleRef>
    decreases limit,
{
    if limit <= 0 {
        Seq::empty()
    } else if flags[limit - 1] {
        flagged(bank_ref, flags, limit - 1).push(sample_at(bank_ref, limit - 1))
    } else {
        flagged(bank_ref, flags, limit - 1)
    }
}

/// The playback state of a bank: for each sample whether its sink is held,
/// and the sample that played last.
pub struct SoundBankStateView {
    pub bank_ref: BankRef,
    pub poly: bool,
    pub sinks: Seq<bool>,
    pub last_played: Option<SampleRef>,
}

impl SoundBankStateView {
    /// The number of samples of the bank.
    pub open spec fn sample_count(self) -> int {
        self.sinks.len() as int
    }

    /// Whether the sink in `slot` is dropped before the sample `index` plays:
    /// every held sink where the bank is not polyphonic; the held sink of the
    /// sample itself in any bank, so that no sample overlaps itself.
    pub open spec fn drops(self, index: int, slot: int) -> bool {
        self.sinks[slot] && (!self.poly || slot == index)
    }

    /// The sinks that are dropped before the sample `index` plays, in the
    /// order of their slots.
    pub open spec fn silenced(self, index: int) -> Seq<BankSampleRef> {
        flagged(
            self.bank_ref,
            Seq::new(self.sinks.len(), |slot: int| self.drops(index, slot)),
            self.sinks.len() as int,
        )
    }

    /// The state once the sinks are dropped that must be before the sample
    /// `index` plays.
    pub open spec fn prepared(self, index: int) -> SoundBankStateView {
        SoundBankStateView {
            sinks: Seq::new(self.sinks.len(), |slot: int| self.sinks[slot] && !self.drops(index, slot)),
            ..self
        }
    }

    /// What is to be done to play the sample `index`.
    pub open spec fn playback(self, index: int) -> PlaybackView {
        PlaybackView { sample: sample_at(self.bank_ref, index), silence: self.silenced(index) }
    }

    /// The state once the sample `index` has started on a fresh sink.
    pub open spec fn started(self, index: int) -> SoundBankStateView {
        SoundBankStateView {
            sinks: self.sinks.update(index, true),
            last_played: Some(SampleRef { sample_index: index as usize }),
            ..self
        }
    }

    /// The sinks that are held, in the order of their slots.
    pub open spec fn held(self) -> Seq<BankSampleRef> {
        flagged(self.bank_ref, self.sinks, self.sinks.len() as int)
    }

    /// The state once every sink is dropped.
    pub open spec fn stopped(self) -> SoundBankStateView {
        SoundBankStateView { sinks: Seq::new(self.sinks.len(), |slot: int| false), ..self }
    }
}

/// An initialized bank of sounds and its playback state.
#[derive(Debug)]
pub struct SoundBankState {
    sound_bank: SoundBank,
    /// For each sample, whether a sink is held for it.
    sinks: Vec<bool>,
    last_played: Option<SampleRef>,
}

impl View for SoundBankState {
    type V = SoundBankStateView;

    closed spec fn view(&self) -> SoundBankStateView {
        SoundBankStateView {
            bank_ref: self.sound_bank.config.bank_ref,
            poly: self.sound_bank.config.poly,
            sinks: self.sinks@,
            last_played: self.last_played,
        }
    }
}

/// A uniformly random index below `count`, drawn with `rand::Rng::gen_range`
/// from the generator of this thread: trusted to lie in `0..count`. The
/// call panics on an empty range, which `requires` leaves out.
#[verifier::external_body]
fn random_index(rng: &mut rand::rngs::ThreadRng, count: usize) -> (index: usize)
    requires
        count > 0,
    ensures
        index < count,
{
    rand::Rng::gen_range(rng, 0..count)
}

/// The random number generator of this thread, from `rand::thread_rng`:
/// nothing is claimed of it.
#[verifier::external_body]
fn thread_rng() -> rand::rngs::ThreadRng {
    rand::thread_rng()
}

/// `rand::rngs::ThreadRng`, the random number generator of a thread: carried
/// through, nothing is known of what is inside.
#[verifier::external_type_specification]
#[verifier::external_body]
pub struct ExThreadRng(rand::rngs::ThreadRng);

impl SoundBankState {
    /// There is one sink slot for each sample of the bank.
    pub closed spec fn wf(&self) -> bool {
        self.sinks@.len() == self.sound_bank.samples@.len()
    }

    /// The bank whose state this is.
    pub closed spec fn sound_bank(&self) -> SoundBank {
        self.sound_bank
    }

    /// Whether this is the state of the bank before anything played: no
    /// sink is held and no sample is the one played last.
    pub open spec fn fresh_of(&self, sound_bank: SoundBank) -> bool {
        &&& self.wf()
        &&& self.sound_bank() == sound_bank
        &&& self@ == (SoundBankStateView {
            bank_ref: sound_bank@.config.bank_ref,
            poly: sound_bank@.config.poly,
            sinks: Seq::new(sound_bank@.samples.len(), |slot: int| false),
            last_played: None,
        })
    }

    /// The state of a bank of which no sample plays or has played.
    pub fn new(sound_bank: SoundBank) -> (state: Self)
        ensures
            state.fresh_of(sound_bank),
    {
        // reserve a slot for the sink of every sample, empty for now
        let mut sinks: Vec<bool> = Vec::new();
        let mut slot: usize = 0;
        while slot < sound_bank.samples.len()
            invariant
                slot <= sound_bank.samples@.len(),
                sinks@.len() == slot,
                forall|j: int| 0 <= j < slot ==> !#[trigger] sinks@[j],
            decreases sound_bank.samples@.len() - slot,
        {
            sinks.push(false);
            slot += 1;
        }
        assert(sinks@ =~= Seq::new(sound_bank@.samples.len(), |slot: int| false));
        SoundBankState { sound_bank, sinks, last_played: None }
    }

    /// The state of each bank, in order.
    pub fn new_all(sound_banks: Vec<SoundBank>) -> (states: Vec<Self>)
        ensures
            states@.len() == sound_banks@.len(),
            forall|b: int|
                0 <= b < sound_banks@.len() ==> (#[trigger] states@[b]).fresh_of(sound_banks@[b]),
    {
        let mut states: Vec<Self> = Vec::new();
        for sound_bank in banks: sound_banks
            invariant
                banks.seq() == sound_banks@,
                states@.len() == banks.index(),
                forall|b: int|
                    0 <= b < states@.len() ==> (#[trigger] states@[b]).fresh_of(sound_banks@[b]),
        {
            states.push(SoundBankState::new(sound_bank));
        }
        states
    }

    /// The number of samples of the bank.
    pub fn sample_count(&self) -> (count: usize)
        requires
            self.wf(),
        ensures
            count == self@.sample_count(),
    {
        self.sound_bank.sample_count()
    }

    /// The loaded sample at a reference into the bank.
    pub fn get_sample(&self, sample_ref: SampleRef) -> (sample: LoadedSample)
        requires
            self.wf(),
            sample_ref.sample_index < self@.sample_count(),
        ensures
            sample == self.sound_bank()@.samples[sample_ref.sample_index as int],
    {
        self.sound_bank.get_sample(sample_ref)
    }

    /// Drops the sinks that are held: all of them, or that of one sample only.
    fn discard(&mut self, only: Option<usize>) -> (silence: Vec<BankSampleRef>)
        requires
            old(self).wf(),
        ensures
            final(self).wf(),
            final(self).sound_bank() == old(self).sound_bank(),
            final(self)@.bank_ref == old(self)@.bank_ref,
            final(self)@.poly == old(self)@.poly,
            final(self)@.last_played == old(self)@.last_played,
            final(self)@.sinks == Seq::new(
                old(self)@.sinks.len(),
                |slot: int| old(self)@.sinks[slot] && !(only is None || only == Some(slot as usize)),
            ),
            silence@ == flagged(
                old(self)@.bank_ref,
                Seq::new(
                    old(self)@.sinks.len(),
                    |slot: int| old(self)@.sinks[slot] && (only is None || only == Some(slot as usize)),
                ),
                old(self)@.sinks.len() as int,
            ),
    {
        let ghost held = self.sinks@;
        let ghost bank_ref = self@.bank_ref;
        let ghost dropped = Seq::new(
            held.len(),
            |slot: int| held[slot] && (only is None || only == Some(slot as usize)),
        );
        let bank = self.sound_bank.config.bank_ref;
        let mut silence: Vec<BankSampleRef> = Vec::new();
        let mut slot: usize = 0;
        while slot < self.sinks.len()
            invariant
                slot <= self.sinks@.len(),
                self.sinks@.len() == held.len(),
                held == old(self)@.sinks,
                bank == bank_ref,
                bank_ref == old(self)@.bank_ref,
                self.sound_bank == old(self).sound_bank,
                self.last_played == old(self).last_played,
                dropped == Seq::new(
                    held.len(),
                    |slot: int| held[slot] && (only is None || only == Some(slot as usize)),
                ),
                silence@ == flagged(bank_ref, dropped, slot as int),
                forall|j: int| 0 <= j < slot ==> #[trigger] self.sinks@[j] == (held[j] && !dropped[j]),
                forall|j: int| slot <= j < held.len() ==> #[trigger] self.sinks@[j] == held[j],
            decreases self.sinks@.len() - slot,
        {
            let drop = match only {
                None => true,
                Some(index) => index == slot,
            };
            if self.sinks[slot] && drop {
                silence.push(BankSampleRef { bank, sample: SampleRef { sample_index: slot } });
                self.sinks[slot] = false;
            }
            slot += 1;
        }
        assert(self.sinks@ =~= Seq::new(
            held.len(),
            |slot: int| held[slot] && !(only is None || only == Some(slot as usize)),
        ));
        silence
    }

    /// Drops every sink of the bank, which silences all that plays from it.
    /// Returns the sinks that were held, for the caller to drop.
    pub fn stop(&mut self) -> (silence: Vec<BankSampleRef>)
        requires
            old(self).wf(),
        ensures
            final(self).wf(),
            final(self).sound_bank() == old(self).sound_bank(),
            final(self)@ == old(self)@.stopped(),
            silence@ == old(self)@.held(),
    {
        let only: Option<usize> = None;
        let silence = self.discard(only);
        proof {
            let held = old(self)@.sinks;
            assert(Seq::new(
                held.len(),
                |slot: int| held[slot] && (only is None || only == Some(slot as usize)),
            ) =~= held);
            assert(self@.sinks =~= old(self)@.stopped().sinks);
        }
        silence
    }

    /// Prepares to play a sample: in a bank that is not polyphonic every
    /// sink is dropped, in a polyphonic bank that of the sample itself.
    /// Returns what is left for the caller to do: the sinks to drop and the
    /// sample to start. Once it has started, `started` records it.
    pub fn play(&mut self, sample_ref: SampleRef) -> (playback: Playback)
        requires
            old(self).wf(),
            sample_ref.sample_index < old(self)@.sample_count(),
        ensures
            final(self).wf(),
            final(self).sound_bank() == old(self).sound_bank(),
            final(self)@ == old(self)@.prepared(sample_ref.sample_index as int),
            playback@ == old(self)@.playback(sample_ref.sample_index as int),
    {
        let index = sample_ref.sample_index;
        let only = if self.sound_bank.config.poly {
            Some(index)
        } else {
            None
        };
        let silence = self.discard(only);
        proof {
            let before = old(self)@;
            assert(before.sinks.len() <= usize::MAX) by {
                assert(old(self).sinks@.len() == old(self).sinks.len());
            }
            assert(Seq::new(
                before.sinks.len(),
                |slot: int| before.sinks[slot] && (only is None || only == Some(slot as usize)),
            ) =~= Seq::new(before.sinks.len(), |slot: int| before.drops(index as int, slot)));
            assert(self@.sinks =~= before.prepared(index as int).sinks);
        }
        Playback {
            sample: BankSampleRef { bank: self.sound_bank.config.bank_ref, sample: sample_ref },
            silence,
        }
    }

    /// Records that a sample has started on a fresh sink: its sink is held
    /// and it is the sample played last. Returns its full reference.
    pub fn started(&mut self, sample_ref: SampleRef) -> (played: BankSampleRef)
        requires
            old(self).wf(),
            sample_ref.sample_index < old(self)@.sample_count(),
        ensures
            final(self).wf(),
            final(self).sound_bank() == old(self).sound_bank(),
            final(self)@ == old(self)@.started(sample_ref.sample_index as int),
            played == sample_at(old(self)@.bank_ref, sample_ref.sample_index as int),
    {
        self.sinks[sample_ref.sample_index] = true;
        self.last_played = Some(sample_ref);
        BankSampleRef { bank: self.sound_bank.config.bank_ref, sample: sample_ref }
    }

    /// The sample played last, if one has.
    pub fn last_played(&self) -> (last_played: Option<SampleRef>)
        ensures
            last_played == self@.last_played,
    {
        self.last_played
    }

    /// A uniformly random sample of the bank, if it has one.
    pub fn pick_random_sample(&self) -> (picked: Option<SampleRef>)
        requires
            self.wf(),
        ensures
            match picked {
                Some(sample_ref) => sample_ref.sample_index < self@.sample_count(),
                None => self@.sample_count() == 0,
            },
    {
        let sample_count = self.sound_bank.sample_count();
        if sample_count < 1 {
            None
        } else {
            let mut rng = thread_rng();
            let sample_index = random_index(&mut rng, sample_count);
            Some(SampleRef { sample_index })
        }
    }

    /// Prepares to play a uniformly random sample of the bank. In a bank
    /// without samples nothing happens.
    pub fn play_random(&mut self) -> (playback: Option<Playback>)
        requires
            old(self).wf(),
        ensures
            final(self).wf(),
            final(self).sound_bank() == old(self).sound_bank(),
            match playback {
                Some(playback) => {
                    let index = playback.sample.sample.sample_index as int;
                    &&& 0 <= index < old(self)@.sample_count()
                    &&& final(self)@ == old(self)@.prepared(index)
                    &&& playback@ == old(self)@.playback(index)
                },
                None => old(self)@.sample_count() == 0 && final(self)@ == old(self)@,
            },
    {
        match self.pick_random_sample() {
            None => None,
            Some(sample_ref) => Some(self.play(sample_ref)),
        }
    }

    /// Prepares to play the sample that lies `steps` from the one played
    /// last. In a bank without samples nothing happens.
    pub fn play_step(&mut self, steps: i32) -> (playback: Option<Playback>)
        requires
            old(self).wf(),
        ensures
            final(self).wf(),
            final(self).sound_bank() == old(self).sound_bank(),
            match step_index(
                old(self)@.sample_count(),
                sample_index(old(self)@.last_played),
                steps as int,
            ) {
                Some(index) => {
                    &&& 0 <= index < old(self)@.sample_count()
                    &&& final(self)@ == old(self)@.prepared(index)
                    &&& playback matches Some(playback) && playback@ == old(self)@.playback(index)
                },
                None => old(self)@.sample_count() == 0 && playback is None && final(self)@ == old(
                    self,
                )@,
            },
    {
        let sample_count = self.sound_bank.sample_count();
        proof {
            if sample_count >= 1 {
                lemma_step_in_bank(
                    sample_count as int,
                    sample_index(self@.last_played),
                    steps as int,
                );
            }
        }
        if let Some(sample_ref) = apply_steps(sample_count, self.last_played, steps) {
            Some(self.play(sample_ref))
        } else {
            None
        }
    }
}

/// In a bank that is not polyphonic, preparing to play a sample drops every
/// sink of the bank; in a polyphonic bank it leaves the sinks of all other
/// samples as they are. In either, the sink of the sample itself is dropped,
/// so that a sample that is played again starts afresh and never overlaps
/// itself.
pub proof fn lemma_play_discards(state: SoundBankStateView, index: int, other: int)
    requires
        0 <= index < state.sample_count(),
        0 <= other < state.sample_count(),
    ensures
        !state.prepared(index).sinks[index],
        !state.poly ==> !state.prepared(index).sinks[other],
        state.poly && other != index ==> state.prepared(index).sinks[other] == state.sinks[other],
        state.prepared(index).started(index).sinks[index],
        state.prepared(index).sinks.len() == state.sinks.len(),
{
}

/// The sinks that the caller is told to drop are exactly those that were
/// held and are no longer: a sample that was playing and is played again is
/// among them.
pub proof fn lemma_silenced_are_dropped(state: SoundBankStateView, index: int, slot: int)
    requires
        0 <= index < state.sample_count(),
        0 <= slot < state.sample_count(),
        state.sample_count() <= usize::MAX,
    ensures
        state.silenced(index).contains(sample_at(state.bank_ref, slot)) <==> state.sinks[slot]
            && !state.prepared(index).sinks[slot],
        state.sinks[index] ==> state.silenced(index).contains(sample_at(state.bank_ref, index)),
{
    let flags = Seq::new(state.sinks.len(), |slot: int| state.drops(index, slot));
    lemma_flagged(state.bank_ref, flags, state.sinks.len() as int, slot);
    lemma_flagged(state.bank_ref, flags, state.sinks.len() as int, index);
}

/// The flagged samples are those whose slot lies below the limit and carries
/// a flag.
pub proof fn lemma_flagged(bank_ref: BankRef, flags: Seq<bool>, limit: int, slot: int)
    requires
        0 <= slot <= usize::MAX,
        limit <= usize::MAX + 1,
    ensures
        flagged(bank_ref, flags, limit).contains(sample_at(bank_ref, slot)) <==> slot < limit
            && flags[slot],
    decreases limit,
{
    if limit > 0 {
        lemma_flagged(bank_ref, flags, limit - 1, slot);
        let earlier = flagged(bank_ref, flags, limit - 1);
        let wanted = sample_at(bank_ref, slot);
        if flags[limit - 1] {
            let all = earlier.push(sample_at(bank_ref, limit - 1));
            if slot == limit - 1 {
                assert(all[earlier.len() as int] == wanted);
            } else if earlier.contains(wanted) {
                let i = choose|i: int| 0 <= i < earlier.len() && earlier[i] == wanted;
                assert(all[i] == wanted);
            } else {
                assert(sample_at(bank_ref, limit - 1) != wanted);
                if all.contains(wanted) {
                    let i = choose|i: int| 0 <= i < all.len() && all[i] == wanted;
                    assert(earlier[i] == wanted);
                }
            }
        }
    }
}

} // verus!
