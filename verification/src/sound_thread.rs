//! The audio engine: what a pressed switch does to the banks.
//!
//! The worker that owns the audio device runs the loop: it receives an
//! operation, asks the engine here what to do, does it, and reports how it
//! went. The engine decides. It keeps the playback state of every bank and
//! works through the actions of a switch in their fixed order, each on its
//! own: an action whose sample cannot be started is given up and the next
//! one is carried out. Only a sample that cannot be announced ends the
//! actions of its switch.

use crate::config::views;
use crate::config::BankSampleRef;
use crate::config::Config;
use crate::config::SampleRef;
use crate::config::SwitchConfigView;
use crate::config::SwitchRef;
use crate::error::SampleNotFoundError;
use crate::sample_loader::first_missing;
use crate::sample_loader::SampleLoader;
use crate::sound_bank::lemma_step_in_bank;
use crate::sound_bank::sample_at;
use crate::sound_bank::sample_index;
use crate::sound_bank::step_index;
use crate::sound_bank::SoundBank;
use crate::sound_bank::SoundBankState;
use crate::sound_bank::SoundBankStateView;
use std::sync::mpsc::SendError;
use std::sync::mpsc::Sender;
use vstd::prelude::*;

verus! {

/// What the audio worker is asked to do.
#[derive(Debug, Copy, Clone, PartialEq, Eq, Structural)]
pub enum Operation {
    Stop,
    SwitchPressed { switch_ref: SwitchRef },
}

/// What the audio worker announces.
#[derive(Debug, Copy, Clone, PartialEq, Eq, Structural)]
pub enum SoundThreadEvent {
    PlayedSample(BankSampleRef),
}

/// `std::sync::mpsc::Sender`, the sending half of a queue: carried through,
/// nothing is known of what is inside.
#[verifier::external_type_specification]
#[verifier::external_body]
#[verifier::reject_recursive_types(T)]
pub struct ExSender<T>(Sender<T>);

/// An operation that could not be submitted because the audio worker has
/// gone.
#[derive(Debug, Copy, Clone, PartialEq, Eq, Structural)]
pub struct SendOperationError {
    /// The operation, given back.
    pub operation: Operation,
}

impl Operation {
    /// The operation of a pressed switch.
    pub fn switch_pressed(switch_ref: SwitchRef) -> (operation: Operation)
        ensures
            operation == (Operation::SwitchPressed { switch_ref }),
    {
        Operation::SwitchPressed { switch_ref }
    }
}

/// Puts an operation on the queue of the audio worker with
/// `std::sync::mpsc::Sender::send`, which neither blocks nor panics. The
/// send fails once the worker has gone, and its error then gives back the
/// value that was to be sent: that is all that is claimed of the result.
#[verifier::external_body]
fn send_operation(sender: &Sender<Operation>, operation: Operation) -> (result: Result<
    (),
    SendOperationError,
>)
    ensures
        result matches Err(error) ==> error.operation == operation,
{
    match sender.send(operation) {
        Ok(()) => Ok(()),
        Err(SendError(operation)) => Err(SendOperationError { operation }),
    }
}

/// A handle by which other threads submit operations to the audio worker.
pub struct SoundThreadRpc {
    operation_sender: Sender<Operation>,
}

impl SoundThreadRpc {
    /// A handle that submits operations on the given sending half of the
    /// queue of the audio worker.
    pub fn new(operation_sender: Sender<Operation>) -> (rpc: Self)
        ensures
            rpc.operation_sender() == operation_sender,
    {
        SoundThreadRpc { operation_sender }
    }

    /// Submits the operation of a pressed switch: hands
    /// `SwitchPressed { switch_ref }` to the queue of the audio worker. Fails
    /// when the worker has gone, and then gives the operation back.
    pub fn switch_pressed(&self, switch_ref: SwitchRef) -> (result: Result<(), SendOperationError>)
        ensures
            result matches Err(error) ==> error.operation == (Operation::SwitchPressed {
                switch_ref,
            }),
    {
        send_operation(&self.operation_sender, Operation::switch_pressed(switch_ref))
    }

    /// The sending half of the queue on which the handle submits operations.
    pub closed spec fn operation_sender(&self) -> Sender<Operation> {
        self.operation_sender
    }
}

/// One of the three actions that a switch can carry, in the order in which
/// they are carried out.
#[derive(Debug, Copy, Clone, PartialEq, Eq, Structural)]
pub enum Stage {
    Play,
    PlayRandom,
    PlayStep,
}

impl Stage {
    /// The place of the action in the order of actions.
    pub open spec fn spec_rank(self) -> int {
        match self {
            Stage::Play => 0,
            Stage::PlayRandom => 1,
            Stage::PlayStep => 2,
        }
    }

    fn rank(self) -> (rank: u8)
        ensures
            rank == self.spec_rank(),
    {
        match self {
            Stage::Play => 0,
            Stage::PlayRandom => 1,
            Stage::PlayStep => 2,
        }
    }
}

/// A sample that the worker was told to start, and the action of the switch
/// that asked for it.
#[derive(Debug, Copy, Clone, PartialEq, Eq, Structural)]
pub struct Pending {
    pub switch_ref: SwitchRef,
    pub stage: Stage,
    pub sample: BankSampleRef,
}

/// How starting a sample went.
#[derive(Debug, Copy, Clone, PartialEq, Eq, Structural)]
pub enum StartOutcome {
    /// The sample plays on a fresh sink and its event was sent.
    Started,
    /// No sink could be acquired: the sample does not play, and its action
    /// is given up.
    SinkFailed,
    /// The sample plays on a fresh sink, but its event could not be sent.
    EventFailed,
}

/// What the worker does after the sinks of a step are dropped.
#[derive(Debug, Copy, Clone, PartialEq, Eq, Structural)]
pub enum Next {
    /// Wait for the next operation.
    Receive,
    /// Leave the loop.
    Exit,
    /// Acquire a fresh sink, start the sample on it, send the event that the
    /// sample was played, and report how that went.
    Start(BankSampleRef),
}

/// What the worker is to do: drop the sinks of `silence`, then `next`.
#[derive(Debug, PartialEq, Eq)]
pub struct Step {
    pub silence: Vec<BankSampleRef>,
    pub next: Next,
}

pub struct StepView {
    pub silence: Seq<BankSampleRef>,
    pub next: Next,
}

impl View for Step {
    type V = StepView;

    open spec fn view(&self) -> StepView {
        StepView { silence: self.silence@, next: self.next }
    }
}

/// The state of the engine: the switches, the playback state of each bank,
/// and the sample that the worker was told to start and has not reported on.
pub struct SoundThreadBodyView {
    pub switches: Seq<SwitchConfigView>,
    pub banks: Seq<SoundBankStateView>,
    pub pending: Option<Pending>,
}

impl SoundThreadBodyView {
    /// Whether a sample reference points at a sample of the banks.
    pub open spec fn has_sample(self, sample: BankSampleRef) -> bool {
        &&& sample.bank.bank_index < self.banks.len()
        &&& sample.sample.sample_index < self.banks[sample.bank.bank_index as int].sample_count()
    }

    /// Every bank stands at the place that its reference names, the actions
    /// of every switch point into the banks, and so does what is pending.
    pub open spec fn wf(self) -> bool {
        &&& forall|b: int|
            0 <= b < self.banks.len() ==> (#[trigger] self.banks[b]).bank_ref.bank_index == b
        &&& forall|i: int|
            0 <= i < self.switches.len() ==> {
                let switch = #[trigger] self.switches[i];
                &&& switch.play matches Some(play) ==> self.has_sample(play.bank_sample_ref)
                &&& switch.play_random matches Some(play) ==> play.bank_ref.bank_index
                    < self.banks.len()
                &&& switch.play_step matches Some(play) ==> play.bank_ref.bank_index
                    < self.banks.len()
            }
        &&& self.pending matches Some(pending) ==> {
            &&& pending.switch_ref.switch_index < self.switches.len()
            &&& self.has_sample(pending.sample)
        }
    }

    /// The sinks that are held in the first `limit` banks, bank by bank.
    pub open spec fn held(self, limit: int) -> Seq<BankSampleRef>
        decreases limit,
    {
        if limit <= 0 {
            Seq::empty()
        } else {
            self.held(limit - 1) + self.banks[limit - 1].held()
        }
    }

    /// The state once every sink of every bank is dropped.
    pub open spec fn stopped(self) -> SoundThreadBodyView {
        SoundThreadBodyView {
            banks: Seq::new(self.banks.len(), |b: int| self.banks[b].stopped()),
            ..self
        }
    }

    /// Whether `draw` can be the sample that a random action of the switch
    /// picks: an index of the bank, where the bank has a sample.
    pub open spec fn draw_fits(self, switch_ref: SwitchRef, draw: int) -> bool {
        match self.switches[switch_ref.switch_index as int].play_random {
            Some(play) => {
                let count = self.banks[play.bank_ref.bank_index as int].sample_count();
                count > 0 ==> 0 <= draw < count
            },
            None => true,
        }
    }

    /// The state and the step when the sample is to start for an action of
    /// the switch, after the sinks of `silence`: the bank of the sample
    /// prepares to play it, and the sample is pending.
    pub open spec fn start(
        self,
        switch_ref: SwitchRef,
        stage: Stage,
        sample: BankSampleRef,
        silence: Seq<BankSampleRef>,
    ) -> (SoundThreadBodyView, StepView) {
        let b = sample.bank.bank_index as int;
        let index = sample.sample.sample_index as int;
        (
            SoundThreadBodyView {
                banks: self.banks.update(b, self.banks[b].prepared(index)),
                pending: Some(Pending { switch_ref, stage, sample }),
                ..self
            },
            StepView { silence: silence + self.banks[b].silenced(index), next: Next::Start(sample) },
        )
    }

    /// The state and the step when the actions of a switch are carried on
    /// from the one of rank `from`: the first action from there on that the
    /// switch has and that selects a sample is started; the exact sample
    /// first, then a random sample, which is `draw`, then a sample by step.
    /// A random sample or a step in a bank without samples selects none and
    /// is passed over. With no action left the worker waits for the next
    /// operation.
    pub open spec fn run(
        self,
        switch_ref: SwitchRef,
        from: int,
        silence: Seq<BankSampleRef>,
        draw: int,
    ) -> (SoundThreadBodyView, StepView) {
        let switch = self.switches[switch_ref.switch_index as int];
        if from <= 0 && switch.play is Some {
            self.start(switch_ref, Stage::Play, switch.play->0.bank_sample_ref, silence)
        } else if from <= 1 && switch.play_random is Some
            && self.banks[switch.play_random->0.bank_ref.bank_index as int].sample_count() > 0 {
            self.start(
                switch_ref,
                Stage::PlayRandom,
                sample_at(switch.play_random->0.bank_ref, draw),
                silence,
            )
        } else if from <= 2 && switch.play_step is Some && self.stepped(switch_ref) is Some {
            self.start(switch_ref, Stage::PlayStep, self.stepped(switch_ref)->0, silence)
        } else {
            (SoundThreadBodyView { pending: None, ..self }, StepView { silence, next: Next::Receive })
        }
    }

    /// The sample that the step action of a switch selects.
    pub open spec fn stepped(self, switch_ref: SwitchRef) -> Option<BankSampleRef> {
        let play = self.switches[switch_ref.switch_index as int].play_step->0;
        let bank = self.banks[play.bank_ref.bank_index as int];
        match step_index(bank.sample_count(), sample_index(bank.last_played), play.steps as int) {
            Some(index) => Some(sample_at(play.bank_ref, index)),
            None => None,
        }
    }

    /// The state and the step when a switch is pressed: where the switch
    /// stops the sounds, every sink of every bank is dropped; then its
    /// actions are carried out from the first.
    pub open spec fn pressed(self, switch_ref: SwitchRef, draw: int) -> (
        SoundThreadBodyView,
        StepView,
    ) {
        if self.switches[switch_ref.switch_index as int].stop_sounds {
            self.stopped().run(switch_ref, 0, self.held(self.banks.len() as int), draw)
        } else {
            self.run(switch_ref, 0, Seq::empty(), draw)
        }
    }

    /// The state and the step when an operation is received. A sample that
    /// is still pending then is given up.
    pub open spec fn handled(self, operation: Operation, draw: int) -> (
        SoundThreadBodyView,
        StepView,
    ) {
        match operation {
            Operation::Stop => (
                SoundThreadBodyView { pending: None, ..self },
                StepView { silence: Seq::empty(), next: Next::Exit },
            ),
            Operation::SwitchPressed { switch_ref } => self.pressed(switch_ref, draw),
        }
    }

    /// The state and the step when the worker reports how starting the
    /// pending sample went. A sample that has started is recorded by its
    /// bank, and the actions of the switch are carried on after the one that
    /// asked for it. A sample that could not be started is given up alone:
    /// its bank records nothing, and the actions of the switch are carried on
    /// all the same. A sample that plays but whose event could not be sent
    /// ends the actions of the switch. With nothing pending nothing changes.
    pub open spec fn resumed(self, outcome: StartOutcome, draw: int) -> (
        SoundThreadBodyView,
        StepView,
    ) {
        match self.pending {
            None => (self, StepView { silence: Seq::empty(), next: Next::Receive }),
            Some(pending) => {
                let b = pending.sample.bank.bank_index as int;
                let index = pending.sample.sample.sample_index as int;
                let playing = SoundThreadBodyView {
                    banks: self.banks.update(b, self.banks[b].started(index)),
                    pending: None,
                    ..self
                };
                match outcome {
                    StartOutcome::SinkFailed => (SoundThreadBodyView { pending: None, ..self }).run(
                        pending.switch_ref,
                        pending.stage.spec_rank() + 1,
                        Seq::empty(),
                        draw,
                    ),
                    StartOutcome::EventFailed => (
                        playing,
                        StepView { silence: Seq::empty(), next: Next::Receive },
                    ),
                    StartOutcome::Started => playing.run(
                        pending.switch_ref,
                        pending.stage.spec_rank() + 1,
                        Seq::empty(),
                        draw,
                    ),
                }
            },
        }
    }
}

/// The engine of the audio worker.
pub struct SoundThreadBody {
    config: Config,
    banks: Vec<SoundBankState>,
    pending: Option<Pending>,
}

impl View for SoundThreadBody {
    type V = SoundThreadBodyView;

    closed spec fn view(&self) -> SoundThreadBodyView {
        SoundThreadBodyView {
            switches: self.config@.switches,
            banks: views(self.banks@),
            pending: self.pending,
        }
    }
}

impl SoundThreadBody {
    /// The configuration is resolved, there is the state of one bank for
    /// each bank of it, and what is pending points into them.
    pub closed spec fn wf(&self) -> bool {
        &&& self.config.wf()
        &&& self.banks@.len() == self.config@.banks.len()
        &&& forall|b: int|
            0 <= b < self.banks@.len() ==> {
                &&& (#[trigger] self.banks@[b]).wf()
                &&& self.banks@[b]@.bank_ref == self.config@.banks[b].bank_ref
                &&& self.banks@[b]@.sample_count() == self.config@.banks[b].samples.len()
            }
        &&& self@.wf()
    }

    /// The configuration of the engine, which never changes.
    pub closed spec fn config_of(&self) -> Config {
        self.config
    }

    /// The banks of the engine with their loaded samples, which never
    /// change.
    pub closed spec fn sound_banks(&self) -> Seq<SoundBank> {
        Seq::new(self.banks@.len(), |b: int| self.banks@[b].sound_bank())
    }

    /// What a well-formed engine shows: its state is well-formed, its
    /// switches are those of its configuration, and it has the state of one
    /// bank for each bank of the configuration, with as many sink slots as
    /// the bank has samples.
    pub proof fn lemma_wf(&self)
        requires
            self.wf(),
        ensures
            self@.wf(),
            self.config_of().wf(),
            self@.switches == self.config_of()@.switches,
            self@.banks.len() == self.config_of()@.banks.len(),
            self.sound_banks().len() == self@.banks.len(),
            forall|b: int|
                0 <= b < self@.banks.len() ==> {
                    &&& (#[trigger] self@.banks[b]).bank_ref == self.config_of()@.banks[b].bank_ref
                    &&& self@.banks[b].sample_count() == self.config_of()@.banks[b].samples.len()
                },
    {
    }
}

/// A state with the switches of a well-formed one, and with banks at the
/// same places and of the same sizes, is well-formed if what is pending in
/// it points into the banks.
proof fn lemma_reshaped_wf(before: SoundThreadBodyView, after: SoundThreadBodyView)
    requires
        before.wf(),
        after.switches == before.switches,
        after.banks.len() == before.banks.len(),
        forall|b: int|
            0 <= b < before.banks.len() ==> {
                &&& (#[trigger] after.banks[b]).bank_ref == before.banks[b].bank_ref
                &&& after.banks[b].sample_count() == before.banks[b].sample_count()
            },
        after.pending matches Some(pending) ==> {
            &&& pending.switch_ref.switch_index < after.switches.len()
            &&& after.has_sample(pending.sample)
        },
    ensures
        after.wf(),
{
    assert forall|i: int| 0 <= i < after.switches.len() implies {
        let switch = #[trigger] after.switches[i];
        &&& switch.play matches Some(play) ==> after.has_sample(play.bank_sample_ref)
        &&& switch.play_random matches Some(play) ==> play.bank_ref.bank_index < after.banks.len()
        &&& switch.play_step matches Some(play) ==> play.bank_ref.bank_index < after.banks.len()
    } by {
        let switch = before.switches[i];
        if let Some(play) = switch.play {
            assert(before.has_sample(play.bank_sample_ref));
        }
    }
}

impl SoundThreadBody {
    /// The engine for a resolved configuration, with the samples that the
    /// loader holds: nothing plays and nothing is pending. Fails where a
    /// sample of the configuration is not loaded.
    pub fn new<L: SampleLoader>(config: Config, loader: &L) -> (result: Result<
        Self,
        SampleNotFoundError,
    >)
        requires
            config.wf(),
        ensures
            match result {
                Ok(body) => {
                    &&& body.wf()
                    &&& body@.wf()
                    &&& body.config_of() == config
                    &&& body.sound_banks().len() == config@.banks.len()
                    &&& forall|b: int|
                        0 <= b < config@.banks.len() ==> (#[trigger] body.sound_banks()[b]).made_of(
                            loader.keys(),
                            config@.banks[b],
                        )
                    &&& body@.switches == config@.switches
                    &&& body@.pending is None
                    &&& body@.banks.len() == config@.banks.len()
                    &&& forall|b: int|
                        0 <= b < config@.banks.len() ==> {
                            &&& #[trigger] body@.banks[b] == (SoundBankStateView {
                                bank_ref: config@.banks[b].bank_ref,
                                poly: config@.banks[b].poly,
                                sinks: Seq::new(config@.banks[b].samples.len(), |slot: int| false),
                                last_played: None,
                            })
                            &&& first_missing(loader.keys(), config@.banks[b].samples) is None
                        }
                },
                Err(_) => exists|b: int|
                    0 <= b < config@.banks.len() && first_missing(
                        loader.keys(),
                        (#[trigger] config@.banks[b]).samples,
                    ) is Some,
            },
    {
        let sound_banks = match SoundBank::new_all(loader, &config.banks) {
            Ok(sound_banks) => sound_banks,
            Err(error) => {
                proof {
                    let b = choose|b: int|
                        0 <= b < config.banks@.len() && first_missing(
                            loader.keys(),
                            (#[trigger] config.banks@[b])@.samples,
                        ) is Some;
                    assert(config@.banks[b] == config.banks@[b]@);
                }
                return Err(error);
            },
        };
        let ghost made = sound_banks@;
        let banks = SoundBankState::new_all(sound_banks);
        let body = SoundThreadBody { config, banks, pending: None };
        proof {
            assert forall|b: int| 0 <= b < body.banks@.len() implies {
                &&& (#[trigger] body.banks@[b]).wf()
                &&& body.banks@[b]@.bank_ref == body.config@.banks[b].bank_ref
                &&& body.banks@[b]@.sample_count() == body.config@.banks[b].samples.len()
            } by {
                assert(made[b].made_of(loader.keys(), body.config.banks@[b]@));
            }
            assert forall|b: int| 0 <= b < body.config@.banks.len() implies {
                &&& #[trigger] body@.banks[b] == (SoundBankStateView {
                    bank_ref: body.config@.banks[b].bank_ref,
                    poly: body.config@.banks[b].poly,
                    sinks: Seq::new(body.config@.banks[b].samples.len(), |slot: int| false),
                    last_played: None,
                })
                &&& first_missing(loader.keys(), body.config@.banks[b].samples) is None
            } by {
                assert(made[b].made_of(loader.keys(), body.config.banks@[b]@));
                assert(body.banks@[b]@.sinks =~= Seq::new(
                    body.config@.banks[b].samples.len(),
                    |slot: int| false,
                ));
            }
            assert forall|i: int| 0 <= i < body@.switches.len() implies {
                let switch = #[trigger] body@.switches[i];
                &&& switch.play matches Some(play) ==> body@.has_sample(play.bank_sample_ref)
                &&& switch.play_random matches Some(play) ==> play.bank_ref.bank_index
                    < body@.banks.len()
                &&& switch.play_step matches Some(play) ==> play.bank_ref.bank_index
                    < body@.banks.len()
            } by {
                assert(crate::config::switch_refs_valid(
                    body.config@.banks,
                    body.config@.switches[i],
                    i,
                ));
            }
        }
        Ok(body)
    }

    /// The configuration of the engine.
    pub fn config(&self) -> (config: &Config)
        requires
            self.wf(),
        ensures
            *config == self.config_of(),
            config.wf(),
            config@.switches == self@.switches,
    {
        &self.config
    }

    /// The sample that the worker was told to start and has not reported on.
    pub fn pending(&self) -> (pending: Option<Pending>)
        ensures
            pending == self@.pending,
    {
        self.pending
    }

    /// Has the bank of the sample prepare to play it, and tells the worker to
    /// start it.
    fn start(
        &mut self,
        switch_ref: SwitchRef,
        stage: Stage,
        sample: BankSampleRef,
        silence: Vec<BankSampleRef>,
    ) -> (step: Step)
        requires
            old(self).wf(),
            switch_ref.switch_index < old(self)@.switches.len(),
            old(self)@.has_sample(sample),
        ensures
            final(self).wf(),
            final(self)@.wf(),
            final(self).config_of() == old(self).config_of(),
            final(self).sound_banks() == old(self).sound_banks(),
            final(self)@ == old(self)@.start(switch_ref, stage, sample, silence@).0,
            step@ == old(self)@.start(switch_ref, stage, sample, silence@).1,
    {
        let ghost before = self@;
        let mut silence = silence;
        let mut playback = self.banks[sample.bank.bank_index].play(sample.sample);
        silence.append(&mut playback.silence);
        self.pending = Some(Pending { switch_ref, stage, sample });
        proof {
            let b = sample.bank.bank_index as int;
            let index = sample.sample.sample_index as int;
            assert(self@.banks =~= before.banks.update(b, before.banks[b].prepared(index)));
            assert(self.sound_banks() =~= old(self).sound_banks());
            lemma_reshaped_wf(before, self@);
        }
        Step { silence, next: Next::Start(sample) }
    }

    /// Carries the actions of a switch on from the one of rank `from`.
    fn run(&mut self, switch_ref: SwitchRef, from: u8, silence: Vec<BankSampleRef>, draw: usize) -> (step:
        Step)
        requires
            old(self).wf(),
            switch_ref.switch_index < old(self)@.switches.len(),
            old(self)@.draw_fits(switch_ref, draw as int),
        ensures
            final(self).wf(),
            final(self)@.wf(),
            final(self).config_of() == old(self).config_of(),
            final(self).sound_banks() == old(self).sound_banks(),
            final(self)@ == old(self)@.run(switch_ref, from as int, silence@, draw as int).0,
            step@ == old(self)@.run(switch_ref, from as int, silence@, draw as int).1,
    {
        let switch = &self.config.switches[switch_ref.switch_index];
        let play = match &switch.play {
            Some(play) => Some(play.bank_sample_ref),
            None => None,
        };
        let play_random = match &switch.play_random {
            Some(play) => Some(play.bank_ref),
            None => None,
        };
        let play_step = match &switch.play_step {
            Some(play) => Some((play.bank_ref, play.steps)),
            None => None,
        };
        proof {
            assert(self@.switches[switch_ref.switch_index as int]
                == self.config.switches@[switch_ref.switch_index as int]@);
        }
        if from == 0 {
            if let Some(sample) = play {
                return self.start(switch_ref, Stage::Play, sample, silence);
            }
        }
        if from <= 1 {
            if let Some(bank_ref) = play_random {
                if self.banks[bank_ref.bank_index].sample_count() > 0 {
                    let sample = BankSampleRef {
                        bank: bank_ref,
                        sample: SampleRef { sample_index: draw },
                    };
                    return self.start(switch_ref, Stage::PlayRandom, sample, silence);
                }
            }
        }
        if from <= 2 {
            if let Some((bank_ref, steps)) = play_step {
                let bank = &self.banks[bank_ref.bank_index];
                let sample_count = bank.sample_count();
                proof {
                    if sample_count >= 1 {
                        lemma_step_in_bank(
                            sample_count as int,
                            sample_index(bank@.last_played),
                            steps as int,
                        );
                    }
                }
                if let Some(sample_ref) = crate::sound_bank::apply_steps(
                    sample_count,
                    bank.last_played(),
                    steps,
                ) {
                    let sample = BankSampleRef { bank: bank_ref, sample: sample_ref };
                    return self.start(switch_ref, Stage::PlayStep, sample, silence);
                }
            }
        }
        self.pending = None;
        Step { silence, next: Next::Receive }
    }

    /// A sample that a random action of the switch may pick.
    fn draw(&self, switch_ref: SwitchRef) -> (draw: usize)
        requires
            self.wf(),
            switch_ref.switch_index < self@.switches.len(),
        ensures
            self@.draw_fits(switch_ref, draw as int),
    {
        proof {
            assert(self@.switches[switch_ref.switch_index as int]
                == self.config.switches@[switch_ref.switch_index as int]@);
        }
        match &self.config.switches[switch_ref.switch_index].play_random {
            Some(play) => match self.banks[play.bank_ref.bank_index].pick_random_sample() {
                Some(sample_ref) => sample_ref.sample_index,
                None => 0,
            },
            None => 0,
        }
    }

    /// Handles a pressed switch whose random action, if it has one, picks
    /// the sample `draw`: stops the sounds if the switch says so, then
    /// carries out its actions from the first.
    pub fn handle_operation_switch_pressed(&mut self, switch_ref: SwitchRef, draw: usize) -> (step:
        Step)
        requires
            old(self).wf(),
            switch_ref.switch_index < old(self)@.switches.len(),
            old(self)@.draw_fits(switch_ref, draw as int),
        ensures
            final(self).wf(),
            final(self)@.wf(),
            final(self).config_of() == old(self).config_of(),
            final(self).sound_banks() == old(self).sound_banks(),
            final(self)@ == old(self)@.pressed(switch_ref, draw as int).0,
            step@ == old(self)@.pressed(switch_ref, draw as int).1,
    {
        let ghost before = self@;
        proof {
            assert(self@.switches[switch_ref.switch_index as int]
                == self.config.switches@[switch_ref.switch_index as int]@);
        }
        let mut silence: Vec<BankSampleRef> = Vec::new();
        if self.config.switches[switch_ref.switch_index].stop_sounds {
            let mut bank_index: usize = 0;
            while bank_index < self.banks.len()
                invariant
                    bank_index <= self.banks@.len(),
                    self.banks@.len() == before.banks.len(),
                    before == old(self)@,
                    before.wf(),
                    self.config == old(self).config,
                    self.pending == old(self).pending,
                    self.config.wf(),
                    self.banks@.len() == self.config@.banks.len(),
                    silence@ == before.held(bank_index as int),
                    forall|b: int|
                        0 <= b < self.banks@.len() ==> {
                            &&& (#[trigger] self.banks@[b]).wf()
                            &&& self.banks@[b]@.bank_ref == self.config@.banks[b].bank_ref
                            &&& self.banks@[b]@.sample_count() == self.config@.banks[b].samples.len()
                        },
                    forall|b: int|
                        0 <= b < bank_index ==> (#[trigger] self.banks@[b])@
                            == before.banks[b].stopped(),
                    forall|b: int|
                        bank_index <= b < self.banks@.len() ==> (#[trigger] self.banks@[b])@
                            == before.banks[b],
                    forall|b: int|
                        0 <= b < self.banks@.len() ==> (#[trigger] self.banks@[b]).sound_bank()
                            == old(self).banks@[b].sound_bank(),
                decreases self.banks@.len() - bank_index,
            {
                let mut dropped = self.banks[bank_index].stop();
                silence.append(&mut dropped);
                bank_index += 1;
            }
            proof {
                assert(self@.banks =~= before.stopped().banks);
                assert(self@ == before.stopped());
                assert(self.sound_banks() =~= old(self).sound_banks());
                lemma_reshaped_wf(before, self@);
            }
        }
        self.run(switch_ref, 0, silence, draw)
    }

    /// Handles an operation whose random action, if it has one, picks the
    /// sample `draw`.
    pub fn handle_operation_drawn(&mut self, operation: Operation, draw: usize) -> (step: Step)
        requires
            old(self).wf(),
            operation matches Operation::SwitchPressed { switch_ref } ==> {
                &&& switch_ref.switch_index < old(self)@.switches.len()
                &&& old(self)@.draw_fits(switch_ref, draw as int)
            },
        ensures
            final(self).wf(),
            final(self)@.wf(),
            final(self).config_of() == old(self).config_of(),
            final(self).sound_banks() == old(self).sound_banks(),
            final(self)@ == old(self)@.handled(operation, draw as int).0,
            step@ == old(self)@.handled(operation, draw as int).1,
    {
        match operation {
            Operation::Stop => {
                self.pending = None;
                Step { silence: Vec::new(), next: Next::Exit }
            },
            Operation::SwitchPressed { switch_ref } => {
                self.handle_operation_switch_pressed(switch_ref, draw)
            },
        }
    }

    /// Handles an operation: says what the worker is to do for it. A random
    /// action picks its sample uniformly among the samples of its bank.
    pub fn handle_operation(&mut self, operation: Operation) -> (step: Step)
        requires
            old(self).wf(),
            operation matches Operation::SwitchPressed { switch_ref } ==> switch_ref.switch_index
                < old(self)@.switches.len(),
        ensures
            final(self).wf(),
            final(self)@.wf(),
            final(self).config_of() == old(self).config_of(),
            final(self).sound_banks() == old(self).sound_banks(),
            exists|draw: int|
                {
                    &&& operation matches Operation::SwitchPressed { switch_ref } ==> old(
                        self,
                    )@.draw_fits(switch_ref, draw)
                    &&& final(self)@ == (#[trigger] old(self)@.handled(operation, draw)).0
                    &&& step@ == old(self)@.handled(operation, draw).1
                },
    {
        let draw = match operation {
            Operation::SwitchPressed { switch_ref } => self.draw(switch_ref),
            Operation::Stop => 0,
        };
        let step = self.handle_operation_drawn(operation, draw);
        proof {
            let witness = draw as int;
            assert(self@ == old(self)@.handled(operation, witness).0);
        }
        step
    }

    /// Takes the report of how starting the pending sample went, where the
    /// random action of the switch, if it is still to come, picks the sample
    /// `draw`.
    pub fn resume_drawn(&mut self, outcome: StartOutcome, draw: usize) -> (step: Step)
        requires
            old(self).wf(),
            old(self)@.pending matches Some(pending) ==> old(self)@.draw_fits(
                pending.switch_ref,
                draw as int,
            ),
        ensures
            final(self).wf(),
            final(self)@.wf(),
            final(self).config_of() == old(self).config_of(),
            final(self).sound_banks() == old(self).sound_banks(),
            final(self)@ == old(self)@.resumed(outcome, draw as int).0,
            step@ == old(self)@.resumed(outcome, draw as int).1,
    {
        let pending = match self.pending {
            Some(pending) => pending,
            None => {
                return Step { silence: Vec::new(), next: Next::Receive };
            },
        };
        let ghost before = self@;
        match outcome {
            StartOutcome::SinkFailed => {
                // the action is given up and the next one is carried out
                self.pending = None;
                proof {
                    lemma_reshaped_wf(before, self@);
                }
                self.run(pending.switch_ref, pending.stage.rank() + 1, Vec::new(), draw)
            },
            StartOutcome::EventFailed => {
                self.record_started(pending);
                Step { silence: Vec::new(), next: Next::Receive }
            },
            StartOutcome::Started => {
                self.record_started(pending);
                self.run(pending.switch_ref, pending.stage.rank() + 1, Vec::new(), draw)
            },
        }
    }

    /// Records that the pending sample has started: its bank holds its sink
    /// and has it as the sample played last, and nothing is pending.
    fn record_started(&mut self, pending: Pending)
        requires
            old(self).wf(),
            old(self)@.pending == Some(pending),
        ensures
            final(self).wf(),
            final(self)@.wf(),
            final(self).config_of() == old(self).config_of(),
            final(self).sound_banks() == old(self).sound_banks(),
            final(self)@ == (SoundThreadBodyView {
                banks: old(self)@.banks.update(
                    pending.sample.bank.bank_index as int,
                    old(self)@.banks[pending.sample.bank.bank_index as int].started(
                        pending.sample.sample.sample_index as int,
                    ),
                ),
                pending: None,
                ..old(self)@
            }),
    {
        let ghost before = self@;
        self.banks[pending.sample.bank.bank_index].started(pending.sample.sample);
        self.pending = None;
        proof {
            let b = pending.sample.bank.bank_index as int;
            let index = pending.sample.sample.sample_index as int;
            assert(self@.banks =~= before.banks.update(b, before.banks[b].started(index)));
            assert(self.sound_banks() =~= old(self).sound_banks());
            lemma_reshaped_wf(before, self@);
        }
    }

    /// Takes the report of how starting the pending sample went: says what
    /// the worker is to do next.
    pub fn resume(&mut self, outcome: StartOutcome) -> (step: Step)
        requires
            old(self).wf(),
        ensures
            final(self).wf(),
            final(self)@.wf(),
            final(self).config_of() == old(self).config_of(),
            final(self).sound_banks() == old(self).sound_banks(),
            exists|draw: int|
                {
                    &&& old(self)@.pending matches Some(pending) ==> old(self)@.draw_fits(
                        pending.switch_ref,
                        draw,
                    )
                    &&& final(self)@ == (#[trigger] old(self)@.resumed(outcome, draw)).0
                    &&& step@ == old(self)@.resumed(outcome, draw).1
                },
    {
        let draw = match self.pending {
            Some(pending) => self.draw(pending.switch_ref),
            None => 0,
        };
        let step = self.resume_drawn(outcome, draw);
        proof {
            let witness = draw as int;
            assert(self@ == old(self)@.resumed(outcome, witness).0);
        }
        step
    }
}

/// A stop operation ends the worker in every state: the worker is told to
/// leave its loop, nothing stays pending, and the banks are as they were.
pub proof fn lemma_stop_ends_worker(state: SoundThreadBodyView, draw: int)
    ensures
        state.handled(Operation::Stop, draw).1.next == Next::Exit,
        state.handled(Operation::Stop, draw).0.pending is None,
        state.handled(Operation::Stop, draw).0.banks == state.banks,
{
}

/// A switch that only plays a random sample or a step, in banks without
/// samples, starts nothing and changes nothing: the worker goes back to
/// waiting.
pub proof fn lemma_empty_banks_start_nothing(state: SoundThreadBodyView, switch_ref: SwitchRef, draw: int)
    requires
        switch_ref.switch_index < state.switches.len(),
        ({
            let switch = state.switches[switch_ref.switch_index as int];
            &&& !switch.stop_sounds
            &&& switch.play is None
            &&& switch.play_random matches Some(play) ==> state.banks[play.bank_ref.bank_index as int].sample_count()
                == 0
            &&& switch.play_step matches Some(play) ==> state.banks[play.bank_ref.bank_index as int].sample_count()
                == 0
        }),
    ensures
        state.pressed(switch_ref, draw).1 == (StepView {
            silence: Seq::empty(),
            next: Next::Receive,
        }),
        state.pressed(switch_ref, draw).0 == (SoundThreadBodyView { pending: None, ..state }),
{
}

/// The worker is told to start a sample exactly when that sample is left
/// pending, and it is told to drop no sink that was not held.
pub proof fn lemma_started_sample_is_pending(state: SoundThreadBodyView, operation: Operation, draw: int)
    ensures
        state.handled(operation, draw).1.next matches Next::Start(sample) ==> state.handled(
            operation,
            draw,
        ).0.pending matches Some(pending) && pending.sample == sample,
        state.handled(operation, draw).0.pending matches Some(pending) ==> state.handled(
            operation,
            draw,
        ).1.next == Next::Start(pending.sample),
{
}

/// A sample that cannot be started is given up alone: the actions of the
/// switch that come after it are carried out as if nothing had been pending,
/// and its bank records no sink and no sample played last for it.
pub proof fn lemma_refused_sink_abandons_one_action(state: SoundThreadBodyView, draw: int)
    requires
        state.pending is Some,
    ensures
        state.resumed(StartOutcome::SinkFailed, draw) == (SoundThreadBodyView {
            pending: None,
            ..state
        }).run(state.pending->0.switch_ref, state.pending->0.stage.spec_rank() + 1, Seq::empty(), draw),
        ({
            let switch = state.switches[state.pending->0.switch_ref.switch_index as int];
            state.pending->0.stage == Stage::Play && switch.play_random is None
                && switch.play_step is Some && state.stepped(state.pending->0.switch_ref) is Some
        }) ==> state.resumed(StartOutcome::SinkFailed, draw).1.next == Next::Start(
            state.stepped(state.pending->0.switch_ref)->0,
        ),
{
}

} // verus!
