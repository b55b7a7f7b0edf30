use microswitch::config::BankConfig;
use microswitch::config::BankRef;
use microswitch::config::BankSampleRef;
use microswitch::config::Config;
use microswitch::config::SampleConfig;
use microswitch::config::SampleRef;
use microswitch::config::SwitchConfig;
use microswitch::config::SwitchPlay;
use microswitch::config::SwitchPlayRandom;
use microswitch::config::SwitchPlayStep;
use microswitch::config::SwitchRef;
use microswitch::sample_loader::EmbeddedSampleLoader;
use microswitch::sound_thread::Next;
use microswitch::sound_thread::Operation;
use microswitch::sound_thread::Pending;
use microswitch::sound_thread::SendOperationError;
use microswitch::sound_thread::SoundThreadBody;
use microswitch::sound_thread::SoundThreadRpc;
use microswitch::sound_thread::Stage;
use microswitch::sound_thread::StartOutcome;
use microswitch::sound_thread::Step;
use std::sync::mpsc;

fn bank(id: &str, poly: bool, sample_count: usize) -> BankConfig {
    BankConfig {
        id: id.to_string(),
        poly,
        samples: (0..sample_count)
            .map(|index| SampleConfig {
                id: format!("s{}", index),
                file: format!("{}-{}.wav", id, index),
                bank_sample_ref: BankSampleRef::default(),
                file_resolved: None,
            })
            .collect(),
        bank_ref: BankRef::default(),
    }
}

fn switch(title: &str) -> SwitchConfig {
    SwitchConfig {
        title: title.to_string(),
        key: None,
        gamepad: None,
        stop_sounds: false,
        play: None,
        play_random: None,
        play_step: None,
        switch_ref: SwitchRef::default(),
        key_code: None,
    }
}

fn play(bank: &str, sample: &str) -> Option<SwitchPlay> {
    Some(SwitchPlay {
        bank: bank.to_string(),
        sample: sample.to_string(),
        bank_sample_ref: BankSampleRef::default(),
    })
}

fn play_random(bank: &str) -> Option<SwitchPlayRandom> {
    Some(SwitchPlayRandom { bank: bank.to_string(), bank_ref: BankRef::default() })
}

fn play_step(bank: &str, steps: i32) -> Option<SwitchPlayStep> {
    Some(SwitchPlayStep { bank: bank.to_string(), steps, bank_ref: BankRef::default() })
}

fn at(bank_index: usize, sample_index: usize) -> BankSampleRef {
    BankSampleRef { bank: BankRef { bank_index }, sample: SampleRef { sample_index } }
}

fn pressed(switch_index: usize) -> Operation {
    Operation::SwitchPressed { switch_ref: SwitchRef { switch_index } }
}

fn receive() -> Step {
    Step { silence: vec![], next: Next::Receive }
}

/// An engine for three banks: "mono" (not polyphonic, 3 samples), "poly"
/// (polyphonic, 4 samples) and "empty" (no samples).
fn engine(switches: Vec<SwitchConfig>) -> SoundThreadBody {
    let banks = vec![bank("mono", false, 3), bank("poly", true, 4), bank("empty", false, 0)];
    let config = Config::resolve(banks, switches, None).unwrap();
    let keys = config
        .banks
        .iter()
        .flat_map(|bank| bank.samples.iter().map(|sample| sample.file.clone()))
        .collect();
    SoundThreadBody::new(config, &EmbeddedSampleLoader::new(keys)).unwrap()
}

#[test]
fn engine_needs_every_sample_loaded() {
    let config = Config::resolve(vec![bank("mono", false, 2)], vec![], None).unwrap();
    let loader = EmbeddedSampleLoader::new(vec!["mono-0.wav".to_string()]);
    assert!(SoundThreadBody::new(config, &loader).is_err());
}

#[test]
fn stop_operation_ends_the_worker() {
    let mut engine = engine(vec![SwitchConfig { play: play("mono", "s0"), ..switch("play") }]);
    assert_eq!(engine.handle_operation(Operation::Stop), Step { silence: vec![], next: Next::Exit });
    assert_eq!(engine.pending(), None);
    // also while a sample is pending
    engine.handle_operation(pressed(0));
    assert!(engine.pending().is_some());
    assert_eq!(engine.handle_operation(Operation::Stop), Step { silence: vec![], next: Next::Exit });
    assert_eq!(engine.pending(), None);
}

#[test]
fn a_switch_without_actions_does_nothing() {
    let mut engine = engine(vec![switch("nothing")]);
    assert_eq!(engine.handle_operation(pressed(0)), receive());
    assert_eq!(engine.pending(), None);
    assert_eq!(engine.config().switches[0].title, "nothing");
}

#[test]
fn play_starts_the_sample_and_waits_for_the_report() {
    let mut engine = engine(vec![SwitchConfig { play: play("poly", "s2"), ..switch("play") }]);
    assert_eq!(
        engine.handle_operation(pressed(0)),
        Step { silence: vec![], next: Next::Start(at(1, 2)) }
    );
    assert_eq!(
        engine.pending(),
        Some(Pending {
            switch_ref: SwitchRef { switch_index: 0 },
            stage: Stage::Play,
            sample: at(1, 2)
        })
    );
    assert_eq!(engine.resume(StartOutcome::Started), receive());
    assert_eq!(engine.pending(), None);
    // a report with nothing pending changes nothing
    assert_eq!(engine.resume(StartOutcome::Started), receive());
}

#[test]
fn playing_in_a_bank_that_is_not_polyphonic_silences_what_plays_there() {
    let mut engine = engine(vec![
        SwitchConfig { play: play("mono", "s0"), ..switch("A") },
        SwitchConfig { play: play("mono", "s1"), ..switch("B") },
        SwitchConfig { play: play("poly", "s0"), ..switch("C") },
        SwitchConfig { play: play("poly", "s1"), ..switch("D") },
    ]);
    engine.handle_operation(pressed(0));
    engine.resume(StartOutcome::Started);
    engine.handle_operation(pressed(2));
    engine.resume(StartOutcome::Started);
    // B silences A in the bank that is not polyphonic, and nothing elsewhere
    assert_eq!(
        engine.handle_operation(pressed(1)),
        Step { silence: vec![at(0, 0)], next: Next::Start(at(0, 1)) }
    );
    engine.resume(StartOutcome::Started);
    // D silences nothing in the polyphonic bank
    assert_eq!(
        engine.handle_operation(pressed(3)),
        Step { silence: vec![], next: Next::Start(at(1, 1)) }
    );
    engine.resume(StartOutcome::Started);
    // C restarts: its own sink is dropped, that of D is not
    assert_eq!(
        engine.handle_operation(pressed(2)),
        Step { silence: vec![at(1, 0)], next: Next::Start(at(1, 0)) }
    );
}

#[test]
fn stop_sounds_silences_every_bank() {
    let mut engine = engine(vec![
        SwitchConfig { play: play("mono", "s2"), ..switch("A") },
        SwitchConfig { play: play("poly", "s1"), ..switch("B") },
        SwitchConfig { play: play("poly", "s3"), ..switch("C") },
        SwitchConfig { stop_sounds: true, ..switch("stop") },
        SwitchConfig { stop_sounds: true, play: play("poly", "s0"), ..switch("stop and play") },
    ]);
    for index in 0..3 {
        engine.handle_operation(pressed(index));
        engine.resume(StartOutcome::Started);
    }
    assert_eq!(
        engine.handle_operation(pressed(3)),
        Step { silence: vec![at(0, 2), at(1, 1), at(1, 3)], next: Next::Receive }
    );
    // everything is silent now
    assert_eq!(engine.handle_operation(pressed(3)), receive());

    engine.handle_operation(pressed(0));
    engine.resume(StartOutcome::Started);
    assert_eq!(
        engine.handle_operation(pressed(4)),
        Step { silence: vec![at(0, 2)], next: Next::Start(at(1, 0)) }
    );
}

#[test]
fn all_three_actions_of_a_switch_fire_in_order() {
    let mut engine = engine(vec![SwitchConfig {
        play: play("poly", "s1"),
        play_random: play_random("mono"),
        play_step: play_step("poly", 1),
        ..switch("all three")
    }]);
    let switch_ref = SwitchRef { switch_index: 0 };
    assert_eq!(
        engine.handle_operation_drawn(pressed(0), 2),
        Step { silence: vec![], next: Next::Start(at(1, 1)) }
    );
    // the random action picks the sample that was drawn
    assert_eq!(
        engine.resume_drawn(StartOutcome::Started, 2),
        Step { silence: vec![], next: Next::Start(at(0, 2)) }
    );
    assert_eq!(
        engine.pending(),
        Some(Pending { switch_ref, stage: Stage::PlayRandom, sample: at(0, 2) })
    );
    // the step goes on from the sample that the first action played
    assert_eq!(
        engine.resume_drawn(StartOutcome::Started, 2),
        Step { silence: vec![], next: Next::Start(at(1, 2)) }
    );
    assert_eq!(
        engine.pending(),
        Some(Pending { switch_ref, stage: Stage::PlayStep, sample: at(1, 2) })
    );
    assert_eq!(engine.resume_drawn(StartOutcome::Started, 2), receive());
    assert_eq!(engine.pending(), None);
}

#[test]
fn a_sample_that_does_not_start_is_given_up_alone() {
    let mut engine = engine(vec![
        SwitchConfig {
            play: play("poly", "s1"),
            play_step: play_step("poly", 1),
            ..switch("play and step")
        },
        SwitchConfig { play_step: play_step("poly", 0), ..switch("repeat") },
        SwitchConfig {
            play: play("mono", "s0"),
            play_random: play_random("mono"),
            play_step: play_step("empty", 1),
            ..switch("all three")
        },
    ]);
    let switch_ref = SwitchRef { switch_index: 0 };
    assert_eq!(engine.handle_operation(pressed(0)).next, Next::Start(at(1, 1)));
    // the sink for the exact sample is refused: the step is carried out all the same,
    // and it starts at the first sample, because nothing has played in the bank
    assert_eq!(
        engine.resume(StartOutcome::SinkFailed),
        Step { silence: vec![], next: Next::Start(at(1, 0)) }
    );
    assert_eq!(
        engine.pending(),
        Some(Pending { switch_ref, stage: Stage::PlayStep, sample: at(1, 0) })
    );
    // the sink for the step is granted
    assert_eq!(engine.resume(StartOutcome::Started), receive());
    assert_eq!(engine.pending(), None);
    // only the step has played: it is the sample played last, and the only sink held
    assert_eq!(
        engine.handle_operation(pressed(1)),
        Step { silence: vec![at(1, 0)], next: Next::Start(at(1, 0)) }
    );
    engine.resume(StartOutcome::Started);

    // a refused sink for the last action that selects a sample ends the switch
    assert_eq!(engine.handle_operation_drawn(pressed(2), 1).next, Next::Start(at(0, 0)));
    assert_eq!(
        engine.resume_drawn(StartOutcome::SinkFailed, 1),
        Step { silence: vec![], next: Next::Start(at(0, 1)) }
    );
    assert_eq!(engine.resume_drawn(StartOutcome::SinkFailed, 1), receive());
    assert_eq!(engine.pending(), None);
}

#[test]
fn a_sample_that_cannot_be_announced_ends_the_actions_of_the_switch() {
    let mut unannounced = engine(vec![
        SwitchConfig {
            play: play("poly", "s1"),
            play_step: play_step("poly", 1),
            ..switch("play and step")
        },
        SwitchConfig { play_step: play_step("poly", 0), ..switch("repeat") },
    ]);
    unannounced.handle_operation(pressed(0));
    assert_eq!(unannounced.resume(StartOutcome::EventFailed), receive());
    assert_eq!(unannounced.pending(), None);
    // the sample plays though its event was lost: it is the one played last
    assert_eq!(
        unannounced.handle_operation(pressed(1)),
        Step { silence: vec![at(1, 1)], next: Next::Start(at(1, 1)) }
    );
}

#[test]
fn random_and_step_in_an_empty_bank_are_passed_over() {
    let mut engine = engine(vec![
        SwitchConfig { play_random: play_random("empty"), ..switch("random") },
        SwitchConfig { play_step: play_step("empty", 1), ..switch("step") },
        SwitchConfig {
            play_random: play_random("empty"),
            play_step: play_step("mono", -1),
            ..switch("random then step")
        },
    ]);
    assert_eq!(engine.handle_operation(pressed(0)), receive());
    assert_eq!(engine.handle_operation(pressed(1)), receive());
    assert_eq!(engine.pending(), None);
    // the empty bank is passed over and the step in the other bank fires
    assert_eq!(
        engine.handle_operation(pressed(2)),
        Step { silence: vec![], next: Next::Start(at(0, 2)) }
    );
}

#[test]
fn a_random_action_picks_a_sample_of_its_bank() {
    let mut engine = engine(vec![SwitchConfig { play_random: play_random("mono"), ..switch("r") }]);
    let mut seen = [false; 3];
    for _ in 0..200 {
        match engine.handle_operation(pressed(0)).next {
            Next::Start(sample) => {
                assert_eq!(sample.bank, BankRef { bank_index: 0 });
                assert!(sample.sample.sample_index < 3);
                seen[sample.sample.sample_index] = true;
            }
            _ => panic!("expected a sample to start"),
        }
        engine.resume(StartOutcome::Started);
    }
    assert_eq!(seen, [true, true, true]);
}

#[test]
fn an_operation_gives_up_a_pending_sample() {
    let mut engine = engine(vec![
        SwitchConfig { play: play("mono", "s0"), ..switch("A") },
        SwitchConfig { play: play("mono", "s1"), ..switch("B") },
    ]);
    engine.handle_operation(pressed(0));
    // the report for A never comes: B is handled as if A had not started
    assert_eq!(
        engine.handle_operation(pressed(1)),
        Step { silence: vec![], next: Next::Start(at(0, 1)) }
    );
    assert_eq!(
        engine.pending(),
        Some(Pending {
            switch_ref: SwitchRef { switch_index: 1 },
            stage: Stage::Play,
            sample: at(0, 1)
        })
    );
}

#[test]
fn rpc_sends_the_pressed_switch_to_the_worker() {
    let (sender, receiver) = mpsc::channel();
    let rpc = SoundThreadRpc::new(sender);
    assert!(rpc.switch_pressed(SwitchRef { switch_index: 7 }).is_ok());
    assert!(rpc.switch_pressed(SwitchRef { switch_index: 2 }).is_ok());
    // operations arrive in the order in which they were sent
    assert_eq!(receiver.recv().unwrap(), pressed(7));
    assert_eq!(receiver.recv().unwrap(), pressed(2));
    // once the worker is gone the operation comes back in the error
    drop(receiver);
    let error = rpc.switch_pressed(SwitchRef { switch_index: 3 }).unwrap_err();
    assert_eq!(error, SendOperationError { operation: pressed(3) });
    assert_eq!(Operation::switch_pressed(SwitchRef { switch_index: 3 }), pressed(3));
}
