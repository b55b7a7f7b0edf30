use microswitch::config::BankConfig;
use microswitch::config::BankRef;
use microswitch::config::BankSampleRef;
use microswitch::config::SampleConfig;
use microswitch::config::SampleRef;
use microswitch::error::SampleNotFoundError;
use microswitch::sample_loader::EmbeddedSampleLoader;
use microswitch::sample_loader::LoadedSample;
use microswitch::sound_bank::apply_steps;
use microswitch::sound_bank::Playback;
use microswitch::sound_bank::SoundBank;
use microswitch::sound_bank::SoundBankState;

#[test]
fn apply_steps_calculation() {
    let s = |sample_index| Some(SampleRef { sample_index });

    // Should start with a default sample if the bank has not been played before
    assert_eq!(apply_steps(4, None, -1), s(3));
    assert_eq!(apply_steps(4, None, 0), s(0));
    assert_eq!(apply_steps(4, None, 1), s(0));

    // Should repeat the previous sample if steps is 0
    assert_eq!(apply_steps(4, s(0), 0), s(0));
    assert_eq!(apply_steps(4, s(1), 0), s(1));
    assert_eq!(apply_steps(4, s(3), 0), s(3));

    // Should go backwards, with wraparound, if steps < 0
    assert_eq!(apply_steps(4, s(0), -1), s(3));
    assert_eq!(apply_steps(4, s(1), -1), s(0));
    assert_eq!(apply_steps(4, s(2), -2), s(0));
    assert_eq!(apply_steps(4, s(1), -2), s(3));
    assert_eq!(apply_steps(4, s(3), -5), s(2));

    // Should go forwards, with wraparound, if steps > 0
    assert_eq!(apply_steps(4, s(0), 1), s(1));
    assert_eq!(apply_steps(4, s(3), 1), s(0));
    assert_eq!(apply_steps(4, s(1), 2), s(3));
    assert_eq!(apply_steps(4, s(3), 2), s(1));
    assert_eq!(apply_steps(4, s(2), 5), s(3));
}

#[test]
fn apply_steps_in_an_empty_bank_selects_nothing() {
    assert_eq!(apply_steps(0, None, 0), None);
    assert_eq!(apply_steps(0, None, -3), None);
    assert_eq!(apply_steps(0, Some(SampleRef { sample_index: 2 }), 1), None);
}

#[test]
fn apply_steps_wraps_steps_of_any_magnitude() {
    let s = |sample_index| Some(SampleRef { sample_index });
    assert_eq!(apply_steps(7, s(3), i32::MAX), s((3 + i32::MAX as usize) % 7));
    // -2147483648 is 5 modulo 7, so the step is 3 + 5 = 8, which is 1 modulo 7
    assert_eq!(apply_steps(7, s(3), i32::MIN), s(1));
    assert_eq!(apply_steps(1, s(0), i32::MIN), s(0));
    assert_eq!(apply_steps(1, None, -1), s(0));
    // an index beyond the bank is reduced like any other
    assert_eq!(apply_steps(4, s(9), 0), s(1));
    assert_eq!(apply_steps(4, s(usize::MAX), 1), s(((usize::MAX % 4) + 1) % 4));
    assert_eq!(apply_steps(usize::MAX, s(usize::MAX - 1), 1), s(0));
    assert_eq!(apply_steps(usize::MAX, s(0), -1), s(usize::MAX - 1));
}

fn bank_config(bank_index: usize, poly: bool, files: &[&str]) -> BankConfig {
    BankConfig {
        id: "bank".to_string(),
        poly,
        samples: files
            .iter()
            .enumerate()
            .map(|(sample_index, file)| SampleConfig {
                id: file.to_string(),
                file: file.to_string(),
                bank_sample_ref: BankSampleRef {
                    bank: BankRef { bank_index },
                    sample: SampleRef { sample_index },
                },
                file_resolved: None,
            })
            .collect(),
        bank_ref: BankRef { bank_index },
    }
}

fn loader(files: &[&str]) -> EmbeddedSampleLoader {
    EmbeddedSampleLoader::new(files.iter().map(|file| file.to_string()).collect())
}

fn bank_state(bank_index: usize, poly: bool, files: &[&str]) -> SoundBankState {
    let bank = SoundBank::new(&loader(files), bank_config(bank_index, poly, files)).unwrap();
    SoundBankState::new(bank)
}

fn at(bank_index: usize, sample_index: usize) -> BankSampleRef {
    BankSampleRef { bank: BankRef { bank_index }, sample: SampleRef { sample_index } }
}

fn sample(sample_index: usize) -> SampleRef {
    SampleRef { sample_index }
}

#[test]
fn sound_bank_holds_the_loaded_samples_of_its_configuration() {
    let loader = loader(&["c.wav", "a.wav", "b.wav"]);
    let bank = SoundBank::new(&loader, bank_config(0, false, &["a.wav", "b.wav", "c.wav"])).unwrap();
    assert_eq!(bank.sample_count(), 3);
    assert_eq!(bank.get_sample(sample(0)), LoadedSample { slot: 1 });
    assert_eq!(bank.get_sample(sample(1)), LoadedSample { slot: 2 });
    assert_eq!(bank.get_sample(sample(2)), LoadedSample { slot: 0 });
    assert_eq!(bank.config.id, "bank");
}

#[test]
fn sound_bank_needs_every_sample_loaded() {
    let loader = loader(&["a.wav"]);
    let result = SoundBank::new(&loader, bank_config(0, false, &["a.wav", "b.wav"]));
    assert_eq!(result.unwrap_err(), SampleNotFoundError {});
    assert_eq!(SampleNotFoundError {}.message(), "Sample has not been loaded yet");

    let configs = vec![bank_config(0, false, &["a.wav"]), bank_config(1, false, &["b.wav"])];
    assert!(SoundBank::new_all(&loader, &configs).is_err());
    let configs = vec![bank_config(0, false, &["a.wav"]), bank_config(1, false, &[])];
    let banks = SoundBank::new_all(&loader, &configs).unwrap();
    assert_eq!(banks.len(), 2);
    assert_eq!(banks[0].sample_count(), 1);
    assert_eq!(banks[1].sample_count(), 0);
    assert_eq!(banks[1].config.bank_ref, BankRef { bank_index: 1 });
}

#[test]
fn states_of_all_banks_keep_their_order() {
    let loader = loader(&["a.wav", "b.wav"]);
    let configs = vec![
        bank_config(0, false, &["a.wav"]),
        bank_config(1, true, &["a.wav", "b.wav"]),
        bank_config(2, false, &[]),
    ];
    let states = SoundBankState::new_all(SoundBank::new_all(&loader, &configs).unwrap());
    assert_eq!(states.len(), 3);
    assert_eq!(states[0].sample_count(), 1);
    assert_eq!(states[1].sample_count(), 2);
    assert_eq!(states[2].sample_count(), 0);
    assert_eq!(states[1].get_sample(sample(1)), LoadedSample { slot: 1 });
    assert_eq!(states[1].last_played(), None);
}

#[test]
fn play_in_a_bank_that_is_not_polyphonic_silences_the_other_sample() {
    let mut state = bank_state(2, false, &["a.wav", "b.wav", "c.wav"]);
    // sample A starts
    assert_eq!(state.play(sample(0)), Playback { sample: at(2, 0), silence: vec![] });
    assert_eq!(state.started(sample(0)), at(2, 0));
    // sample B is played while A is active: A is silenced
    assert_eq!(state.play(sample(1)), Playback { sample: at(2, 1), silence: vec![at(2, 0)] });
    assert_eq!(state.started(sample(1)), at(2, 1));
    // only B is left to silence
    assert_eq!(state.stop(), vec![at(2, 1)]);
    assert_eq!(state.stop(), vec![]);
}

#[test]
fn play_in_a_polyphonic_bank_leaves_the_other_sample_playing() {
    let mut state = bank_state(0, true, &["a.wav", "b.wav", "c.wav"]);
    assert_eq!(state.play(sample(0)), Playback { sample: at(0, 0), silence: vec![] });
    state.started(sample(0));
    // sample B is played while A is active: A keeps playing
    assert_eq!(state.play(sample(1)), Playback { sample: at(0, 1), silence: vec![] });
    state.started(sample(1));
    assert_eq!(state.play(sample(2)), Playback { sample: at(0, 2), silence: vec![] });
    state.started(sample(2));
    // all three are held, in the order of their slots
    assert_eq!(state.stop(), vec![at(0, 0), at(0, 1), at(0, 2)]);
}

#[test]
fn playing_the_same_sample_again_restarts_it() {
    for poly in [false, true] {
        let mut state = bank_state(1, poly, &["a.wav", "b.wav"]);
        state.play(sample(1));
        state.started(sample(1));
        // the sink of the sample itself is dropped before it starts afresh
        assert_eq!(state.play(sample(1)), Playback { sample: at(1, 1), silence: vec![at(1, 1)] });
        state.started(sample(1));
        // one sink is held for the sample, not two
        assert_eq!(state.stop(), vec![at(1, 1)]);
    }
}

#[test]
fn a_sample_that_did_not_start_holds_no_sink_and_is_not_the_last_played() {
    let mut state = bank_state(0, true, &["a.wav", "b.wav", "c.wav"]);
    state.play(sample(1));
    state.started(sample(1));
    // the sink for sample 2 could not be acquired: `started` is not called
    assert_eq!(state.play(sample(2)), Playback { sample: at(0, 2), silence: vec![] });
    assert_eq!(state.last_played(), Some(sample(1)));
    assert_eq!(state.stop(), vec![at(0, 1)]);
}

#[test]
fn play_step_starts_at_the_first_or_the_last_sample() {
    let mut state = bank_state(0, false, &["a.wav", "b.wav", "c.wav", "d.wav"]);
    assert_eq!(state.play_step(0).unwrap().sample, at(0, 0));
    let mut state = bank_state(0, false, &["a.wav", "b.wav", "c.wav", "d.wav"]);
    assert_eq!(state.play_step(7).unwrap().sample, at(0, 0));
    let mut state = bank_state(0, false, &["a.wav", "b.wav", "c.wav", "d.wav"]);
    assert_eq!(state.play_step(-1).unwrap().sample, at(0, 3));
    let mut state = bank_state(0, false, &["a.wav", "b.wav", "c.wav", "d.wav"]);
    assert_eq!(state.play_step(-100).unwrap().sample, at(0, 3));
}

#[test]
fn play_step_moves_from_the_sample_played_last() {
    let mut state = bank_state(0, false, &["a.wav", "b.wav", "c.wav", "d.wav"]);
    state.play(sample(3));
    state.started(sample(3));
    assert_eq!(state.last_played(), Some(sample(3)));
    // prior index 3, steps -5: index 2
    assert_eq!(
        state.play_step(-5),
        Some(Playback { sample: at(0, 2), silence: vec![at(0, 3)] })
    );
    // the step did not start, so the last played sample is still 3
    assert_eq!(state.play_step(0).unwrap().sample, at(0, 3));
    state.started(sample(1));
    // prior index 1, steps 2: index 3
    assert_eq!(state.play_step(2).unwrap().sample, at(0, 3));
    state.started(sample(2));
    // prior index 2, steps 5: index 3
    assert_eq!(state.play_step(5).unwrap().sample, at(0, 3));
    // a step of zero repeats the last played sample
    assert_eq!(state.play_step(0).unwrap().sample, at(0, 2));
}

#[test]
fn play_step_and_play_random_do_nothing_in_an_empty_bank() {
    let mut state = bank_state(0, false, &[]);
    assert_eq!(state.sample_count(), 0);
    assert_eq!(state.play_step(1), None);
    assert_eq!(state.play_step(0), None);
    assert_eq!(state.play_step(-1), None);
    assert_eq!(state.play_random(), None);
    assert_eq!(state.pick_random_sample(), None);
    assert_eq!(state.last_played(), None);
    assert_eq!(state.stop(), vec![]);
}

#[test]
fn play_random_picks_a_sample_of_the_bank() {
    let mut state = bank_state(4, true, &["a.wav", "b.wav", "c.wav"]);
    let mut seen = [false; 3];
    for _ in 0..200 {
        let playback = state.play_random().unwrap();
        assert_eq!(playback.sample.bank, BankRef { bank_index: 4 });
        assert!(playback.sample.sample.sample_index < 3);
        seen[playback.sample.sample.sample_index] = true;
        let picked = state.pick_random_sample().unwrap();
        assert!(picked.sample_index < 3);
    }
    // every sample comes up in two hundred draws among three
    assert_eq!(seen, [true, true, true]);

    let mut single = bank_state(0, false, &["only.wav"]);
    assert_eq!(single.play_random().unwrap().sample, at(0, 0));
}
