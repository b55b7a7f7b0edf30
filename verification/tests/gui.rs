use microswitch::config::BankConfig;
use microswitch::config::BankRef;
use microswitch::config::BankSampleRef;
use microswitch::config::Config;
use microswitch::config::SampleConfig;
use microswitch::config::SampleRef;
use microswitch::config::SwitchConfig;
use microswitch::config::SwitchPlay;
use microswitch::config::SwitchRef;
use microswitch::gui::key_pressed;
use microswitch::gui::key_released;
use microswitch::gui::play_buttons;
use microswitch::gui::sample_played;
use microswitch::gui::ButtonStyleSheet;
use microswitch::gui::PlayButtonState;
use microswitch::gui::BUTTON_PLAY_FEEDBACK_DURATION;
use microswitch::keys::KeyCode;

fn switch(title: &str, key: Option<&str>, play: Option<(&str, &str)>) -> SwitchConfig {
    SwitchConfig {
        title: title.to_string(),
        key: key.map(|key| key.to_string()),
        gamepad: None,
        stop_sounds: false,
        play: play.map(|(bank, sample)| SwitchPlay {
            bank: bank.to_string(),
            sample: sample.to_string(),
            bank_sample_ref: BankSampleRef::default(),
        }),
        play_random: None,
        play_step: None,
        switch_ref: SwitchRef::default(),
        key_code: None,
    }
}

fn config() -> Config {
    let samples = ["one", "two"]
        .iter()
        .map(|id| SampleConfig {
            id: id.to_string(),
            file: format!("{}.wav", id),
            bank_sample_ref: BankSampleRef::default(),
            file_resolved: None,
        })
        .collect();
    let banks =
        vec![BankConfig { id: "bank".to_string(), poly: false, samples, bank_ref: BankRef::default() }];
    let switches = vec![
        switch("first", Some("A"), Some(("bank", "one"))),
        switch("second", Some("B"), Some(("bank", "two"))),
        switch("first again", Some("A"), Some(("bank", "one"))),
        switch("silent", None, None),
    ];
    Config::resolve(banks, switches, None).unwrap()
}

fn at(sample_index: usize) -> BankSampleRef {
    BankSampleRef { bank: BankRef { bank_index: 0 }, sample: SampleRef { sample_index } }
}

#[test]
fn there_is_a_button_for_each_switch() {
    let buttons = play_buttons(&config());
    let titles: Vec<&str> = buttons.iter().map(|button| button.switch_title.as_str()).collect();
    assert_eq!(titles, vec!["first", "second", "first again", "silent"]);
    for button in &buttons {
        assert!(!button.key_held_down);
        assert_eq!(button.last_played_at, None);
    }
}

#[test]
fn a_played_sample_marks_the_buttons_that_play_it() {
    let config = config();
    let mut buttons = play_buttons(&config);
    sample_played(&mut buttons, &config, at(0), 500);
    let played: Vec<Option<u128>> = buttons.iter().map(|button| button.last_played_at).collect();
    assert_eq!(played, vec![Some(500), None, Some(500), None]);
    sample_played(&mut buttons, &config, at(1), 700);
    sample_played(&mut buttons, &config, at(0), 900);
    let played: Vec<Option<u128>> = buttons.iter().map(|button| button.last_played_at).collect();
    assert_eq!(played, vec![Some(900), Some(700), Some(900), None]);
    // a sample that no switch plays marks nothing
    sample_played(
        &mut buttons,
        &config,
        BankSampleRef { bank: BankRef { bank_index: 9 }, sample: SampleRef { sample_index: 9 } },
        1000,
    );
    let played: Vec<Option<u128>> = buttons.iter().map(|button| button.last_played_at).collect();
    assert_eq!(played, vec![Some(900), Some(700), Some(900), None]);
}

#[test]
fn a_held_key_presses_its_switch_once() {
    let config = config();
    let mut buttons = play_buttons(&config);
    // the later switch with the key is the one that the key triggers
    assert_eq!(key_pressed(&mut buttons, &config, KeyCode::A), Some(SwitchRef { switch_index: 2 }));
    assert!(buttons[2].key_held_down);
    assert!(!buttons[0].key_held_down);
    // the key repeats while it is held down
    assert_eq!(key_pressed(&mut buttons, &config, KeyCode::A), None);
    assert_eq!(key_pressed(&mut buttons, &config, KeyCode::B), Some(SwitchRef { switch_index: 1 }));
    key_released(&mut buttons, &config, KeyCode::A);
    assert!(!buttons[2].key_held_down);
    assert!(buttons[1].key_held_down);
    assert_eq!(key_pressed(&mut buttons, &config, KeyCode::A), Some(SwitchRef { switch_index: 2 }));
    // a key that no switch has changes nothing
    assert_eq!(key_pressed(&mut buttons, &config, KeyCode::Z), None);
    key_released(&mut buttons, &config, KeyCode::Z);
    let held: Vec<bool> = buttons.iter().map(|button| button.key_held_down).collect();
    assert_eq!(held, vec![false, true, true, false]);
}

#[test]
fn the_highlight_fades_for_a_second() {
    let button = |last_played_at| PlayButtonState {
        switch_title: String::new(),
        key_held_down: false,
        last_played_at,
    };
    assert_eq!(BUTTON_PLAY_FEEDBACK_DURATION, 1000);
    assert_eq!(button(None).stylesheet(5000), ButtonStyleSheet { last_played_ago: None });
    assert_eq!(button(None).stylesheet(5000).play_feedback_progress(), 1000);
    assert_eq!(button(Some(5000)).stylesheet(5000).play_feedback_progress(), 0);
    assert_eq!(button(Some(5000)).stylesheet(5250).play_feedback_progress(), 250);
    assert_eq!(button(Some(5000)).stylesheet(5999).play_feedback_progress(), 999);
    assert_eq!(button(Some(5000)).stylesheet(6000).play_feedback_progress(), 1000);
    assert_eq!(button(Some(5000)).stylesheet(60000).play_feedback_progress(), 1000);
    // a time before the sample was played counts as the time it was played
    assert_eq!(button(Some(5000)).stylesheet(4000), ButtonStyleSheet { last_played_ago: Some(0) });
}
