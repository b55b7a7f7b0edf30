use microswitch::config::BankConfig;
use microswitch::config::BankRef;
use microswitch::config::BankSampleRef;
use microswitch::config::Config;
use microswitch::config::ConfigIdLookup;
use microswitch::config::Gamepad;
use microswitch::config::SampleConfig;
use microswitch::config::SampleRef;
use microswitch::config::SwitchConfig;
use microswitch::config::SwitchPlay;
use microswitch::config::SwitchPlayRandom;
use microswitch::config::SwitchPlayStep;
use microswitch::config::SwitchRef;
use microswitch::error::ConfigError;
use microswitch::keys::Button;
use microswitch::keys::KeyCode;
use std::path::PathBuf;

fn test_path(extra_parts: &[&str]) -> PathBuf {
    let path_sep = std::path::MAIN_SEPARATOR.to_string();
    [path_sep.as_str(), "test", "path"].iter().chain(extra_parts.iter()).collect()
}

fn test_path_string(extra_parts: &[&str]) -> String {
    test_path(extra_parts).to_str().unwrap().to_string()
}

/// A sample as it is declared, before the configuration is resolved.
fn declared_sample(id: &str, file: &str) -> SampleConfig {
    SampleConfig {
        id: id.to_string(),
        file: file.to_string(),
        bank_sample_ref: BankSampleRef::default(),
        file_resolved: None,
    }
}

/// A bank as it is declared, before the configuration is resolved.
fn declared_bank(id: &str, poly: bool, samples: Vec<SampleConfig>) -> BankConfig {
    BankConfig { id: id.to_string(), poly, samples, bank_ref: BankRef::default() }
}

/// A switch as it is declared with only its title.
fn declared_switch(title: &str) -> SwitchConfig {
    SwitchConfig {
        title: title.to_string(),
        key: None,
        gamepad: None,
        stop_sounds: false,
        play: None,
        play_random: None,
        play_step: None,
        switch_ref: SwitchRef::default(),
        key_code: None,
    }
}

fn declared_play(bank: &str, sample: &str) -> Option<SwitchPlay> {
    Some(SwitchPlay {
        bank: bank.to_string(),
        sample: sample.to_string(),
        bank_sample_ref: BankSampleRef::default(),
    })
}

fn declared_gamepad(device_id: Option<usize>, button: &str) -> Option<Gamepad> {
    Some(Gamepad { device_id, button: button.to_string(), gilrs_button: Button::default() })
}

fn key_switch(title: &str, key: &str) -> SwitchConfig {
    SwitchConfig { key: Some(key.to_string()), ..declared_switch(title) }
}

fn gamepad_switch(title: &str, device_id: Option<usize>, button: &str) -> SwitchConfig {
    SwitchConfig { gamepad: declared_gamepad(device_id, button), ..declared_switch(title) }
}

fn sample_ref(bank_index: usize, sample_index: usize) -> BankSampleRef {
    BankSampleRef { bank: BankRef { bank_index }, sample: SampleRef { sample_index } }
}

fn example_banks() -> Vec<BankConfig> {
    vec![
        declared_bank(
            "bankA",
            true,
            vec![
                declared_sample("foo1", "foo1.mp3"),
                declared_sample("foo2", "foo2.wav"),
                declared_sample("foo3", "foo3.ogg"),
                declared_sample("foo4", "foo4.flac"),
            ],
        ),
        // a sample with id "foo1" also exists in "bankA": they should not interfere
        declared_bank("bankB", false, vec![declared_sample("foo1", "foo1-bankB.mp3")]),
    ]
}

fn example_switches() -> Vec<SwitchConfig> {
    vec![
        SwitchConfig { play: declared_play("bankB", "foo1"), ..declared_switch("play option") },
        SwitchConfig {
            play_random: Some(SwitchPlayRandom {
                bank: "bankB".to_string(),
                bank_ref: BankRef::default(),
            }),
            ..declared_switch("playRandom option")
        },
        SwitchConfig {
            play_step: Some(SwitchPlayStep {
                bank: "bankA".to_string(),
                steps: 1,
                bank_ref: BankRef::default(),
            }),
            ..declared_switch("playStep option")
        },
        SwitchConfig { stop_sounds: true, ..declared_switch("stopSounds option") },
        declared_switch("Only the required fields"),
        key_switch("keyboard key", "X"),
        gamepad_switch("gamepad button on any device", None, "North"),
        gamepad_switch("gamepad button, specific device", Some(123), "North"),
        SwitchConfig {
            play: declared_play("bankB", "foo1"),
            ..declared_switch("another play option, same actions as the first")
        },
    ]
}

#[test]
fn successful_config_parsing() {
    let config =
        Config::resolve(example_banks(), example_switches(), Some(test_path_string(&[]))).unwrap();

    assert_eq!(
        config.banks,
        vec![
            BankConfig {
                id: "bankA".to_string(),
                poly: true,
                samples: vec![
                    SampleConfig {
                        id: "foo1".to_string(),
                        file: "foo1.mp3".to_string(),
                        bank_sample_ref: BankSampleRef {
                            bank: BankRef { bank_index: 0 },
                            sample: SampleRef { sample_index: 0 },
                        },
                        file_resolved: Some(test_path_string(&["foo1.mp3"])),
                    },
                    SampleConfig {
                        id: "foo2".to_string(),
                        file: "foo2.wav".to_string(),
                        bank_sample_ref: BankSampleRef {
                            bank: BankRef { bank_index: 0 },
                            sample: SampleRef { sample_index: 1 },
                        },
                        file_resolved: Some(test_path_string(&["foo2.wav"])),
                    },
                    SampleConfig {
                        id: "foo3".to_string(),
                        file: "foo3.ogg".to_string(),
                        bank_sample_ref: BankSampleRef {
                            bank: BankRef { bank_index: 0 },
                            sample: SampleRef { sample_index: 2 },
                        },
                        file_resolved: Some(test_path_string(&["foo3.ogg"])),
                    },
                    SampleConfig {
                        id: "foo4".to_string(),
                        file: "foo4.flac".to_string(),
                        bank_sample_ref: BankSampleRef {
                            bank: BankRef { bank_index: 0 },
                            sample: SampleRef { sample_index: 3 },
                        },
                        file_resolved: Some(test_path_string(&["foo4.flac"])),
                    },
                ],
                bank_ref: BankRef { bank_index: 0 },
            },
            BankConfig {
                id: "bankB".to_string(),
                poly: false,
                samples: vec![SampleConfig {
                    id: "foo1".to_string(),
                    file: "foo1-bankB.mp3".to_string(),
                    bank_sample_ref: BankSampleRef {
                        bank: BankRef { bank_index: 1 },
                        sample: SampleRef { sample_index: 0 },
                    },
                    file_resolved: Some(test_path_string(&["foo1-bankB.mp3"])),
                }],
                bank_ref: BankRef { bank_index: 1 },
            },
        ]
    );

    assert_eq!(
        config.switches,
        vec![
            SwitchConfig {
                title: "play option".to_string(),
                key: None,
                gamepad: None,
                stop_sounds: false,
                play: Some(SwitchPlay {
                    bank: "bankB".to_string(),
                    sample: "foo1".to_string(),
                    bank_sample_ref: BankSampleRef {
                        bank: BankRef { bank_index: 1 },
                        sample: SampleRef { sample_index: 0 },
                    },
                }),
                play_random: None,
                play_step: None,
                switch_ref: SwitchRef { switch_index: 0 },
                key_code: None,
            },
            SwitchConfig {
                title: "playRandom option".to_string(),
                key: None,
                gamepad: None,
                stop_sounds: false,
                play: None,
                play_random: Some(SwitchPlayRandom {
                    bank: "bankB".to_string(),
                    bank_ref: BankRef { bank_index: 1 },
                }),
                play_step: None,
                switch_ref: SwitchRef { switch_index: 1 },
                key_code: None,
            },
            SwitchConfig {
                title: "playStep option".to_string(),
                key: None,
                gamepad: None,
                stop_sounds: false,
                play: None,
                play_random: None,
                play_step: Some(SwitchPlayStep {
                    bank: "bankA".to_string(),
                    steps: 1,
                    bank_ref: BankRef { bank_index: 0 },
                }),
                switch_ref: SwitchRef { switch_index: 2 },
                key_code: None,
            },
            SwitchConfig {
                title: "stopSounds option".to_string(),
                key: None,
                gamepad: None,
                stop_sounds: true,
                play: None,
                play_random: None,
                play_step: None,
                switch_ref: SwitchRef { switch_index: 3 },
                key_code: None,
            },
            SwitchConfig {
                title: "Only the required fields".to_string(),
                key: None,
                gamepad: None,
                stop_sounds: false,
                play: None,
                play_random: None,
                play_step: None,
                switch_ref: SwitchRef { switch_index: 4 },
                key_code: None,
            },
            SwitchConfig {
                title: "keyboard key".to_string(),
                key: Some("X".to_string()),
                gamepad: None,
                stop_sounds: false,
                play: None,
                play_random: None,
                play_step: None,
                switch_ref: SwitchRef { switch_index: 5 },
                key_code: Some(KeyCode::X),
            },
            SwitchConfig {
                title: "gamepad button on any device".to_string(),
                key: None,
                gamepad: Some(Gamepad {
                    device_id: None,
                    button: "North".to_string(),
                    gilrs_button: Button::North,
                }),
                stop_sounds: false,
                play: None,
                play_random: None,
                play_step: None,
                switch_ref: SwitchRef { switch_index: 6 },
                key_code: None,
            },
            SwitchConfig {
                title: "gamepad button, specific device".to_string(),
                key: None,
                gamepad: Some(Gamepad {
                    device_id: Some(123),
                    button: "North".to_string(),
                    gilrs_button: Button::North,
                }),
                stop_sounds: false,
                play: None,
                play_random: None,
                play_step: None,
                switch_ref: SwitchRef { switch_index: 7 },
                key_code: None,
            },
            SwitchConfig {
                title: "another play option, same actions as the first".to_string(),
                key: None,
                gamepad: None,
                stop_sounds: false,
                play: Some(SwitchPlay {
                    bank: "bankB".to_string(),
                    sample: "foo1".to_string(),
                    bank_sample_ref: BankSampleRef {
                        bank: BankRef { bank_index: 1 },
                        sample: SampleRef { sample_index: 0 },
                    },
                }),
                play_random: None,
                play_step: None,
                switch_ref: SwitchRef { switch_index: 8 },
                key_code: None,
            },
        ]
    );

    assert_eq!(config.resolve_path, Some(test_path_string(&[])));

    // the keyboard table holds X alone
    assert_eq!(
        config.find_switch_for_keyboard_key(KeyCode::X).unwrap().switch_ref,
        SwitchRef { switch_index: 5 }
    );
    assert!(config.find_switch_for_keyboard_key(KeyCode::Y).is_none());

    // the gamepad table holds North for any device and for device 123
    assert_eq!(
        config.find_switch_for_gamepad_button(1, Button::North).unwrap().switch_ref,
        SwitchRef { switch_index: 6 }
    );
    assert_eq!(
        config.find_switch_for_gamepad_button(123, Button::North).unwrap().switch_ref,
        SwitchRef { switch_index: 7 }
    );
    assert!(config.find_switch_for_gamepad_button(123, Button::South).is_none());

    // the only sample that a switch plays is played by the first and the last switch
    assert_eq!(
        config.find_switch_play_for_sample(sample_ref(1, 0)),
        &vec![SwitchRef { switch_index: 0 }, SwitchRef { switch_index: 8 }]
    );
    assert!(config.find_switch_play_for_sample(sample_ref(0, 0)).is_empty());
}

#[test]
fn find_switch_for_keyboard_key() {
    let switches = vec![
        key_switch("Key a", "A"),
        // should override the first switch
        key_switch("Key a (again)", "A"),
        key_switch("Key b", "B"),
        declared_switch("No key"),
    ];

    let config = Config::resolve(vec![], switches, Some(test_path_string(&[]))).unwrap();
    assert!(config.find_switch_for_keyboard_key(KeyCode::Z).is_none());
    assert_eq!(config.find_switch_for_keyboard_key(KeyCode::A).unwrap().title, "Key a (again)");
    assert_eq!(config.find_switch_for_keyboard_key(KeyCode::B).unwrap().title, "Key b");
}

#[test]
fn find_switch_for_gamepad_button() {
    let switches = vec![
        gamepad_switch("South, no device filter", None, "South"),
        // should override the first switch
        gamepad_switch("South, no device filter (again)", None, "South"),
        gamepad_switch("North, device 123", Some(123), "North"),
        // should have less priority because it specifies no device
        gamepad_switch("North, no device filter", None, "North"),
        // the only entry that specifies West
        gamepad_switch("West, device 123", Some(123), "West"),
    ];
    let config = Config::resolve(vec![], switches, Some(test_path_string(&[]))).unwrap();

    assert!(config.find_switch_for_gamepad_button(10, Button::West).is_none());
    assert_eq!(
        config.find_switch_for_gamepad_button(123, Button::West).unwrap().title,
        "West, device 123"
    );

    assert_eq!(
        config.find_switch_for_gamepad_button(123, Button::South).unwrap().title,
        "South, no device filter (again)"
    );

    assert_eq!(
        config.find_switch_for_gamepad_button(123, Button::North).unwrap().title,
        "North, device 123"
    );
    assert_eq!(
        config.find_switch_for_gamepad_button(456, Button::North).unwrap().title,
        "North, no device filter"
    );

    // Start button is not specified at all
    assert!(config.find_switch_for_gamepad_button(10, Button::Start).is_none());
}

#[test]
fn config_with_yaml_syntax_error() {
    let config_source = "bla'[ ";
    let parsed: Result<serde_yaml::Mapping, serde_yaml::Error> = serde_yaml::from_str(config_source);
    let error = ConfigError::Parse { source: parsed.unwrap_err().to_string() };
    assert!(error.message().starts_with("Failed to parse config file: "));
}

#[test]
fn config_with_mismatched_type() {
    let config_source = "\nswitches: this should be an array\n";
    let document: serde_yaml::Value = serde_yaml::from_str(config_source).unwrap();
    let switches: Result<Vec<serde_yaml::Value>, serde_yaml::Error> =
        serde_yaml::from_value(document["switches"].clone());
    let error = ConfigError::Parse { source: switches.unwrap_err().to_string() };
    let error_message = error.message();
    assert!(error_message.contains("invalid type: string"));
}

#[test]
fn config_with_invalid_bank_id() {
    let banks = vec![declared_bank("mybank", false, vec![])];
    let switches = vec![SwitchConfig {
        play_random: Some(SwitchPlayRandom {
            bank: "invalid".to_string(),
            bank_ref: BankRef::default(),
        }),
        ..declared_switch("invalid bank id")
    }];
    let error = Config::resolve(banks, switches, Some(test_path_string(&[]))).unwrap_err();
    match error {
        ConfigError::UnknownBankId { bank } => {
            assert_eq!(bank.as_str(), "invalid");
        }
        _ => {
            panic!("Expected error to be ConfigError::UnknownBankId");
        }
    }
}

#[test]
fn config_with_invalid_sample_id() {
    let banks = vec![declared_bank("mybank", false, vec![declared_sample("mysample", "foo.mp3")])];
    let switches = vec![SwitchConfig {
        play: declared_play("mybank", "invalid"),
        ..declared_switch("invalid bank id")
    }];
    let error = Config::resolve(banks, switches, Some(test_path_string(&[]))).unwrap_err();
    match error {
        ConfigError::UnknownSampleId { bank, sample } => {
            assert_eq!(bank.as_str(), "mybank");
            assert_eq!(sample.as_str(), "invalid");
        }
        _ => {
            panic!("Expected error to be ConfigError::UnknownSampleId");
        }
    }
}

#[test]
fn play_in_unknown_bank_names_the_bank() {
    let switches =
        vec![SwitchConfig { play: declared_play("nowhere", "foo1"), ..declared_switch("play") }];
    let error = Config::resolve(example_banks(), switches, None).unwrap_err();
    assert_eq!(error, ConfigError::UnknownBankId { bank: "nowhere".to_string() });
    assert_eq!(error.message(), "Bank with id \"nowhere\" has not been defined");
}

#[test]
fn step_in_unknown_bank_names_the_bank() {
    let switches = vec![SwitchConfig {
        play_step: Some(SwitchPlayStep {
            bank: "nowhere".to_string(),
            steps: -1,
            bank_ref: BankRef::default(),
        }),
        ..declared_switch("step")
    }];
    let error = Config::resolve(example_banks(), switches, None).unwrap_err();
    assert_eq!(error, ConfigError::UnknownBankId { bank: "nowhere".to_string() });
}

#[test]
fn unknown_sample_message_names_bank_and_sample() {
    let error = ConfigError::UnknownSampleId {
        bank: "mybank".to_string(),
        sample: "invalid".to_string(),
    };
    assert_eq!(
        error.message(),
        "Sample with id \"invalid\" has not been defined in bank \"mybank\""
    );
}

#[test]
fn unknown_keyboard_key_is_refused_with_the_allowed_values() {
    let switches = vec![key_switch("good", "A"), key_switch("bad", "NotAKey")];
    let error = Config::resolve(vec![], switches, None).unwrap_err();
    match &error {
        ConfigError::UnknownKeyboardButton { button, allowed_values } => {
            assert_eq!(button, "NotAKey");
            assert!(allowed_values.starts_with("1, 2, 3, 4, 5, 6, 7, 8, 9, 0, A, B, C"));
            assert!(allowed_values.ends_with("Underline, VolumeDown, VolumeUp"));
            assert_eq!(allowed_values.split(", ").count(), 136);
        }
        _ => panic!("Expected error to be ConfigError::UnknownKeyboardButton"),
    }
    assert!(error.message().starts_with(
        "Unknown keyboard button \"NotAKey\". Allowed values are: 1, 2, 3"
    ));
}

#[test]
fn unknown_gamepad_button_is_refused_with_the_allowed_values() {
    let switches = vec![gamepad_switch("bad", None, "Unknown")];
    let error = Config::resolve(vec![], switches, None).unwrap_err();
    assert_eq!(
        error,
        ConfigError::UnknownGamepadButton {
            button: "Unknown".to_string(),
            allowed_values: "South, East, North, West, C, Z, LeftTrigger, LeftTrigger2, \
                             RightTrigger, RightTrigger2, Select, Start, Mode, LeftThumb, \
                             RightThumb, DPadUp, DPadDown, DPadLeft, DPadRight"
                .to_string(),
        }
    );
    assert_eq!(
        error.message(),
        "Unknown gamepad button \"Unknown\". Allowed values are: South, East, North, West, C, Z, \
         LeftTrigger, LeftTrigger2, RightTrigger, RightTrigger2, Select, Start, Mode, LeftThumb, \
         RightThumb, DPadUp, DPadDown, DPadLeft, DPadRight"
    );
}

#[test]
fn unknown_identifier_is_reported_before_unknown_button_and_key() {
    let switches = vec![
        key_switch("bad key", "NotAKey"),
        gamepad_switch("bad button", None, "NotAButton"),
        SwitchConfig { play: declared_play("bankA", "nothing"), ..declared_switch("bad sample") },
    ];
    let error = Config::resolve(example_banks(), switches, None).unwrap_err();
    assert_eq!(
        error,
        ConfigError::UnknownSampleId { bank: "bankA".to_string(), sample: "nothing".to_string() }
    );
}

#[test]
fn unknown_key_is_reported_before_unknown_button() {
    // one switch with both names unknown
    let switch = SwitchConfig {
        key: Some("Bogus".to_string()),
        gamepad: declared_gamepad(None, "Nope"),
        ..declared_switch("t")
    };
    let error = Config::resolve(vec![], vec![switch], None).unwrap_err();
    match error {
        ConfigError::UnknownKeyboardButton { button, .. } => assert_eq!(button, "Bogus"),
        _ => panic!("Expected error to be ConfigError::UnknownKeyboardButton"),
    }

    // the key names of all switches are resolved before any button name
    let switches = vec![
        gamepad_switch("bad button", None, "NotAButton"),
        key_switch("bad key", "NotAKey"),
        key_switch("another bad key", "NorThis"),
    ];
    let error = Config::resolve(example_banks(), switches, None).unwrap_err();
    match error {
        ConfigError::UnknownKeyboardButton { button, .. } => assert_eq!(button, "NotAKey"),
        _ => panic!("Expected error to be ConfigError::UnknownKeyboardButton"),
    }

    // with every key name known, the first unknown button name is reported
    let switches = vec![
        key_switch("good key", "A"),
        gamepad_switch("bad button", Some(1), "NotAButton"),
        gamepad_switch("another bad button", None, "NorThis"),
    ];
    let error = Config::resolve(example_banks(), switches, None).unwrap_err();
    match error {
        ConfigError::UnknownGamepadButton { button, .. } => assert_eq!(button, "NotAButton"),
        _ => panic!("Expected error to be ConfigError::UnknownGamepadButton"),
    }
}

#[test]
fn the_first_unknown_identifier_of_a_switch_is_reported() {
    let switches = vec![SwitchConfig {
        play: declared_play("bankA", "nothing"),
        play_random: Some(SwitchPlayRandom {
            bank: "nowhere".to_string(),
            bank_ref: BankRef::default(),
        }),
        ..declared_switch("two bad identifiers")
    }];
    let error = Config::resolve(example_banks(), switches, None).unwrap_err();
    assert_eq!(
        error,
        ConfigError::UnknownSampleId { bank: "bankA".to_string(), sample: "nothing".to_string() }
    );
}

#[test]
fn embedded_configuration_leaves_files_unresolved() {
    let config = Config::resolve(example_banks(), vec![], None).unwrap();
    assert_eq!(config.resolve_path, None);
    for bank in &config.banks {
        for sample in &bank.samples {
            assert_eq!(sample.file_resolved, None);
        }
    }
    assert_eq!(config.banks[1].samples[0].file, "foo1-bankB.mp3");
}

#[test]
fn sample_files_are_adjoined_to_the_resolve_path() {
    let banks = vec![declared_bank(
        "bank",
        false,
        vec![declared_sample("relative", "sub/sound.wav"), declared_sample("plain", "sound.wav")],
    )];
    let config = Config::resolve(banks, vec![], Some("base".to_string())).unwrap();
    let expected: PathBuf = ["base", "sub/sound.wav"].iter().collect();
    assert_eq!(
        config.banks[0].samples[0].file_resolved,
        Some(expected.to_str().unwrap().to_string())
    );
    assert_ne!(config.banks[0].samples[0].file_resolved, Some("base".to_string()));
    assert_ne!(config.banks[0].samples[1].file_resolved, Some("sound.wav".to_string()));
}

#[test]
fn duplicate_identifiers_resolve_to_the_later_declaration() {
    let banks = vec![
        declared_bank("twice", false, vec![declared_sample("a", "first.wav")]),
        declared_bank(
            "twice",
            false,
            vec![
                declared_sample("a", "second.wav"),
                declared_sample("b", "third.wav"),
                declared_sample("a", "fourth.wav"),
            ],
        ),
    ];
    let switches = vec![
        SwitchConfig { play: declared_play("twice", "a"), ..declared_switch("a") },
        SwitchConfig { play: declared_play("twice", "b"), ..declared_switch("b") },
    ];
    let config = Config::resolve(banks, switches, None).unwrap();
    assert_eq!(config.switches[0].play.as_ref().unwrap().bank_sample_ref, sample_ref(1, 2));
    assert_eq!(config.switches[1].play.as_ref().unwrap().bank_sample_ref, sample_ref(1, 1));
}

#[test]
fn id_lookup_finds_what_identifiers_stand_for() {
    let config = Config::resolve(example_banks(), vec![], None).unwrap();
    let lookup = ConfigIdLookup::new(&config.banks);
    assert_eq!(lookup.bank_id_to_ref("bankA"), Ok(BankRef { bank_index: 0 }));
    assert_eq!(lookup.bank_id_to_ref("bankB"), Ok(BankRef { bank_index: 1 }));
    assert_eq!(
        lookup.bank_id_to_ref("bankC"),
        Err(ConfigError::UnknownBankId { bank: "bankC".to_string() })
    );
    assert_eq!(lookup.sample_id_to_ref("bankA", "foo3"), Ok(sample_ref(0, 2)));
    assert_eq!(lookup.sample_id_to_ref("bankB", "foo1"), Ok(sample_ref(1, 0)));
    assert_eq!(
        lookup.sample_id_to_ref("bankB", "foo2"),
        Err(ConfigError::UnknownSampleId { bank: "bankB".to_string(), sample: "foo2".to_string() })
    );
    assert_eq!(
        lookup.sample_id_to_ref("bankC", "foo1"),
        Err(ConfigError::UnknownBankId { bank: "bankC".to_string() })
    );
}

#[test]
fn accessors_return_what_a_reference_names() {
    let config = Config::resolve(example_banks(), example_switches(), None).unwrap();
    assert_eq!(config.switch(SwitchRef { switch_index: 3 }).title, "stopSounds option");
    assert_eq!(config.bank(BankRef { bank_index: 1 }).id, "bankB");
    let (bank, sample) = config.sample(sample_ref(0, 2));
    assert_eq!(bank.id, "bankA");
    assert_eq!(sample.id, "foo3");
    assert_eq!(config.banks[0].sample(SampleRef { sample_index: 1 }).file, "foo2.wav");
}

#[test]
fn a_switch_may_carry_all_three_actions() {
    let switches = vec![SwitchConfig {
        play: declared_play("bankA", "foo2"),
        play_random: Some(SwitchPlayRandom {
            bank: "bankB".to_string(),
            bank_ref: BankRef::default(),
        }),
        play_step: Some(SwitchPlayStep {
            bank: "bankA".to_string(),
            steps: -2,
            bank_ref: BankRef::default(),
        }),
        ..declared_switch("all three")
    }];
    let config = Config::resolve(example_banks(), switches, None).unwrap();
    let switch = &config.switches[0];
    assert_eq!(switch.play.as_ref().unwrap().bank_sample_ref, sample_ref(0, 1));
    assert_eq!(switch.play_random.as_ref().unwrap().bank_ref, BankRef { bank_index: 1 });
    assert_eq!(switch.play_step.as_ref().unwrap().bank_ref, BankRef { bank_index: 0 });
    assert_eq!(switch.play_step.as_ref().unwrap().steps, -2);
}

#[test]
fn resolving_overwrites_stale_references() {
    let mut switch = key_switch("stale", "B");
    switch.key_code = Some(KeyCode::A);
    switch.switch_ref = SwitchRef { switch_index: 42 };
    let mut unbound = declared_switch("unbound");
    unbound.key_code = Some(KeyCode::A);
    let config = Config::resolve(vec![], vec![switch, unbound], None).unwrap();
    assert_eq!(config.switches[0].key_code, Some(KeyCode::B));
    assert_eq!(config.switches[0].switch_ref, SwitchRef { switch_index: 0 });
    assert_eq!(config.switches[1].key_code, None);
    assert!(config.find_switch_for_keyboard_key(KeyCode::A).is_none());
}

#[test]
fn a_copy_of_a_configuration_answers_as_the_configuration_does() {
    let config =
        Config::resolve(example_banks(), example_switches(), Some("base".to_string())).unwrap();
    let copy = config.clone();
    assert_eq!(copy.banks, config.banks);
    assert_eq!(copy.switches, config.switches);
    assert_eq!(copy.resolve_path, config.resolve_path);
    assert_eq!(
        copy.find_switch_for_keyboard_key(KeyCode::X).unwrap().switch_ref,
        SwitchRef { switch_index: 5 }
    );
    assert_eq!(
        copy.find_switch_for_gamepad_button(123, Button::North).unwrap().switch_ref,
        SwitchRef { switch_index: 7 }
    );
    assert_eq!(
        copy.find_switch_for_gamepad_button(5, Button::North).unwrap().switch_ref,
        SwitchRef { switch_index: 6 }
    );
    assert_eq!(
        copy.find_switch_play_for_sample(sample_ref(1, 0)),
        config.find_switch_play_for_sample(sample_ref(1, 0))
    );
    assert!(copy.find_switch_play_for_sample(sample_ref(7, 7)).is_empty());
}
