use microswitch::keys::make_valid_gamepad_button_vec;
use microswitch::keys::make_valid_keyboard_button_vec;
use microswitch::keys::Button;
use microswitch::keys::KeyCode;
use microswitch::keys::GAMEPAD_BUTTON_COUNT;
use microswitch::keys::KEYBOARD_BUTTON_COUNT;
use microswitch::text::join;
use microswitch::text::str_eq;

#[test]
fn every_key_is_found_by_its_name() {
    let names = make_valid_keyboard_button_vec();
    assert_eq!(names.len(), 136);
    assert_eq!(KEYBOARD_BUTTON_COUNT, 136);
    for (index, name) in names.iter().enumerate() {
        let key = KeyCode::from_name(name).unwrap();
        assert_eq!(key, KeyCode::from_index(index));
        assert_eq!(key.name(), *name);
        assert_eq!(key.code(), index);
    }
    assert_eq!(names[0], "1");
    assert_eq!(names[9], "0");
    assert_eq!(names[135], "VolumeUp");
}

#[test]
fn key_names_are_matched_exactly() {
    assert_eq!(KeyCode::from_name("X"), Some(KeyCode::X));
    assert_eq!(KeyCode::from_name("Numpad7"), Some(KeyCode::Numpad7));
    assert_eq!(KeyCode::from_name("F24"), Some(KeyCode::F24));
    assert_eq!(KeyCode::from_name("1"), Some(KeyCode::Key1));
    assert_eq!(KeyCode::from_name("x"), None);
    assert_eq!(KeyCode::from_name("Key1"), None);
    assert_eq!(KeyCode::from_name(""), None);
    assert_eq!(KeyCode::from_name("X "), None);
}

#[test]
fn every_button_is_found_by_its_name() {
    let names = make_valid_gamepad_button_vec();
    assert_eq!(names.len(), 19);
    assert_eq!(GAMEPAD_BUTTON_COUNT, 19);
    for (index, name) in names.iter().enumerate() {
        let button = Button::from_name(name).unwrap();
        assert_eq!(button, Button::from_index(index));
        assert_eq!(button.name(), *name);
        assert_eq!(button.code(), index);
    }
    assert_eq!(names[0], "South");
    assert_eq!(names[18], "DPadRight");
}

#[test]
fn the_button_without_a_name_cannot_be_configured() {
    assert_eq!(Button::default(), Button::Unknown);
    assert_eq!(Button::from_name("Unknown"), None);
    assert_eq!(Button::from_name("north"), None);
    assert_eq!(Button::Unknown.code(), 19);
    // C and Z name a key and a button each
    assert_eq!(Button::from_name("C"), Some(Button::C));
    assert_eq!(KeyCode::from_name("C"), Some(KeyCode::C));
}

#[test]
fn join_puts_the_separator_between_the_parts() {
    assert_eq!(join(&vec![], ", "), "");
    assert_eq!(join(&vec!["one"], ", "), "one");
    assert_eq!(join(&vec!["one", "two", "three"], ", "), "one, two, three");
    assert_eq!(join(&vec!["", ""], "-"), "-");
}

#[test]
fn str_eq_compares_the_characters() {
    assert!(str_eq("", ""));
    assert!(str_eq("North", "North"));
    assert!(!str_eq("North", "north"));
    assert!(!str_eq("North", "Nort"));
    assert!(!str_eq("", " "));
    assert!(str_eq("\u{3bc}Switch", "\u{3bc}Switch"));
    assert!(!str_eq("\u{3bc}", "\u{3bd}"));
}
