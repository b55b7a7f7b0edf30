//! The closed vocabularies of keyboard keys and gamepad buttons that a
//! configuration may name, each in the order of its table of names.

use crate::text::str_eq;
use vstd::prelude::*;

verus! {

/// A keyboard key that a switch can be bound to.
#[derive(Debug, Copy, Clone, PartialEq, Eq, Hash, Structural)]
pub enum KeyCode {
    Key1,
    Key2,
    Key3,
    Key4,
    Key5,
    Key6,
    Key7,
    Key8,
    Key9,
    Key0,
    A,
    B,
    C,
    D,
    E,
    F,
    G,
    H,
    I,
    J,
    K,
    L,
    M,
    N,
    O,
    P,
    Q,
    R,
    S,
    T,
    U,
    V,
    W,
    X,
    Y,
    Z,
    Escape,
    F1,
    F2,
    F3,
    F4,
    F5,
    F6,
    F7,
    F8,
    F9,
    F10,
    F11,
    F12,
    F13,
    F14,
    F15,
    F16,
    F17,
    F18,
    F19,
    F20,
    F21,
    F22,
    F23,
    F24,
    Scroll,
    Pause,
    Insert,
    Home,
    Delete,
    End,
    PageDown,
    PageUp,
    Left,
    Up,
    Right,
    Down,
    Backspace,
    Enter,
    Space,
    Compose,
    Caret,
    Numlock,
    Numpad0,
    Numpad1,
    Numpad2,
    Numpad3,
    Numpad4,
    Numpad5,
    Numpad6,
    Numpad7,
    Numpad8,
    Numpad9,
    NumpadAdd,
    NumpadDivide,
    NumpadDecimal,
    NumpadComma,
    NumpadEnter,
    NumpadEquals,
    NumpadMultiply,
    NumpadSubtract,
    Apostrophe,
    Asterisk,
    Backslash,
    Capital,
    Colon,
    Comma,
    Convert,
    Equals,
    Grave,
    LAlt,
    LBracket,
    LControl,
    LShift,
    LWin,
    MediaSelect,
    MediaStop,
    Minus,
    Mute,
    NavigateForward,
    NavigateBackward,
    NextTrack,
    Period,
    PlayPause,
    Plus,
    PrevTrack,
    RAlt,
    RBracket,
    RControl,
    RShift,
    RWin,
    Semicolon,
    Slash,
    Sleep,
    Stop,
    Sysrq,
    Tab,
    Underline,
    VolumeDown,
    VolumeUp,
}

/// How many key names the configuration knows.
pub const KEYBOARD_BUTTON_COUNT: usize = 136;

impl KeyCode {
    /// The number that stands for this key in the lookup tables: its position in
    /// the table of names.
    pub open spec fn spec_code(self) -> int {
        match self {
            KeyCode::Key1 => 0,
            KeyCode::Key2 => 1,
            KeyCode::Key3 => 2,
            KeyCode::Key4 => 3,
            KeyCode::Key5 => 4,
            KeyCode::Key6 => 5,
            KeyCode::Key7 => 6,
            KeyCode::Key8 => 7,
            KeyCode::Key9 => 8,
            KeyCode::Key0 => 9,
            KeyCode::A => 10,
            KeyCode::B => 11,
            KeyCode::C => 12,
            KeyCode::D => 13,
            KeyCode::E => 14,
            KeyCode::F => 15,
            KeyCode::G => 16,
            KeyCode::H => 17,
            KeyCode::I => 18,
            KeyCode::J => 19,
            KeyCode::K => 20,
            KeyCode::L => 21,
            KeyCode::M => 22,
            KeyCode::N => 23,
            KeyCode::O => 24,
            KeyCode::P => 25,
            KeyCode::Q => 26,
            KeyCode::R => 27,
            KeyCode::S => 28,
            KeyCode::T => 29,
            KeyCode::U => 30,
            KeyCode::V => 31,
            KeyCode::W => 32,
            KeyCode::X => 33,
            KeyCode::Y => 34,
            KeyCode::Z => 35,
            KeyCode::Escape => 36,
            KeyCode::F1 => 37,
            KeyCode::F2 => 38,
            KeyCode::F3 => 39,
            KeyCode::F4 => 40,
            KeyCode::F5 => 41,
            KeyCode::F6 => 42,
            KeyCode::F7 => 43,
            KeyCode::F8 => 44,
            KeyCode::F9 => 45,
            KeyCode::F10 => 46,
            KeyCode::F11 => 47,
            KeyCode::F12 => 48,
            KeyCode::F13 => 49,
            KeyCode::F14 => 50,
            KeyCode::F15 => 51,
            KeyCode::F16 => 52,
            KeyCode::F17 => 53,
            KeyCode::F18 => 54,
            KeyCode::F19 => 55,
            KeyCode::F20 => 56,
            KeyCode::F21 => 57,
            KeyCode::F22 => 58,
            KeyCode::F23 => 59,
            KeyCode::F24 => 60,
            KeyCode::Scroll => 61,
            KeyCode::Pause => 62,
            KeyCode::Insert => 63,
            KeyCode::Home => 64,
            KeyCode::Delete => 65,
            KeyCode::End => 66,
            KeyCode::PageDown => 67,
            KeyCode::PageUp => 68,
            KeyCode::Left => 69,
            KeyCode::Up => 70,
            KeyCode::Right => 71,
            KeyCode::Down => 72,
            KeyCode::Backspace => 73,
            KeyCode::Enter => 74,
            KeyCode::Space => 75,
            KeyCode::Compose => 76,
            KeyCode::Caret => 77,
            KeyCode::Numlock => 78,
            KeyCode::Numpad0 => 79,
            KeyCode::Numpad1 => 80,
            KeyCode::Numpad2 => 81,
            KeyCode::Numpad3 => 82,
            KeyCode::Numpad4 => 83,
            KeyCode::Numpad5 => 84,
            KeyCode::Numpad6 => 85,
            KeyCode::Numpad7 => 86,
            KeyCode::Numpad8 => 87,
            KeyCode::Numpad9 => 88,
            KeyCode::NumpadAdd => 89,
            KeyCode::NumpadDivide => 90,
            KeyCode::NumpadDecimal => 91,
            KeyCode::NumpadComma => 92,
            KeyCode::NumpadEnter => 93,
            KeyCode::NumpadEquals => 94,
            KeyCode::NumpadMultiply => 95,
            KeyCode::NumpadSubtract => 96,
            KeyCode::Apostrophe => 97,
            KeyCode::Asterisk => 98,
            KeyCode::Backslash => 99,
            KeyCode::Capital => 100,
            KeyCode::Colon => 101,
            KeyCode::Comma => 102,
            KeyCode::Convert => 103,
            KeyCode::Equals => 104,
            KeyCode::Grave => 105,
            KeyCode::LAlt => 106,
            KeyCode::LBracket => 107,
            KeyCode::LControl => 108,
            KeyCode::LShift => 109,
            KeyCode::LWin => 110,
            KeyCode::MediaSelect => 111,
            KeyCode::MediaStop => 112,
            KeyCode::Minus => 113,
            KeyCode::Mute => 114,
            KeyCode::NavigateForward => 115,
            KeyCode::NavigateBackward => 116,
            KeyCode::NextTrack => 117,
            KeyCode::Period => 118,
            KeyCode::PlayPause => 119,
            KeyCode::Plus => 120,
            KeyCode::PrevTrack => 121,
            KeyCode::RAlt => 122,
            KeyCode::RBracket => 123,
            KeyCode::RControl => 124,
            KeyCode::RShift => 125,
            KeyCode::RWin => 126,
            KeyCode::Semicolon => 127,
            KeyCode::Slash => 128,
            KeyCode::Sleep => 129,
            KeyCode::Stop => 130,
            KeyCode::Sysrq => 131,
            KeyCode::Tab => 132,
            KeyCode::Underline => 133,
            KeyCode::VolumeDown => 134,
            KeyCode::VolumeUp => 135,
        }
    }

    /// The key that the number `index` stands for; for an index below the number
    /// of known names, the key at that position of the table of names.
    pub open spec fn at(index: int) -> KeyCode {
        if index == 0 {
            KeyCode::Key1
        } else if index == 1 {
            KeyCode::Key2
        } else if index == 2 {
            KeyCode::Key3
        } else if index == 3 {
            KeyCode::Key4
        } else if index == 4 {
            KeyCode::Key5
        } else if index == 5 {
            KeyCode::Key6
        } else if index == 6 {
            KeyCode::Key7
        } else if index == 7 {
            KeyCode::Key8
        } else if index == 8 {
            KeyCode::Key9
        } else if index == 9 {
            KeyCode::Key0
        } else if index == 10 {
            KeyCode::A
        } else if index == 11 {
            KeyCode::B
        } else if index == 12 {
            KeyCode::C
        } else if index == 13 {
            KeyCode::D
        } else if index == 14 {
            KeyCode::E
        } else if index == 15 {
            KeyCode::F
        } else if index == 16 {
            KeyCode::G
        } else if index == 17 {
            KeyCode::H
        } else if index == 18 {
            KeyCode::I
        } else if index == 19 {
            KeyCode::J
        } else if index == 20 {
            KeyCode::K
        } else if index == 21 {
            KeyCode::L
        } else if index == 22 {
            KeyCode::M
        } else if index == 23 {
            KeyCode::N
        } else if index == 24 {
            KeyCode::O
        } else if index == 25 {
            KeyCode::P
        } else if index == 26 {
            KeyCode::Q
        } else if index == 27 {
            KeyCode::R
        } else if index == 28 {
            KeyCode::S
        } else if index == 29 {
            KeyCode::T
        } else if index == 30 {
            KeyCode::U
        } else if index == 31 {
            KeyCode::V
        } else if index == 32 {
            KeyCode::W
        } else if index == 33 {
            KeyCode::X
        } else if index == 34 {
            KeyCode::Y
        } else if index == 35 {
            KeyCode::Z
        } else if index == 36 {
            KeyCode::Escape
        } else if index == 37 {
            KeyCode::F1
        } else if index == 38 {
            KeyCode::F2
        } else if index == 39 {
            KeyCode::F3
        } else if index == 40 {
            KeyCode::F4
        } else if index == 41 {
            KeyCode::F5
        } else if index == 42 {
            KeyCode::F6
        } else if index == 43 {
            KeyCode::F7
        } else if index == 44 {
            KeyCode::F8
        } else if index == 45 {
            KeyCode::F9
        } else if index == 46 {
            KeyCode::F10
        } else if index == 47 {
            KeyCode::F11
        } else if index == 48 {
            KeyCode::F12
        } else if index == 49 {
            KeyCode::F13
        } else if index == 50 {
            KeyCode::F14
        } else if index == 51 {
            KeyCode::F15
        } else if index == 52 {
            KeyCode::F16
        } else if index == 53 {
            KeyCode::F17
        } else if index == 54 {
            KeyCode::F18
        } else if index == 55 {
            KeyCode::F19
        } else if index == 56 {
            KeyCode::F20
        } else if index == 57 {
            KeyCode::F21
        } else if index == 58 {
            KeyCode::F22
        } else if index == 59 {
            KeyCode::F23
        } else if index == 60 {
            KeyCode::F24
        } else if index == 61 {
            KeyCode::Scroll
        } else if index == 62 {
            KeyCode::Pause
        } else if index == 63 {
            KeyCode::Insert
        } else if index == 64 {
            KeyCode::Home
        } else if index == 65 {
            KeyCode::Delete
        } else if index == 66 {
            KeyCode::End
        } else if index == 67 {
            KeyCode::PageDown
        } else if index == 68 {
            KeyCode::PageUp
        } else if index == 69 {
            KeyCode::Left
        } else if index == 70 {
            KeyCode::Up
        } else if index == 71 {
            KeyCode::Right
        } else if index == 72 {
            KeyCode::Down
        } else if index == 73 {
            KeyCode::Backspace
        } else if index == 74 {
            KeyCode::Enter
        } else if index == 75 {
            KeyCode::Space
        } else if index == 76 {
            KeyCode::Compose
        } else if index == 77 {
            KeyCode::Caret
        } else if index == 78 {
            KeyCode::Numlock
        } else if index == 79 {
            KeyCode::Numpad0
        } else if index == 80 {
            KeyCode::Numpad1
        } else if index == 81 {
            KeyCode::Numpad2
        } else if index == 82 {
            KeyCode::Numpad3
        } else if index == 83 {
            KeyCode::Numpad4
        } else if index == 84 {
            KeyCode::Numpad5
        } else if index == 85 {
            KeyCode::Numpad6
        } else if index == 86 {
            KeyCode::Numpad7
        } else if index == 87 {
            KeyCode::Numpad8
        } else if index == 88 {
            KeyCode::Numpad9
        } else if index == 89 {
            KeyCode::NumpadAdd
        } else if index == 90 {
            KeyCode::NumpadDivide
        } else if index == 91 {
            KeyCode::NumpadDecimal
        } else if index == 92 {
            KeyCode::NumpadComma
        } else if index == 93 {
            KeyCode::NumpadEnter
        } else if index == 94 {
            KeyCode::NumpadEquals
        } else if index == 95 {
            KeyCode::NumpadMultiply
        } else if index == 96 {
            KeyCode::NumpadSubtract
        } else if index == 97 {
            KeyCode::Apostrophe
        } else if index == 98 {
            KeyCode::Asterisk
        } else if index == 99 {
            KeyCode::Backslash
        } else if index == 100 {
            KeyCode::Capital
        } else if index == 101 {
            KeyCode::Colon
        } else if index == 102 {
            KeyCode::Comma
        } else if index == 103 {
            KeyCode::Convert
        } else if index == 104 {
            KeyCode::Equals
        } else if index == 105 {
            KeyCode::Grave
        } else if index == 106 {
            KeyCode::LAlt
        } else if index == 107 {
            KeyCode::LBracket
        } else if index == 108 {
            KeyCode::LControl
        } else if index == 109 {
            KeyCode::LShift
        } else if index == 110 {
            KeyCode::LWin
        } else if index == 111 {
            KeyCode::MediaSelect
        } else if index == 112 {
            KeyCode::MediaStop
        } else if index == 113 {
            KeyCode::Minus
        } else if index == 114 {
            KeyCode::Mute
        } else if index == 115 {
            KeyCode::NavigateForward
        } else if index == 116 {
            KeyCode::NavigateBackward
        } else if index == 117 {
            KeyCode::NextTrack
        } else if index == 118 {
            KeyCode::Period
        } else if index == 119 {
            KeyCode::PlayPause
        } else if index == 120 {
            KeyCode::Plus
        } else if index == 121 {
            KeyCode::PrevTrack
        } else if index == 122 {
            KeyCode::RAlt
        } else if index == 123 {
            KeyCode::RBracket
        } else if index == 124 {
            KeyCode::RControl
        } else if index == 125 {
            KeyCode::RShift
        } else if index == 126 {
            KeyCode::RWin
        } else if index == 127 {
            KeyCode::Semicolon
        } else if index == 128 {
            KeyCode::Slash
        } else if index == 129 {
            KeyCode::Sleep
        } else if index == 130 {
            KeyCode::Stop
        } else if index == 131 {
            KeyCode::Sysrq
        } else if index == 132 {
            KeyCode::Tab
        } else if index == 133 {
            KeyCode::Underline
        } else if index == 134 {
            KeyCode::VolumeDown
        } else {
            KeyCode::VolumeUp
        }
    }

    /// The name by which the configuration refers to this key.
    pub open spec fn spec_name(self) -> Seq<char> {
        match self {
            KeyCode::Key1 => "1"@,
            KeyCode::Key2 => "2"@,
            KeyCode::Key3 => "3"@,
            KeyCode::Key4 => "4"@,
            KeyCode::Key5 => "5"@,
            KeyCode::Key6 => "6"@,
            KeyCode::Key7 => "7"@,
            KeyCode::Key8 => "8"@,
            KeyCode::Key9 => "9"@,
            KeyCode::Key0 => "0"@,
            KeyCode::A => "A"@,
            KeyCode::B => "B"@,
            KeyCode::C => "C"@,
            KeyCode::D => "D"@,
            KeyCode::E => "E"@,
            KeyCode::F => "F"@,
            KeyCode::G => "G"@,
            KeyCode::H => "H"@,
            KeyCode::I => "I"@,
            KeyCode::J => "J"@,
            KeyCode::K => "K"@,
            KeyCode::L => "L"@,
            KeyCode::M => "M"@,
            KeyCode::N => "N"@,
            KeyCode::O => "O"@,
            KeyCode::P => "P"@,
            KeyCode::Q => "Q"@,
            KeyCode::R => "R"@,
            KeyCode::S => "S"@,
            KeyCode::T => "T"@,
            KeyCode::U => "U"@,
            KeyCode::V => "V"@,
            KeyCode::W => "W"@,
            KeyCode::X => "X"@,
            KeyCode::Y => "Y"@,
            KeyCode::Z => "Z"@,
            KeyCode::Escape => "Escape"@,
            KeyCode::F1 => "F1"@,
            KeyCode::F2 => "F2"@,
            KeyCode::F3 => "F3"@,
            KeyCode::F4 => "F4"@,
            KeyCode::F5 => "F5"@,
            KeyCode::F6 => "F6"@,
            KeyCode::F7 => "F7"@,
            KeyCode::F8 => "F8"@,
            KeyCode::F9 => "F9"@,
            KeyCode::F10 => "F10"@,
            KeyCode::F11 => "F11"@,
            KeyCode::F12 => "F12"@,
            KeyCode::F13 => "F13"@,
            KeyCode::F14 => "F14"@,
            KeyCode::F15 => "F15"@,
            KeyCode::F16 => "F16"@,
            KeyCode::F17 => "F17"@,
            KeyCode::F18 => "F18"@,
            KeyCode::F19 => "F19"@,
            KeyCode::F20 => "F20"@,
            KeyCode::F21 => "F21"@,
            KeyCode::F22 => "F22"@,
            KeyCode::F23 => "F23"@,
            KeyCode::F24 => "F24"@,
            KeyCode::Scroll => "Scroll"@,
            KeyCode::Pause => "Pause"@,
            KeyCode::Insert => "Insert"@,
            KeyCode::Home => "Home"@,
            KeyCode::Delete => "Delete"@,
            KeyCode::End => "End"@,
            KeyCode::PageDown => "PageDown"@,
            KeyCode::PageUp => "PageUp"@,
            KeyCode::Left => "Left"@,
            KeyCode::Up => "Up"@,
            KeyCode::Right => "Right"@,
            KeyCode::Down => "Down"@,
            KeyCode::Backspace => "Backspace"@,
            KeyCode::Enter => "Enter"@,
            KeyCode::Space => "Space"@,
            KeyCode::Compose => "Compose"@,
            KeyCode::Caret => "Caret"@,
            KeyCode::Numlock => "Numlock"@,
            KeyCode::Numpad0 => "Numpad0"@,
            KeyCode::Numpad1 => "Numpad1"@,
            KeyCode::Numpad2 => "Numpad2"@,
            KeyCode::Numpad3 => "Numpad3"@,
            KeyCode::Numpad4 => "Numpad4"@,
            KeyCode::Numpad5 => "Numpad5"@,
            KeyCode::Numpad6 => "Numpad6"@,
            KeyCode::Numpad7 => "Numpad7"@,
            KeyCode::Numpad8 => "Numpad8"@,
            KeyCode::Numpad9 => "Numpad9"@,
            KeyCode::NumpadAdd => "NumpadAdd"@,
            KeyCode::NumpadDivide => "NumpadDivide"@,
            KeyCode::NumpadDecimal => "NumpadDecimal"@,
            KeyCode::NumpadComma => "NumpadComma"@,
            KeyCode::NumpadEnter => "NumpadEnter"@,
            KeyCode::NumpadEquals => "NumpadEquals"@,
            KeyCode::NumpadMultiply => "NumpadMultiply"@,
            KeyCode::NumpadSubtract => "NumpadSubtract"@,
            KeyCode::Apostrophe => "Apostrophe"@,
            KeyCode::Asterisk => "Asterisk"@,
            KeyCode::Backslash => "Backslash"@,
            KeyCode::Capital => "Capital"@,
            KeyCode::Colon => "Colon"@,
            KeyCode::Comma => "Comma"@,
            KeyCode::Convert => "Convert"@,
            KeyCode::Equals => "Equals"@,
            KeyCode::Grave => "Grave"@,
            KeyCode::LAlt => "LAlt"@,
            KeyCode::LBracket => "LBracket"@,
            KeyCode::LControl => "LControl"@,
            KeyCode::LShift => "LShift"@,
            KeyCode::LWin => "LWin"@,
            KeyCode::MediaSelect => "MediaSelect"@,
            KeyCode::MediaStop => "MediaStop"@,
            KeyCode::Minus => "Minus"@,
            KeyCode::Mute => "Mute"@,
            KeyCode::NavigateForward => "NavigateForward"@,
            KeyCode::NavigateBackward => "NavigateBackward"@,
            KeyCode::NextTrack => "NextTrack"@,
            KeyCode::Period => "Period"@,
            KeyCode::PlayPause => "PlayPause"@,
            KeyCode::Plus => "Plus"@,
            KeyCode::PrevTrack => "PrevTrack"@,
            KeyCode::RAlt => "RAlt"@,
            KeyCode::RBracket => "RBracket"@,
            KeyCode::RControl => "RControl"@,
            KeyCode::RShift => "RShift"@,
            KeyCode::RWin => "RWin"@,
            KeyCode::Semicolon => "Semicolon"@,
            KeyCode::Slash => "Slash"@,
            KeyCode::Sleep => "Sleep"@,
            KeyCode::Stop => "Stop"@,
            KeyCode::Sysrq => "Sysrq"@,
            KeyCode::Tab => "Tab"@,
            KeyCode::Underline => "Underline"@,
            KeyCode::VolumeDown => "VolumeDown"@,
            KeyCode::VolumeUp => "VolumeUp"@,
        }
    }

    /// The key that the table of names gives for `name`, looking only at its
    /// first `limit` entries: the last of them that carries the name.
    pub open spec fn named_below(name: Seq<char>, limit: int) -> Option<KeyCode>
        decreases limit,
    {
        if limit <= 0 {
            None
        } else if KeyCode::at(limit - 1).spec_name() == name {
            Some(KeyCode::at(limit - 1))
        } else {
            KeyCode::named_below(name, limit - 1)
        }
    }

    /// The key that `name` stands for, if it is one of the known names.
    pub open spec fn named(name: Seq<char>) -> Option<KeyCode> {
        KeyCode::named_below(name, KEYBOARD_BUTTON_COUNT as int)
    }

    /// The number that stands for this key in the lookup tables.
    pub fn code(self) -> (code: usize)
        ensures
            code == self.spec_code(),
            code <= KEYBOARD_BUTTON_COUNT,
    {
        match self {
            KeyCode::Key1 => 0,
            KeyCode::Key2 => 1,
            KeyCode::Key3 => 2,
            KeyCode::Key4 => 3,
            KeyCode::Key5 => 4,
            KeyCode::Key6 => 5,
            KeyCode::Key7 => 6,
            KeyCode::Key8 => 7,
            KeyCode::Key9 => 8,
            KeyCode::Key0 => 9,
            KeyCode::A => 10,
            KeyCode::B => 11,
            KeyCode::C => 12,
            KeyCode::D => 13,
            KeyCode::E => 14,
            KeyCode::F => 15,
            KeyCode::G => 16,
            KeyCode::H => 17,
            KeyCode::I => 18,
            KeyCode::J => 19,
            KeyCode::K => 20,
            KeyCode::L => 21,
            KeyCode::M => 22,
            KeyCode::N => 23,
            KeyCode::O => 24,
            KeyCode::P => 25,
            KeyCode::Q => 26,
            KeyCode::R => 27,
            KeyCode::S => 28,
            KeyCode::T => 29,
            KeyCode::U => 30,
            KeyCode::V => 31,
            KeyCode::W => 32,
            KeyCode::X => 33,
            KeyCode::Y => 34,
            KeyCode::Z => 35,
            KeyCode::Escape => 36,
            KeyCode::F1 => 37,
            KeyCode::F2 => 38,
            KeyCode::F3 => 39,
            KeyCode::F4 => 40,
            KeyCode::F5 => 41,
            KeyCode::F6 => 42,
            KeyCode::F7 => 43,
            KeyCode::F8 => 44,
            KeyCode::F9 => 45,
            KeyCode::F10 => 46,
            KeyCode::F11 => 47,
            KeyCode::F12 => 48,
            KeyCode::F13 => 49,
            KeyCode::F14 => 50,
            KeyCode::F15 => 51,
            KeyCode::F16 => 52,
            KeyCode::F17 => 53,
            KeyCode::F18 => 54,
            KeyCode::F19 => 55,
            KeyCode::F20 => 56,
            KeyCode::F21 => 57,
            KeyCode::F22 => 58,
            KeyCode::F23 => 59,
            KeyCode::F24 => 60,
            KeyCode::Scroll => 61,
            KeyCode::Pause => 62,
            KeyCode::Insert => 63,
            KeyCode::Home => 64,
            KeyCode::Delete => 65,
            KeyCode::End => 66,
            KeyCode::PageDown => 67,
            KeyCode::PageUp => 68,
            KeyCode::Left => 69,
            KeyCode::Up => 70,
            KeyCode::Right => 71,
            KeyCode::Down => 72,
            KeyCode::Backspace => 73,
            KeyCode::Enter => 74,
            KeyCode::Space => 75,
            KeyCode::Compose => 76,
            KeyCode::Caret => 77,
            KeyCode::Numlock => 78,
            KeyCode::Numpad0 => 79,
            KeyCode::Numpad1 => 80,
            KeyCode::Numpad2 => 81,
            KeyCode::Numpad3 => 82,
            KeyCode::Numpad4 => 83,
            KeyCode::Numpad5 => 84,
            KeyCode::Numpad6 => 85,
            KeyCode::Numpad7 => 86,
            KeyCode::Numpad8 => 87,
            KeyCode::Numpad9 => 88,
            KeyCode::NumpadAdd => 89,
            KeyCode::NumpadDivide => 90,
            KeyCode::NumpadDecimal => 91,
            KeyCode::NumpadComma => 92,
            KeyCode::NumpadEnter => 93,
            KeyCode::NumpadEquals => 94,
            KeyCode::NumpadMultiply => 95,
            KeyCode::NumpadSubtract => 96,
            KeyCode::Apostrophe => 97,
            KeyCode::Asterisk => 98,
            KeyCode::Backslash => 99,
            KeyCode::Capital => 100,
            KeyCode::Colon => 101,
            KeyCode::Comma => 102,
            KeyCode::Convert => 103,
            KeyCode::Equals => 104,
            KeyCode::Grave => 105,
            KeyCode::LAlt => 106,
            KeyCode::LBracket => 107,
            KeyCode::LControl => 108,
            KeyCode::LShift => 109,
            KeyCode::LWin => 110,
            KeyCode::MediaSelect => 111,
            KeyCode::MediaStop => 112,
            KeyCode::Minus => 113,
            KeyCode::Mute => 114,
            KeyCode::NavigateForward => 115,
            KeyCode::NavigateBackward => 116,
            KeyCode::NextTrack => 117,
            KeyCode::Period => 118,
            KeyCode::PlayPause => 119,
            KeyCode::Plus => 120,
            KeyCode::PrevTrack => 121,
            KeyCode::RAlt => 122,
            KeyCode::RBracket => 123,
            KeyCode::RControl => 124,
            KeyCode::RShift => 125,
            KeyCode::RWin => 126,
            KeyCode::Semicolon => 127,
            KeyCode::Slash => 128,
            KeyCode::Sleep => 129,
            KeyCode::Stop => 130,
            KeyCode::Sysrq => 131,
            KeyCode::Tab => 132,
            KeyCode::Underline => 133,
            KeyCode::VolumeDown => 134,
            KeyCode::VolumeUp => 135,
        }
    }

    /// The key at position `index` of the table of names.
    pub fn from_index(index: usize) -> (found: KeyCode)
        requires
            index < KEYBOARD_BUTTON_COUNT,
        ensures
            found == KeyCode::at(index as int),
            found.spec_code() == index,
    {
        match index {
            0 => KeyCode::Key1,
            1 => KeyCode::Key2,
            2 => KeyCode::Key3,
            3 => KeyCode::Key4,
            4 => KeyCode::Key5,
            5 => KeyCode::Key6,
            6 => KeyCode::Key7,
            7 => KeyCode::Key8,
            8 => KeyCode::Key9,
            9 => KeyCode::Key0,
            10 => KeyCode::A,
            11 => KeyCode::B,
            12 => KeyCode::C,
            13 => KeyCode::D,
            14 => KeyCode::E,
            15 => KeyCode::F,
            16 => KeyCode::G,
            17 => KeyCode::H,
            18 => KeyCode::I,
            19 => KeyCode::J,
            20 => KeyCode::K,
            21 => KeyCode::L,
            22 => KeyCode::M,
            23 => KeyCode::N,
            24 => KeyCode::O,
            25 => KeyCode::P,
            26 => KeyCode::Q,
            27 => KeyCode::R,
            28 => KeyCode::S,
            29 => KeyCode::T,
            30 => KeyCode::U,
            31 => KeyCode::V,
            32 => KeyCode::W,
            33 => KeyCode::X,
            34 => KeyCode::Y,
            35 => KeyCode::Z,
            36 => KeyCode::Escape,
            37 => KeyCode::F1,
            38 => KeyCode::F2,
            39 => KeyCode::F3,
            40 => KeyCode::F4,
            41 => KeyCode::F5,
            42 => KeyCode::F6,
            43 => KeyCode::F7,
            44 => KeyCode::F8,
            45 => KeyCode::F9,
            46 => KeyCode::F10,
            47 => KeyCode::F11,
            48 => KeyCode::F12,
            49 => KeyCode::F13,
            50 => KeyCode::F14,
            51 => KeyCode::F15,
            52 => KeyCode::F16,
            53 => KeyCode::F17,
            54 => KeyCode::F18,
            55 => KeyCode::F19,
            56 => KeyCode::F20,
            57 => KeyCode::F21,
            58 => KeyCode::F22,
            59 => KeyCode::F23,
            60 => KeyCode::F24,
            61 => KeyCode::Scroll,
            62 => KeyCode::Pause,
            63 => KeyCode::Insert,
            64 => KeyCode::Home,
            65 => KeyCode::Delete,
            66 => KeyCode::End,
            67 => KeyCode::PageDown,
            68 => KeyCode::PageUp,
            69 => KeyCode::Left,
            70 => KeyCode::Up,
            71 => KeyCode::Right,
            72 => KeyCode::Down,
            73 => KeyCode::Backspace,
            74 => KeyCode::Enter,
            75 => KeyCode::Space,
            76 => KeyCode::Compose,
            77 => KeyCode::Caret,
            78 => KeyCode::Numlock,
            79 => KeyCode::Numpad0,
            80 => KeyCode::Numpad1,
            81 => KeyCode::Numpad2,
            82 => KeyCode::Numpad3,
            83 => KeyCode::Numpad4,
            84 => KeyCode::Numpad5,
            85 => KeyCode::Numpad6,
            86 => KeyCode::Numpad7,
            87 => KeyCode::Numpad8,
            88 => KeyCode::Numpad9,
            89 => KeyCode::NumpadAdd,
            90 => KeyCode::NumpadDivide,
            91 => KeyCode::NumpadDecimal,
            92 => KeyCode::NumpadComma,
            93 => KeyCode::NumpadEnter,
            94 => KeyCode::NumpadEquals,
            95 => KeyCode::NumpadMultiply,
            96 => KeyCode::NumpadSubtract,
            97 => KeyCode::Apostrophe,
            98 => KeyCode::Asterisk,
            99 => KeyCode::Backslash,
            100 => KeyCode::Capital,
            101 => KeyCode::Colon,
            102 => KeyCode::Comma,
            103 => KeyCode::Convert,
            104 => KeyCode::Equals,
            105 => KeyCode::Grave,
            106 => KeyCode::LAlt,
            107 => KeyCode::LBracket,
            108 => KeyCode::LControl,
            109 => KeyCode::LShift,
            110 => KeyCode::LWin,
            111 => KeyCode::MediaSelect,
            112 => KeyCode::MediaStop,
            113 => KeyCode::Minus,
            114 => KeyCode::Mute,
            115 => KeyCode::NavigateForward,
            116 => KeyCode::NavigateBackward,
            117 => KeyCode::NextTrack,
            118 => KeyCode::Period,
            119 => KeyCode::PlayPause,
            120 => KeyCode::Plus,
            121 => KeyCode::PrevTrack,
            122 => KeyCode::RAlt,
            123 => KeyCode::RBracket,
            124 => KeyCode::RControl,
            125 => KeyCode::RShift,
            126 => KeyCode::RWin,
            127 => KeyCode::Semicolon,
            128 => KeyCode::Slash,
            129 => KeyCode::Sleep,
            130 => KeyCode::Stop,
            131 => KeyCode::Sysrq,
            132 => KeyCode::Tab,
            133 => KeyCode::Underline,
            134 => KeyCode::VolumeDown,
            _ => KeyCode::VolumeUp,
        }
    }

    /// The name by which the configuration refers to this key.
    pub fn name(self) -> (name: &'static str)
        ensures
            name@ == self.spec_name(),
    {
        match self {
            KeyCode::Key1 => "1",
            KeyCode::Key2 => "2",
            KeyCode::Key3 => "3",
            KeyCode::Key4 => "4",
            KeyCode::Key5 => "5",
            KeyCode::Key6 => "6",
            KeyCode::Key7 => "7",
            KeyCode::Key8 => "8",
            KeyCode::Key9 => "9",
            KeyCode::Key0 => "0",
            KeyCode::A => "A",
            KeyCode::B => "B",
            KeyCode::C => "C",
            KeyCode::D => "D",
            KeyCode::E => "E",
            KeyCode::F => "F",
            KeyCode::G => "G",
            KeyCode::H => "H",
            KeyCode::I => "I",
            KeyCode::J => "J",
            KeyCode::K => "K",
            KeyCode::L => "L",
            KeyCode::M => "M",
            KeyCode::N => "N",
            KeyCode::O => "O",
            KeyCode::P => "P",
            KeyCode::Q => "Q",
            KeyCode::R => "R",
            KeyCode::S => "S",
            KeyCode::T => "T",
            KeyCode::U => "U",
            KeyCode::V => "V",
            KeyCode::W => "W",
            KeyCode::X => "X",
            KeyCode::Y => "Y",
            KeyCode::Z => "Z",
            KeyCode::Escape => "Escape",
            KeyCode::F1 => "F1",
            KeyCode::F2 => "F2",
            KeyCode::F3 => "F3",
            KeyCode::F4 => "F4",
            KeyCode::F5 => "F5",
            KeyCode::F6 => "F6",
            KeyCode::F7 => "F7",
            KeyCode::F8 => "F8",
            KeyCode::F9 => "F9",
            KeyCode::F10 => "F10",
            KeyCode::F11 => "F11",
            KeyCode::F12 => "F12",
            KeyCode::F13 => "F13",
            KeyCode::F14 => "F14",
            KeyCode::F15 => "F15",
            KeyCode::F16 => "F16",
            KeyCode::F17 => "F17",
            KeyCode::F18 => "F18",
            KeyCode::F19 => "F19",
            KeyCode::F20 => "F20",
            KeyCode::F21 => "F21",
            KeyCode::F22 => "F22",
            KeyCode::F23 => "F23",
            KeyCode::F24 => "F24",
            KeyCode::Scroll => "Scroll",
            KeyCode::Pause => "Pause",
            KeyCode::Insert => "Insert",
            KeyCode::Home => "Home",
            KeyCode::Delete => "Delete",
            KeyCode::End => "End",
            KeyCode::PageDown => "PageDown",
            KeyCode::PageUp => "PageUp",
            KeyCode::Left => "Left",
            KeyCode::Up => "Up",
            KeyCode::Right => "Right",
            KeyCode::Down => "Down",
            KeyCode::Backspace => "Backspace",
            KeyCode::Enter => "Enter",
            KeyCode::Space => "Space",
            KeyCode::Compose => "Compose",
            KeyCode::Caret => "Caret",
            KeyCode::Numlock => "Numlock",
            KeyCode::Numpad0 => "Numpad0",
            KeyCode::Numpad1 => "Numpad1",
            KeyCode::Numpad2 => "Numpad2",
            KeyCode::Numpad3 => "Numpad3",
            KeyCode::Numpad4 => "Numpad4",
            KeyCode::Numpad5 => "Numpad5",
            KeyCode::Numpad6 => "Numpad6",
            KeyCode::Numpad7 => "Numpad7",
            KeyCode::Numpad8 => "Numpad8",
            KeyCode::Numpad9 => "Numpad9",
            KeyCode::NumpadAdd => "NumpadAdd",
            KeyCode::NumpadDivide => "NumpadDivide",
            KeyCode::NumpadDecimal => "NumpadDecimal",
            KeyCode::NumpadComma => "NumpadComma",
            KeyCode::NumpadEnter => "NumpadEnter",
            KeyCode::NumpadEquals => "NumpadEquals",
            KeyCode::NumpadMultiply => "NumpadMultiply",
            KeyCode::NumpadSubtract => "NumpadSubtract",
            KeyCode::Apostrophe => "Apostrophe",
            KeyCode::Asterisk => "Asterisk",
            KeyCode::Backslash => "Backslash",
            KeyCode::Capital => "Capital",
            KeyCode::Colon => "Colon",
            KeyCode::Comma => "Comma",
            KeyCode::Convert => "Convert",
            KeyCode::Equals => "Equals",
            KeyCode::Grave => "Grave",
            KeyCode::LAlt => "LAlt",
            KeyCode::LBracket => "LBracket",
            KeyCode::LControl => "LControl",
            KeyCode::LShift => "LShift",
            KeyCode::LWin => "LWin",
            KeyCode::MediaSelect => "MediaSelect",
            KeyCode::MediaStop => "MediaStop",
            KeyCode::Minus => "Minus",
            KeyCode::Mute => "Mute",
            KeyCode::NavigateForward => "NavigateForward",
            KeyCode::NavigateBackward => "NavigateBackward",
            KeyCode::NextTrack => "NextTrack",
            KeyCode::Period => "Period",
            KeyCode::PlayPause => "PlayPause",
            KeyCode::Plus => "Plus",
            KeyCode::PrevTrack => "PrevTrack",
            KeyCode::RAlt => "RAlt",
            KeyCode::RBracket => "RBracket",
            KeyCode::RControl => "RControl",
            KeyCode::RShift => "RShift",
            KeyCode::RWin => "RWin",
            KeyCode::Semicolon => "Semicolon",
            KeyCode::Slash => "Slash",
            KeyCode::Sleep => "Sleep",
            KeyCode::Stop => "Stop",
            KeyCode::Sysrq => "Sysrq",
            KeyCode::Tab => "Tab",
            KeyCode::Underline => "Underline",
            KeyCode::VolumeDown => "VolumeDown",
            KeyCode::VolumeUp => "VolumeUp",
        }
    }

    /// Looks a name up in the table of key names. Where two entries carried the
    /// same name the later one would win, as in a map filled in table order.
    pub fn from_name(name: &str) -> (found: Option<KeyCode>)
        ensures
            found == KeyCode::named(name@),
    {
        let mut limit: usize = KEYBOARD_BUTTON_COUNT;
        while limit > 0
            invariant
                limit <= KEYBOARD_BUTTON_COUNT,
                KeyCode::named(name@) == KeyCode::named_below(name@, limit as int),
            decreases limit,
        {
            let candidate = KeyCode::from_index(limit - 1);
            if str_eq(candidate.name(), name) {
                return Some(candidate);
            }
            limit -= 1;
        }
        None
    }

    /// Different keys have different numbers: `at` undoes `spec_code`.
    pub proof fn lemma_code_at(self)
        ensures
            KeyCode::at(self.spec_code()) == self,
            0 <= self.spec_code() <= KEYBOARD_BUTTON_COUNT,
    {
    }
}

/// A gamepad button that a switch can be bound to.
#[derive(Debug, Copy, Clone, PartialEq, Eq, Hash, Structural)]
pub enum Button {
    South,
    East,
    North,
    West,
    C,
    Z,
    LeftTrigger,
    LeftTrigger2,
    RightTrigger,
    RightTrigger2,
    Select,
    Start,
    Mode,
    LeftThumb,
    RightThumb,
    DPadUp,
    DPadDown,
    DPadLeft,
    DPadRight,
    /// A button without a name: no switch can be bound to it.
    Unknown,
}

/// How many button names the configuration knows.
pub const GAMEPAD_BUTTON_COUNT: usize = 19;

impl Button {
    /// The number that stands for this button in the lookup tables: its position in
    /// the table of names.
    pub open spec fn spec_code(self) -> int {
        match self {
            Button::South => 0,
            Button::East => 1,
            Button::North => 2,
            Button::West => 3,
            Button::C => 4,
            Button::Z => 5,
            Button::LeftTrigger => 6,
            Button::LeftTrigger2 => 7,
            Button::RightTrigger => 8,
            Button::RightTrigger2 => 9,
            Button::Select => 10,
            Button::Start => 11,
            Button::Mode => 12,
            Button::LeftThumb => 13,
            Button::RightThumb => 14,
            Button::DPadUp => 15,
            Button::DPadDown => 16,
            Button::DPadLeft => 17,
            Button::DPadRight => 18,
            Button::Unknown => 19,
        }
    }

    /// The button that the number `index` stands for; for an index below the number
    /// of known names, the button at that position of the table of names.
    pub open spec fn at(index: int) -> Button {
        if index == 0 {
            Button::South
        } else if index == 1 {
            Button::East
        } else if index == 2 {
            Button::North
        } else if index == 3 {
            Button::West
        } else if index == 4 {
            Button::C
        } else if index == 5 {
            Button::Z
        } else if index == 6 {
            Button::LeftTrigger
        } else if index == 7 {
            Button::LeftTrigger2
        } else if index == 8 {
            Button::RightTrigger
        } else if index == 9 {
            Button::RightTrigger2
        } else if index == 10 {
            Button::Select
        } else if index == 11 {
            Button::Start
        } else if index == 12 {
            Button::Mode
        } else if index == 13 {
            Button::LeftThumb
        } else if index == 14 {
            Button::RightThumb
        } else if index == 15 {
            Button::DPadUp
        } else if index == 16 {
            Button::DPadDown
        } else if index == 17 {
            Button::DPadLeft
        } else if index == 18 {
            Button::DPadRight
        } else {
            Button::Unknown
        }
    }

    /// The name by which the configuration refers to this button.
    pub open spec fn spec_name(self) -> Seq<char> {
        match self {
            Button::South => "South"@,
            Button::East => "East"@,
            Button::North => "North"@,
            Button::West => "West"@,
            Button::C => "C"@,
            Button::Z => "Z"@,
            Button::LeftTrigger => "LeftTrigger"@,
            Button::LeftTrigger2 => "LeftTrigger2"@,
            Button::RightTrigger => "RightTrigger"@,
            Button::RightTrigger2 => "RightTrigger2"@,
            Button::Select => "Select"@,
            Button::Start => "Start"@,
            Button::Mode => "Mode"@,
            Button::LeftThumb => "LeftThumb"@,
            Button::RightThumb => "RightThumb"@,
            Button::DPadUp => "DPadUp"@,
            Button::DPadDown => "DPadDown"@,
            Button::DPadLeft => "DPadLeft"@,
            Button::DPadRight => "DPadRight"@,
            Button::Unknown => "Unknown"@,
        }
    }

    /// The button that the table of names gives for `name`, looking only at its
    /// first `limit` entries: the last of them that carries the name.
    pub open spec fn named_below(name: Seq<char>, limit: int) -> Option<Button>
        decreases limit,
    {
        if limit <= 0 {
            None
        } else if Button::at(limit - 1).spec_name() == name {
            Some(Button::at(limit - 1))
        } else {
            Button::named_below(name, limit - 1)
        }
    }

    /// The button that `name` stands for, if it is one of the known names.
    pub open spec fn named(name: Seq<char>) -> Option<Button> {
        Button::named_below(name, GAMEPAD_BUTTON_COUNT as int)
    }

    /// The number that stands for this button in the lookup tables.
    pub fn code(self) -> (code: usize)
        ensures
            code == self.spec_code(),
            code <= GAMEPAD_BUTTON_COUNT,
    {
        match self {
            Button::South => 0,
            Button::East => 1,
            Button::North => 2,
            Button::West => 3,
            Button::C => 4,
            Button::Z => 5,
            Button::LeftTrigger => 6,
            Button::LeftTrigger2 => 7,
            Button::RightTrigger => 8,
            Button::RightTrigger2 => 9,
            Button::Select => 10,
            Button::Start => 11,
            Button::Mode => 12,
            Button::LeftThumb => 13,
            Button::RightThumb => 14,
            Button::DPadUp => 15,
            Button::DPadDown => 16,
            Button::DPadLeft => 17,
            Button::DPadRight => 18,
            Button::Unknown => 19,
        }
    }

    /// The button at position `index` of the table of names.
    pub fn from_index(index: usize) -> (found: Button)
        requires
            index < GAMEPAD_BUTTON_COUNT,
        ensures
            found == Button::at(index as int),
            found.spec_code() == index,
    {
        match index {
            0 => Button::South,
            1 => Button::East,
            2 => Button::North,
            3 => Button::West,
            4 => Button::C,
            5 => Button::Z,
            6 => Button::LeftTrigger,
            7 => Button::LeftTrigger2,
            8 => Button::RightTrigger,
            9 => Button::RightTrigger2,
            10 => Button::Select,
            11 => Button::Start,
            12 => Button::Mode,
            13 => Button::LeftThumb,
            14 => Button::RightThumb,
            15 => Button::DPadUp,
            16 => Button::DPadDown,
            17 => Button::DPadLeft,
            _ => Button::DPadRight,
        }
    }

    /// The name by which the configuration refers to this button.
    pub fn name(self) -> (name: &'static str)
        ensures
            name@ == self.spec_name(),
    {
        match self {
            Button::South => "South",
            Button::East => "East",
            Button::North => "North",
            Button::West => "West",
            Button::C => "C",
            Button::Z => "Z",
            Button::LeftTrigger => "LeftTrigger",
            Button::LeftTrigger2 => "LeftTrigger2",
            Button::RightTrigger => "RightTrigger",
            Button::RightTrigger2 => "RightTrigger2",
            Button::Select => "Select",
            Button::Start => "Start",
            Button::Mode => "Mode",
            Button::LeftThumb => "LeftThumb",
            Button::RightThumb => "RightThumb",
            Button::DPadUp => "DPadUp",
            Button::DPadDown => "DPadDown",
            Button::DPadLeft => "DPadLeft",
            Button::DPadRight => "DPadRight",
            Button::Unknown => "Unknown",
        }
    }

    /// Looks a name up in the table of button names. Where two entries carried the
    /// same name the later one would win, as in a map filled in table order.
    pub fn from_name(name: &str) -> (found: Option<Button>)
        ensures
            found == Button::named(name@),
    {
        let mut limit: usize = GAMEPAD_BUTTON_COUNT;
        while limit > 0
            invariant
                limit <= GAMEPAD_BUTTON_COUNT,
                Button::named(name@) == Button::named_below(name@, limit as int),
            decreases limit,
        {
            let candidate = Button::from_index(limit - 1);
            if str_eq(candidate.name(), name) {
                return Some(candidate);
            }
            limit -= 1;
        }
        None
    }

    /// Different buttons have different numbers: `at` undoes `spec_code`.
    pub proof fn lemma_code_at(self)
        ensures
            Button::at(self.spec_code()) == self,
            0 <= self.spec_code() <= GAMEPAD_BUTTON_COUNT,
    {
    }
}

impl Default for Button {
    fn default() -> (button: Self)
        ensures
            button == Button::Unknown,
    {
        Button::Unknown
    }
}

/// The known key names, in table order.
pub open spec fn valid_key_names() -> Seq<Seq<char>> {
    Seq::new(KEYBOARD_BUTTON_COUNT as nat, |i: int| KeyCode::at(i).spec_name())
}

/// Lists the known key names in table order.
pub fn make_valid_keyboard_button_vec() -> (names: Vec<&'static str>)
    ensures
        names@.len() == KEYBOARD_BUTTON_COUNT,
        forall|i: int| 0 <= i < KEYBOARD_BUTTON_COUNT ==> (#[trigger] names@[i])@ == KeyCode::at(i).spec_name(),
{
    let mut names: Vec<&'static str> = Vec::new();
    let mut index: usize = 0;
    while index < KEYBOARD_BUTTON_COUNT
        invariant
            index <= KEYBOARD_BUTTON_COUNT,
            names@.len() == index,
            forall|i: int| 0 <= i < index ==> (#[trigger] names@[i])@ == KeyCode::at(i).spec_name(),
        decreases KEYBOARD_BUTTON_COUNT - index,
    {
        names.push(KeyCode::from_index(index).name());
        index += 1;
    }
    names
}

/// The known button names, in table order.
pub open spec fn valid_button_names() -> Seq<Seq<char>> {
    Seq::new(GAMEPAD_BUTTON_COUNT as nat, |i: int| Button::at(i).spec_name())
}

/// Lists the known button names in table order.
pub fn make_valid_gamepad_button_vec() -> (names: Vec<&'static str>)
    ensures
        names@.len() == GAMEPAD_BUTTON_COUNT,
        forall|i: int| 0 <= i < GAMEPAD_BUTTON_COUNT ==> (#[trigger] names@[i])@ == Button::at(i).spec_name(),
{
    let mut names: Vec<&'static str> = Vec::new();
    let mut index: usize = 0;
    while index < GAMEPAD_BUTTON_COUNT
        invariant
            index <= GAMEPAD_BUTTON_COUNT,
            names@.len() == index,
            forall|i: int| 0 <= i < index ==> (#[trigger] names@[i])@ == Button::at(i).spec_name(),
        decreases GAMEPAD_BUTTON_COUNT - index,
    {
        names.push(Button::from_index(index).name());
        index += 1;
    }
    names
}

} // verus!
