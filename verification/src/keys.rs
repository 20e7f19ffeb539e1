//! The discrete key-classification tables the core depends on: which key
//! identity yields an alphanumeric character, and which signals confirmation
//! or cancellation. Pure lookup tables over the library's own key type.

use vstd::prelude::*;

verus! {

/// A raw key identity as the windowing host reports it. The host translates
/// its own key type into this one before handing a key press to the core.
#[derive(Clone, Copy, Debug, PartialEq, Eq, Hash, Structural)]
pub enum KeyCode {
    Key1,
    Key2,
    Key3,
    Key4,
    Key5,
    Key6,
    Key7,
    Key8,
    Key9,
    Key0,
    A,
    B,
    C,
    D,
    E,
    F,
    G,
    H,
    I,
    J,
    K,
    L,
    M,
    N,
    O,
    P,
    Q,
    R,
    S,
    T,
    U,
    V,
    W,
    X,
    Y,
    Z,
    Escape,
    F1,
    F2,
    F3,
    F4,
    F5,
    F6,
    F7,
    F8,
    F9,
    F10,
    F11,
    F12,
    F13,
    F14,
    F15,
    F16,
    F17,
    F18,
    F19,
    F20,
    F21,
    F22,
    F23,
    F24,
    Snapshot,
    Scroll,
    Pause,
    Insert,
    Home,
    Delete,
    End,
    PageDown,
    PageUp,
    Left,
    Up,
    Right,
    Down,
    Back,
    Return,
    Space,
    Compose,
    Caret,
    Numlock,
    Numpad0,
    Numpad1,
    Numpad2,
    Numpad3,
    Numpad4,
    Numpad5,
    Numpad6,
    Numpad7,
    Numpad8,
    Numpad9,
    AbntC1,
    AbntC2,
    Add,
    Apostrophe,
    Apps,
    At,
    Ax,
    Backslash,
    Calculator,
    Capital,
    Colon,
    Comma,
    Convert,
    Decimal,
    Divide,
    Equals,
    Grave,
    Kana,
    Kanji,
    LAlt,
    LBracket,
    LControl,
    LShift,
    LWin,
    Mail,
    MediaSelect,
    MediaStop,
    Minus,
    Multiply,
    Mute,
    MyComputer,
    NavigateForward,
    NavigateBackward,
    NextTrack,
    NoConvert,
    NumpadComma,
    NumpadEnter,
    NumpadEquals,
    OEM102,
    Period,
    PlayPause,
    Power,
    PrevTrack,
    RAlt,
    RBracket,
    RControl,
    RShift,
    RWin,
    Semicolon,
    Slash,
    Sleep,
    Stop,
    Subtract,
    Sysrq,
    Tab,
    Underline,
    Unlabeled,
    VolumeDown,
    VolumeUp,
    Wake,
    WebBack,
    WebFavorites,
    WebForward,
    WebHome,
    WebRefresh,
    WebSearch,
    WebStop,
    Yen,
    Copy,
    Paste,
    Cut,
}

/// The character a key press contributes to a command name: the digits 0-9
/// and the letters a-z only, with the numpad digits mapping to the same 0-9.
pub open spec fn spec_alphanumeric(key: KeyCode) -> Option<char> {
    match key {
        KeyCode::Key1 => Some('1'),
        KeyCode::Key2 => Some('2'),
        KeyCode::Key3 => Some('3'),
        KeyCode::Key4 => Some('4'),
        KeyCode::Key5 => Some('5'),
        KeyCode::Key6 => Some('6'),
        KeyCode::Key7 => Some('7'),
        KeyCode::Key8 => Some('8'),
        KeyCode::Key9 => Some('9'),
        KeyCode::Key0 => Some('0'),
        KeyCode::A => Some('a'),
        KeyCode::B => Some('b'),
        KeyCode::C => Some('c'),
        KeyCode::D => Some('d'),
        KeyCode::E => Some('e'),
        KeyCode::F => Some('f'),
        KeyCode::G => Some('g'),
        KeyCode::H => Some('h'),
        KeyCode::I => Some('i'),
        KeyCode::J => Some('j'),
        KeyCode::K => Some('k'),
        KeyCode::L => Some('l'),
        KeyCode::M => Some('m'),
        KeyCode::N => Some('n'),
        KeyCode::O => Some('o'),
        KeyCode::P => Some('p'),
        KeyCode::Q => Some('q'),
        KeyCode::R => Some('r'),
        KeyCode::S => Some('s'),
        KeyCode::T => Some('t'),
        KeyCode::U => Some('u'),
        KeyCode::V => Some('v'),
        KeyCode::W => Some('w'),
        KeyCode::X => Some('x'),
        KeyCode::Y => Some('y'),
        KeyCode::Z => Some('z'),
        KeyCode::Escape => None,
        KeyCode::F1 => None,
        KeyCode::F2 => None,
        KeyCode::F3 => None,
        KeyCode::F4 => None,
        KeyCode::F5 => None,
        KeyCode::F6 => None,
        KeyCode::F7 => None,
        KeyCode::F8 => None,
        KeyCode::F9 => None,
        KeyCode::F10 => None,
        KeyCode::F11 => None,
        KeyCode::F12 => None,
        KeyCode::F13 => None,
        KeyCode::F14 => None,
        KeyCode::F15 => None,
        KeyCode::F16 => None,
        KeyCode::F17 => None,
        KeyCode::F18 => None,
        KeyCode::F19 => None,
        KeyCode::F20 => None,
        KeyCode::F21 => None,
        KeyCode::F22 => None,
        KeyCode::F23 => None,
        KeyCode::F24 => None,
        KeyCode::Snapshot => None,
        KeyCode::Scroll => None,
        KeyCode::Pause => None,
        KeyCode::Insert => None,
        KeyCode::Home => None,
        KeyCode::Delete => None,
        KeyCode::End => None,
        KeyCode::PageDown => None,
        KeyCode::PageUp => None,
        KeyCode::Left => None,
        KeyCode::Up => None,
        KeyCode::Right => None,
        KeyCode::Down => None,
        KeyCode::Back => None,
        KeyCode::Return => None,
        KeyCode::Space => None,
        KeyCode::Compose => None,
        KeyCode::Caret => None,
        KeyCode::Numlock => None,
        KeyCode::Numpad0 => Some('0'),
        KeyCode::Numpad1 => Some('1'),
        KeyCode::Numpad2 => Some('2'),
        KeyCode::Numpad3 => Some('3'),
        KeyCode::Numpad4 => Some('4'),
        KeyCode::Numpad5 => Some('5'),
        KeyCode::Numpad6 => Some('6'),
        KeyCode::Numpad7 => Some('7'),
        KeyCode::Numpad8 => Some('8'),
        KeyCode::Numpad9 => Some('9'),
        KeyCode::AbntC1 => None,
        KeyCode::AbntC2 => None,
        KeyCode::Add => None,
        KeyCode::Apostrophe => None,
        KeyCode::Apps => None,
        KeyCode::At => None,
        KeyCode::Ax => None,
        KeyCode::Backslash => None,
        KeyCode::Calculator => None,
        KeyCode::Capital => None,
        KeyCode::Colon => None,
        KeyCode::Comma => None,
        KeyCode::Convert => None,
        KeyCode::Decimal => None,
        KeyCode::Divide => None,
        KeyCode::Equals => None,
        KeyCode::Grave => None,
        KeyCode::Kana => None,
        KeyCode::Kanji => None,
        KeyCode::LAlt => None,
        KeyCode::LBracket => None,
        KeyCode::LControl => None,
        KeyCode::LShift => None,
        KeyCode::LWin => None,
        KeyCode::Mail => None,
        KeyCode::MediaSelect => None,
        KeyCode::MediaStop => None,
        KeyCode::Minus => None,
        KeyCode::Multiply => None,
        KeyCode::Mute => None,
        KeyCode::MyComputer => None,
        KeyCode::NavigateForward => None,
        KeyCode::NavigateBackward => None,
        KeyCode::NextTrack => None,
        KeyCode::NoConvert => None,
        KeyCode::NumpadComma => None,
        KeyCode::NumpadEnter => None,
        KeyCode::NumpadEquals => None,
        KeyCode::OEM102 => None,
        KeyCode::Period => None,
        KeyCode::PlayPause => None,
        KeyCode::Power => None,
        KeyCode::PrevTrack => None,
        KeyCode::RAlt => None,
        KeyCode::RBracket => None,
        KeyCode::RControl => None,
        KeyCode::RShift => None,
        KeyCode::RWin => None,
        KeyCode::Semicolon => None,
        KeyCode::Slash => None,
        KeyCode::Sleep => None,
        KeyCode::Stop => None,
        KeyCode::Subtract => None,
        KeyCode::Sysrq => None,
        KeyCode::Tab => None,
        KeyCode::Underline => None,
        KeyCode::Unlabeled => None,
        KeyCode::VolumeDown => None,
        KeyCode::VolumeUp => None,
        KeyCode::Wake => None,
        KeyCode::WebBack => None,
        KeyCode::WebFavorites => None,
        KeyCode::WebForward => None,
        KeyCode::WebHome => None,
        KeyCode::WebRefresh => None,
        KeyCode::WebSearch => None,
        KeyCode::WebStop => None,
        KeyCode::Yen => None,
        KeyCode::Copy => None,
        KeyCode::Paste => None,
        KeyCode::Cut => None,
    }
}

/// Classifies a key press as an alphanumeric character, per
/// [`spec_alphanumeric`]: 0-9 and a-z only, numpad digits included.
pub fn as_alphanumeric(key: KeyCode) -> (r: Option<char>)
    ensures
        r == spec_alphanumeric(key),
{
    match key {
        KeyCode::Key1 => Some('1'),
        KeyCode::Key2 => Some('2'),
        KeyCode::Key3 => Some('3'),
        KeyCode::Key4 => Some('4'),
        KeyCode::Key5 => Some('5'),
        KeyCode::Key6 => Some('6'),
        KeyCode::Key7 => Some('7'),
        KeyCode::Key8 => Some('8'),
        KeyCode::Key9 => Some('9'),
        KeyCode::Key0 => Some('0'),
        KeyCode::A => Some('a'),
        KeyCode::B => Some('b'),
        KeyCode::C => Some('c'),
        KeyCode::D => Some('d'),
        KeyCode::E => Some('e'),
        KeyCode::F => Some('f'),
        KeyCode::G => Some('g'),
        KeyCode::H => Some('h'),
        KeyCode::I => Some('i'),
        KeyCode::J => Some('j'),
        KeyCode::K => Some('k'),
        KeyCode::L => Some('l'),
        KeyCode::M => Some('m'),
        KeyCode::N => Some('n'),
        KeyCode::O => Some('o'),
        KeyCode::P => Some('p'),
        KeyCode::Q => Some('q'),
        KeyCode::R => Some('r'),
        KeyCode::S => Some('s'),
        KeyCode::T => Some('t'),
        KeyCode::U => Some('u'),
        KeyCode::V => Some('v'),
        KeyCode::W => Some('w'),
        KeyCode::X => Some('x'),
        KeyCode::Y => Some('y'),
        KeyCode::Z => Some('z'),
        KeyCode::Escape => None,
        KeyCode::F1 => None,
        KeyCode::F2 => None,
        KeyCode::F3 => None,
        KeyCode::F4 => None,
        KeyCode::F5 => None,
        KeyCode::F6 => None,
        KeyCode::F7 => None,
        KeyCode::F8 => None,
        KeyCode::F9 => None,
        KeyCode::F10 => None,
        KeyCode::F11 => None,
        KeyCode::F12 => None,
        KeyCode::F13 => None,
        KeyCode::F14 => None,
        KeyCode::F15 => None,
        KeyCode::F16 => None,
        KeyCode::F17 => None,
        KeyCode::F18 => None,
        KeyCode::F19 => None,
        KeyCode::F20 => None,
        KeyCode::F21 => None,
        KeyCode::F22 => None,
        KeyCode::F23 => None,
        KeyCode::F24 => None,
        KeyCode::Snapshot => None,
        KeyCode::Scroll => None,
        KeyCode::Pause => None,
        KeyCode::Insert => None,
        KeyCode::Home => None,
        KeyCode::Delete => None,
        KeyCode::End => None,
        KeyCode::PageDown => None,
        KeyCode::PageUp => None,
        KeyCode::Left => None,
        KeyCode::Up => None,
        KeyCode::Right => None,
        KeyCode::Down => None,
        KeyCode::Back => None,
        KeyCode::Return => None,
        KeyCode::Space => None,
        KeyCode::Compose => None,
        KeyCode::Caret => None,
        KeyCode::Numlock => None,
        KeyCode::Numpad0 => Some('0'),
        KeyCode::Numpad1 => Some('1'),
        KeyCode::Numpad2 => Some('2'),
        KeyCode::Numpad3 => Some('3'),
        KeyCode::Numpad4 => Some('4'),
        KeyCode::Numpad5 => Some('5'),
        KeyCode::Numpad6 => Some('6'),
        KeyCode::Numpad7 => Some('7'),
        KeyCode::Numpad8 => Some('8'),
        KeyCode::Numpad9 => Some('9'),
        KeyCode::AbntC1 => None,
        KeyCode::AbntC2 => None,
        KeyCode::Add => None,
        KeyCode::Apostrophe => None,
        KeyCode::Apps => None,
        KeyCode::At => None,
        KeyCode::Ax => None,
        KeyCode::Backslash => None,
        KeyCode::Calculator => None,
        KeyCode::Capital => None,
        KeyCode::Colon => None,
        KeyCode::Comma => None,
        KeyCode::Convert => None,
        KeyCode::Decimal => None,
        KeyCode::Divide => None,
        KeyCode::Equals => None,
        KeyCode::Grave => None,
        KeyCode::Kana => None,
        KeyCode::Kanji => None,
        KeyCode::LAlt => None,
        KeyCode::LBracket => None,
        KeyCode::LControl => None,
        KeyCode::LShift => None,
        KeyCode::LWin => None,
        KeyCode::Mail => None,
        KeyCode::MediaSelect => None,
        KeyCode::MediaStop => None,
        KeyCode::Minus => None,
        KeyCode::Multiply => None,
        KeyCode::Mute => None,
        KeyCode::MyComputer => None,
        KeyCode::NavigateForward => None,
        KeyCode::NavigateBackward => None,
        KeyCode::NextTrack => None,
        KeyCode::NoConvert => None,
        KeyCode::NumpadComma => None,
        KeyCode::NumpadEnter => None,
        KeyCode::NumpadEquals => None,
        KeyCode::OEM102 => None,
        KeyCode::Period => None,
        KeyCode::PlayPause => None,
        KeyCode::Power => None,
        KeyCode::PrevTrack => None,
        KeyCode::RAlt => None,
        KeyCode::RBracket => None,
        KeyCode::RControl => None,
        KeyCode::RShift => None,
        KeyCode::RWin => None,
        KeyCode::Semicolon => None,
        KeyCode::Slash => None,
        KeyCode::Sleep => None,
        KeyCode::Stop => None,
        KeyCode::Subtract => None,
        KeyCode::Sysrq => None,
        KeyCode::Tab => None,
        KeyCode::Underline => None,
        KeyCode::Unlabeled => None,
        KeyCode::VolumeDown => None,
        KeyCode::VolumeUp => None,
        KeyCode::Wake => None,
        KeyCode::WebBack => None,
        KeyCode::WebFavorites => None,
        KeyCode::WebForward => None,
        KeyCode::WebHome => None,
        KeyCode::WebRefresh => None,
        KeyCode::WebSearch => None,
        KeyCode::WebStop => None,
        KeyCode::Yen => None,
        KeyCode::Copy => None,
        KeyCode::Paste => None,
        KeyCode::Cut => None,
    }
}

/// The confirmation meaning of a key press: `Some(true)` for an affirmative
/// confirmation, `Some(false)` for a cancellation, `None` for a key that
/// carries no confirmation meaning.
pub open spec fn spec_confirmation(key: KeyCode) -> Option<bool> {
    match key {
        KeyCode::Escape => Some(false),
        KeyCode::Return => Some(true),
        KeyCode::Space => Some(true),
        KeyCode::NumpadEnter => Some(true),
        KeyCode::Tab => Some(true),
        _ => None,
    }
}

/// Classifies a key press as confirm (`Some(true)`), cancel (`Some(false)`)
/// or neither, per [`spec_confirmation`].
pub fn is_confirmation(key: KeyCode) -> (r: Option<bool>)
    ensures
        r == spec_confirmation(key),
{
    match key {
        KeyCode::Escape => Some(false),
        KeyCode::Return => Some(true),
        KeyCode::Space => Some(true),
        KeyCode::NumpadEnter => Some(true),
        KeyCode::Tab => Some(true),
        _ => None,
    }
}

/// Every character the alphanumeric table yields is a lowercase letter or
/// a digit: command names are built of those alone.
pub proof fn lemma_alphanumeric_range(key: KeyCode)
    ensures
        spec_alphanumeric(key) matches Some(c) ==> ('a' <= c && c <= 'z') || ('0' <= c && c
            <= '9'),
{
}

/// No key is both alphanumeric and a confirmation: the two classifications
/// never apply to the same key press, so appending a character and acting on
/// a confirmation are mutually exclusive reactions.
pub proof fn lemma_alphanumeric_confirmation_disjoint(key: KeyCode)
    ensures
        spec_alphanumeric(key) is Some ==> spec_confirmation(key) is None,
{
}

} // verus!
