//! The keys that physical keyboard keys stand for.
//!
//! Two tables are kept: one for the key codes that the native windowing
//! system reports, and one for the `code` strings of web keyboard events.
use vstd::prelude::*;
use vstd::string::StringSliceAdditionalSpecFns;
use vstd::utf8::encode_utf8_decode_utf8;

use crate::event::Key;

verus! {

/// The physical key codes that the native windowing system reports and that
/// have a `Key` of their own; every other code is `Other`.
#[derive(Copy, Clone, Debug, PartialEq, Eq, Hash, Structural)]
pub enum KeyCode {
    Digit1,
    Digit2,
    Digit3,
    Digit4,
    Digit5,
    Digit6,
    Digit7,
    Digit8,
    Digit9,
    Digit0,
    KeyA,
    KeyB,
    KeyC,
    KeyD,
    KeyE,
    KeyF,
    KeyG,
    KeyH,
    KeyI,
    KeyJ,
    KeyK,
    KeyL,
    KeyM,
    KeyN,
    KeyO,
    KeyP,
    KeyQ,
    KeyR,
    KeyS,
    KeyT,
    KeyU,
    KeyV,
    KeyW,
    KeyX,
    KeyY,
    KeyZ,
    Escape,
    F1,
    F2,
    F3,
    F4,
    F5,
    F6,
    F7,
    F8,
    F9,
    F10,
    F11,
    F12,
    F13,
    F14,
    F15,
    F16,
    F17,
    F18,
    F19,
    F20,
    F21,
    F22,
    F23,
    F24,
    PrintScreen,
    ScrollLock,
    Pause,
    Insert,
    Home,
    Delete,
    End,
    PageDown,
    PageUp,
    ArrowLeft,
    ArrowUp,
    ArrowRight,
    ArrowDown,
    Backspace,
    Enter,
    Space,
    NumLock,
    Numpad0,
    Numpad1,
    Numpad2,
    Numpad3,
    Numpad4,
    Numpad5,
    Numpad6,
    Numpad7,
    Numpad8,
    Numpad9,
    NumpadAdd,
    Quote,
    Backslash,
    NumpadClear,
    Comma,
    Convert,
    NumpadDecimal,
    NumpadDivide,
    NumpadMultiply,
    Equal,
    Backquote,
    KanaMode,
    AltLeft,
    BracketLeft,
    ControlLeft,
    ShiftLeft,
    SuperLeft,
    LaunchMail,
    MediaSelect,
    MediaStop,
    Minus,
    AudioVolumeMute,
    BrowserForward,
    BrowserBack,
    MediaTrackNext,
    NonConvert,
    NumpadComma,
    NumpadEnter,
    IntlBackslash,
    Period,
    MediaPlayPause,
    Power,
    MediaTrackPrevious,
    AltRight,
    BracketRight,
    ControlRight,
    ShiftRight,
    SuperRight,
    Semicolon,
    Slash,
    Sleep,
    NumpadSubtract,
    Tab,
    AudioVolumeDown,
    AudioVolumeUp,
    WakeUp,
    BrowserHome,
    BrowserRefresh,
    BrowserSearch,
    IntlYen,
    Copy,
    Paste,
    Cut,
    /// A code with no `Key` of its own.
    Other,
}

/// A physical key as the native windowing system reports it.
#[derive(Copy, Clone, Debug, PartialEq, Eq, Hash, Structural)]
pub enum PhysicalKey {
    /// A key with a known code.
    Code(KeyCode),
    /// A key that the windowing system could not identify.
    Unidentified,
}

/// The `Key` of a native key code.
pub open spec fn key_of_code(code: KeyCode) -> Key {
    match code {
        KeyCode::Digit1 => Key::Key1,
        KeyCode::Digit2 => Key::Key2,
        KeyCode::Digit3 => Key::Key3,
        KeyCode::Digit4 => Key::Key4,
        KeyCode::Digit5 => Key::Key5,
        KeyCode::Digit6 => Key::Key6,
        KeyCode::Digit7 => Key::Key7,
        KeyCode::Digit8 => Key::Key8,
        KeyCode::Digit9 => Key::Key9,
        KeyCode::Digit0 => Key::Key0,
        KeyCode::KeyA => Key::A,
        KeyCode::KeyB => Key::B,
        KeyCode::KeyC => Key::C,
        KeyCode::KeyD => Key::D,
        KeyCode::KeyE => Key::E,
        KeyCode::KeyF => Key::F,
        KeyCode::KeyG => Key::G,
        KeyCode::KeyH => Key::H,
        KeyCode::KeyI => Key::I,
        KeyCode::KeyJ => Key::J,
        KeyCode::KeyK => Key::K,
        KeyCode::KeyL => Key::L,
        KeyCode::KeyM => Key::M,
        KeyCode::KeyN => Key::N,
        KeyCode::KeyO => Key::O,
        KeyCode::KeyP => Key::P,
        KeyCode::KeyQ => Key::Q,
        KeyCode::KeyR => Key::R,
        KeyCode::KeyS => Key::S,
        KeyCode::KeyT => Key::T,
        KeyCode::KeyU => Key::U,
        KeyCode::KeyV => Key::V,
        KeyCode::KeyW => Key::W,
        KeyCode::KeyX => Key::X,
        KeyCode::KeyY => Key::Y,
        KeyCode::KeyZ => Key::Z,
        KeyCode::Escape => Key::Escape,
        KeyCode::F1 => Key::F1,
        KeyCode::F2 => Key::F2,
        KeyCode::F3 => Key::F3,
        KeyCode::F4 => Key::F4,
        KeyCode::F5 => Key::F5,
        KeyCode::F6 => Key::F6,
        KeyCode::F7 => Key::F7,
        KeyCode::F8 => Key::F8,
        KeyCode::F9 => Key::F9,
        KeyCode::F10 => Key::F10,
        KeyCode::F11 => Key::F11,
        KeyCode::F12 => Key::F12,
        KeyCode::F13 => Key::F13,
        KeyCode::F14 => Key::F14,
        KeyCode::F15 => Key::F15,
        KeyCode::F16 => Key::F16,
        KeyCode::F17 => Key::F17,
        KeyCode::F18 => Key::F18,
        KeyCode::F19 => Key::F19,
        KeyCode::F20 => Key::F20,
        KeyCode::F21 => Key::F21,
        KeyCode::F22 => Key::F22,
        KeyCode::F23 => Key::F23,
        KeyCode::F24 => Key::F24,
        KeyCode::PrintScreen => Key::Snapshot,
        KeyCode::ScrollLock => Key::Scroll,
        KeyCode::Pause => Key::Pause,
        KeyCode::Insert => Key::Insert,
        KeyCode::Home => Key::Home,
        KeyCode::Delete => Key::Delete,
        KeyCode::End => Key::End,
        KeyCode::PageDown => Key::PageDown,
        KeyCode::PageUp => Key::PageUp,
        KeyCode::ArrowLeft => Key::Left,
        KeyCode::ArrowUp => Key::Up,
        KeyCode::ArrowRight => Key::Right,
        KeyCode::ArrowDown => Key::Down,
        KeyCode::Backspace => Key::Back,
        KeyCode::Enter => Key::Return,
        KeyCode::Space => Key::Space,
        KeyCode::NumLock => Key::Numlock,
        KeyCode::Numpad0 => Key::Numpad0,
        KeyCode::Numpad1 => Key::Numpad1,
        KeyCode::Numpad2 => Key::Numpad2,
        KeyCode::Numpad3 => Key::Numpad3,
        KeyCode::Numpad4 => Key::Numpad4,
        KeyCode::Numpad5 => Key::Numpad5,
        KeyCode::Numpad6 => Key::Numpad6,
        KeyCode::Numpad7 => Key::Numpad7,
        KeyCode::Numpad8 => Key::Numpad8,
        KeyCode::Numpad9 => Key::Numpad9,
        KeyCode::NumpadAdd => Key::Add,
        KeyCode::Quote => Key::Apostrophe,
        KeyCode::Backslash => Key::Backslash,
        KeyCode::NumpadClear => Key::NumpadEquals,
        KeyCode::Comma => Key::Comma,
        KeyCode::Convert => Key::Convert,
        KeyCode::NumpadDecimal => Key::Decimal,
        KeyCode::NumpadDivide => Key::Divide,
        KeyCode::NumpadMultiply => Key::Multiply,
        KeyCode::Equal => Key::Equals,
        KeyCode::Backquote => Key::Grave,
        KeyCode::KanaMode => Key::Kana,
        KeyCode::AltLeft => Key::LAlt,
        KeyCode::BracketLeft => Key::LBracket,
        KeyCode::ControlLeft => Key::LControl,
        KeyCode::ShiftLeft => Key::LShift,
        KeyCode::SuperLeft => Key::LWin,
        KeyCode::LaunchMail => Key::Mail,
        KeyCode::MediaSelect => Key::MediaSelect,
        KeyCode::MediaStop => Key::MediaStop,
        KeyCode::Minus => Key::Minus,
        KeyCode::AudioVolumeMute => Key::Mute,
        KeyCode::BrowserForward => Key::NavigateForward,
        KeyCode::BrowserBack => Key::NavigateBackward,
        KeyCode::MediaTrackNext => Key::NextTrack,
        KeyCode::NonConvert => Key::NoConvert,
        KeyCode::NumpadComma => Key::NumpadComma,
        KeyCode::NumpadEnter => Key::NumpadEnter,
        KeyCode::IntlBackslash => Key::OEM102,
        KeyCode::Period => Key::Period,
        KeyCode::MediaPlayPause => Key::PlayPause,
        KeyCode::Power => Key::Power,
        KeyCode::MediaTrackPrevious => Key::PrevTrack,
        KeyCode::AltRight => Key::RAlt,
        KeyCode::BracketRight => Key::RBracket,
        KeyCode::ControlRight => Key::RControl,
        KeyCode::ShiftRight => Key::RShift,
        KeyCode::SuperRight => Key::RWin,
        KeyCode::Semicolon => Key::Semicolon,
        KeyCode::Slash => Key::Slash,
        KeyCode::Sleep => Key::Sleep,
        KeyCode::NumpadSubtract => Key::Subtract,
        KeyCode::Tab => Key::Tab,
        KeyCode::AudioVolumeDown => Key::VolumeDown,
        KeyCode::AudioVolumeUp => Key::VolumeUp,
        KeyCode::WakeUp => Key::Wake,
        KeyCode::BrowserHome => Key::WebHome,
        KeyCode::BrowserRefresh => Key::WebRefresh,
        KeyCode::BrowserSearch => Key::WebSearch,
        KeyCode::IntlYen => Key::Yen,
        KeyCode::Copy => Key::Copy,
        KeyCode::Paste => Key::Paste,
        KeyCode::Cut => Key::Cut,
        KeyCode::Other => Key::Unknown,
    }
}

/// The `Key` of a native physical key: unidentified keys are `Unknown`.
pub open spec fn key_of_physical_key(physical_key: PhysicalKey) -> Key {
    match physical_key {
        PhysicalKey::Code(code) => key_of_code(code),
        PhysicalKey::Unidentified => Key::Unknown,
    }
}

/// Translates a native physical key into a `Key`.
pub fn translate_key(physical_key: PhysicalKey) -> (key: Key)
    ensures
        key == key_of_physical_key(physical_key),
{
    if let PhysicalKey::Code(key_code) = physical_key {
        match key_code {
            KeyCode::Digit1 => Key::Key1,
            KeyCode::Digit2 => Key::Key2,
            KeyCode::Digit3 => Key::Key3,
            KeyCode::Digit4 => Key::Key4,
            KeyCode::Digit5 => Key::Key5,
            KeyCode::Digit6 => Key::Key6,
            KeyCode::Digit7 => Key::Key7,
            KeyCode::Digit8 => Key::Key8,
            KeyCode::Digit9 => Key::Key9,
            KeyCode::Digit0 => Key::Key0,
            KeyCode::KeyA => Key::A,
            KeyCode::KeyB => Key::B,
            KeyCode::KeyC => Key::C,
            KeyCode::KeyD => Key::D,
            KeyCode::KeyE => Key::E,
            KeyCode::KeyF => Key::F,
            KeyCode::KeyG => Key::G,
            KeyCode::KeyH => Key::H,
            KeyCode::KeyI => Key::I,
            KeyCode::KeyJ => Key::J,
            KeyCode::KeyK => Key::K,
            KeyCode::KeyL => Key::L,
            KeyCode::KeyM => Key::M,
            KeyCode::KeyN => Key::N,
            KeyCode::KeyO => Key::O,
            KeyCode::KeyP => Key::P,
            KeyCode::KeyQ => Key::Q,
            KeyCode::KeyR => Key::R,
            KeyCode::KeyS => Key::S,
            KeyCode::KeyT => Key::T,
            KeyCode::KeyU => Key::U,
            KeyCode::KeyV => Key::V,
            KeyCode::KeyW => Key::W,
            KeyCode::KeyX => Key::X,
            KeyCode::KeyY => Key::Y,
            KeyCode::KeyZ => Key::Z,
            KeyCode::Escape => Key::Escape,
            KeyCode::F1 => Key::F1,
            KeyCode::F2 => Key::F2,
            KeyCode::F3 => Key::F3,
            KeyCode::F4 => Key::F4,
            KeyCode::F5 => Key::F5,
            KeyCode::F6 => Key::F6,
            KeyCode::F7 => Key::F7,
            KeyCode::F8 => Key::F8,
            KeyCode::F9 => Key::F9,
            KeyCode::F10 => Key::F10,
            KeyCode::F11 => Key::F11,
            KeyCode::F12 => Key::F12,
            KeyCode::F13 => Key::F13,
            KeyCode::F14 => Key::F14,
            KeyCode::F15 => Key::F15,
            KeyCode::F16 => Key::F16,
            KeyCode::F17 => Key::F17,
            KeyCode::F18 => Key::F18,
            KeyCode::F19 => Key::F19,
            KeyCode::F20 => Key::F20,
            KeyCode::F21 => Key::F21,
            KeyCode::F22 => Key::F22,
            KeyCode::F23 => Key::F23,
            KeyCode::F24 => Key::F24,
            KeyCode::PrintScreen => Key::Snapshot,
            KeyCode::ScrollLock => Key::Scroll,
            KeyCode::Pause => Key::Pause,
            KeyCode::Insert => Key::Insert,
            KeyCode::Home => Key::Home,
            KeyCode::Delete => Key::Delete,
            KeyCode::End => Key::End,
            KeyCode::PageDown => Key::PageDown,
            KeyCode::PageUp => Key::PageUp,
            KeyCode::ArrowLeft => Key::Left,
            KeyCode::ArrowUp => Key::Up,
            KeyCode::ArrowRight => Key::Right,
            KeyCode::ArrowDown => Key::Down,
            KeyCode::Backspace => Key::Back,
            KeyCode::Enter => Key::Return,
            KeyCode::Space => Key::Space,
            KeyCode::NumLock => Key::Numlock,
            KeyCode::Numpad0 => Key::Numpad0,
            KeyCode::Numpad1 => Key::Numpad1,
            KeyCode::Numpad2 => Key::Numpad2,
            KeyCode::Numpad3 => Key::Numpad3,
            KeyCode::Numpad4 => Key::Numpad4,
            KeyCode::Numpad5 => Key::Numpad5,
            KeyCode::Numpad6 => Key::Numpad6,
            KeyCode::Numpad7 => Key::Numpad7,
            KeyCode::Numpad8 => Key::Numpad8,
            KeyCode::Numpad9 => Key::Numpad9,
            KeyCode::NumpadAdd => Key::Add,
            KeyCode::Quote => Key::Apostrophe,
            KeyCode::Backslash => Key::Backslash,
            KeyCode::NumpadClear => Key::NumpadEquals,
            KeyCode::Comma => Key::Comma,
            KeyCode::Convert => Key::Convert,
            KeyCode::NumpadDecimal => Key::Decimal,
            KeyCode::NumpadDivide => Key::Divide,
            KeyCode::NumpadMultiply => Key::Multiply,
            KeyCode::Equal => Key::Equals,
            KeyCode::Backquote => Key::Grave,
            KeyCode::KanaMode => Key::Kana,
            KeyCode::AltLeft => Key::LAlt,
            KeyCode::BracketLeft => Key::LBracket,
            KeyCode::ControlLeft => Key::LControl,
            KeyCode::ShiftLeft => Key::LShift,
            KeyCode::SuperLeft => Key::LWin,
            KeyCode::LaunchMail => Key::Mail,
            KeyCode::MediaSelect => Key::MediaSelect,
            KeyCode::MediaStop => Key::MediaStop,
            KeyCode::Minus => Key::Minus,
            KeyCode::AudioVolumeMute => Key::Mute,
            KeyCode::BrowserForward => Key::NavigateForward,
            KeyCode::BrowserBack => Key::NavigateBackward,
            KeyCode::MediaTrackNext => Key::NextTrack,
            KeyCode::NonConvert => Key::NoConvert,
            KeyCode::NumpadComma => Key::NumpadComma,
            KeyCode::NumpadEnter => Key::NumpadEnter,
            KeyCode::IntlBackslash => Key::OEM102,
            KeyCode::Period => Key::Period,
            KeyCode::MediaPlayPause => Key::PlayPause,
            KeyCode::Power => Key::Power,
            KeyCode::MediaTrackPrevious => Key::PrevTrack,
            KeyCode::AltRight => Key::RAlt,
            KeyCode::BracketRight => Key::RBracket,
            KeyCode::ControlRight => Key::RControl,
            KeyCode::ShiftRight => Key::RShift,
            KeyCode::SuperRight => Key::RWin,
            KeyCode::Semicolon => Key::Semicolon,
            KeyCode::Slash => Key::Slash,
            KeyCode::Sleep => Key::Sleep,
            KeyCode::NumpadSubtract => Key::Subtract,
            KeyCode::Tab => Key::Tab,
            KeyCode::AudioVolumeDown => Key::VolumeDown,
            KeyCode::AudioVolumeUp => Key::VolumeUp,
            KeyCode::WakeUp => Key::Wake,
            KeyCode::BrowserHome => Key::WebHome,
            KeyCode::BrowserRefresh => Key::WebRefresh,
            KeyCode::BrowserSearch => Key::WebSearch,
            KeyCode::IntlYen => Key::Yen,
            KeyCode::Copy => Key::Copy,
            KeyCode::Paste => Key::Paste,
            KeyCode::Cut => Key::Cut,
            KeyCode::Other => Key::Unknown,
        }
    } else {
        Key::Unknown
    }
}

/// Entries 1 to 36 of the native table.
#[verifier::rlimit(100)]
#[verifier::spinoff_prover]
proof fn lemma_native_key_names_part1()
    ensures
        key_of_code(KeyCode::Digit1) == Key::Key1,
        key_of_code(KeyCode::Digit2) == Key::Key2,
        key_of_code(KeyCode::Digit3) == Key::Key3,
        key_of_code(KeyCode::Digit4) == Key::Key4,
        key_of_code(KeyCode::Digit5) == Key::Key5,
        key_of_code(KeyCode::Digit6) == Key::Key6,
        key_of_code(KeyCode::Digit7) == Key::Key7,
        key_of_code(KeyCode::Digit8) == Key::Key8,
        key_of_code(KeyCode::Digit9) == Key::Key9,
        key_of_code(KeyCode::Digit0) == Key::Key0,
        key_of_code(KeyCode::KeyA) == Key::A,
        key_of_code(KeyCode::KeyB) == Key::B,
        key_of_code(KeyCode::KeyC) == Key::C,
        key_of_code(KeyCode::KeyD) == Key::D,
        key_of_code(KeyCode::KeyE) == Key::E,
        key_of_code(KeyCode::KeyF) == Key::F,
        key_of_code(KeyCode::KeyG) == Key::G,
        key_of_code(KeyCode::KeyH) == Key::H,
        key_of_code(KeyCode::KeyI) == Key::I,
        key_of_code(KeyCode::KeyJ) == Key::J,
        key_of_code(KeyCode::KeyK) == Key::K,
        key_of_code(KeyCode::KeyL) == Key::L,
        key_of_code(KeyCode::KeyM) == Key::M,
        key_of_code(KeyCode::KeyN) == Key::N,
        key_of_code(KeyCode::KeyO) == Key::O,
        key_of_code(KeyCode::KeyP) == Key::P,
        key_of_code(KeyCode::KeyQ) == Key::Q,
        key_of_code(KeyCode::KeyR) == Key::R,
        key_of_code(KeyCode::KeyS) == Key::S,
        key_of_code(KeyCode::KeyT) == Key::T,
        key_of_code(KeyCode::KeyU) == Key::U,
        key_of_code(KeyCode::KeyV) == Key::V,
        key_of_code(KeyCode::KeyW) == Key::W,
        key_of_code(KeyCode::KeyX) == Key::X,
        key_of_code(KeyCode::KeyY) == Key::Y,
        key_of_code(KeyCode::KeyZ) == Key::Z,
{
}

/// Entries 37 to 72 of the native table.
#[verifier::rlimit(100)]
#[verifier::spinoff_prover]
proof fn lemma_native_key_names_part2()
    ensures
        key_of_code(KeyCode::Escape) == Key::Escape,
        key_of_code(KeyCode::F1) == Key::F1,
        key_of_code(KeyCode::F2) == Key::F2,
        key_of_code(KeyCode::F3) == Key::F3,
        key_of_code(KeyCode::F4) == Key::F4,
        key_of_code(KeyCode::F5) == Key::F5,
        key_of_code(KeyCode::F6) == Key::F6,
        key_of_code(KeyCode::F7) == Key::F7,
        key_of_code(KeyCode::F8) == Key::F8,
        key_of_code(KeyCode::F9) == Key::F9,
        key_of_code(KeyCode::F10) == Key::F10,
        key_of_code(KeyCode::F11) == Key::F11,
        key_of_code(KeyCode::F12) == Key::F12,
        key_of_code(KeyCode::F13) == Key::F13,
        key_of_code(KeyCode::F14) == Key::F14,
        key_of_code(KeyCode::F15) == Key::F15,
        key_of_code(KeyCode::F16) == Key::F16,
        key_of_code(KeyCode::F17) == Key::F17,
        key_of_code(KeyCode::F18) == Key::F18,
        key_of_code(KeyCode::F19) == Key::F19,
        key_of_code(KeyCode::F20) == Key::F20,
        key_of_code(KeyCode::F21) == Key::F21,
        key_of_code(KeyCode::F22) == Key::F22,
        key_of_code(KeyCode::F23) == Key::F23,
        key_of_code(KeyCode::F24) == Key::F24,
        key_of_code(KeyCode::PrintScreen) == Key::Snapshot,
        key_of_code(KeyCode::ScrollLock) == Key::Scroll,
        key_of_code(KeyCode::Pause) == Key::Pause,
        key_of_code(KeyCode::Insert) == Key::Insert,
        key_of_code(KeyCode::Home) == Key::Home,
        key_of_code(KeyCode::Delete) == Key::Delete,
        key_of_code(KeyCode::End) == Key::End,
        key_of_code(KeyCode::PageDown) == Key::PageDown,
        key_of_code(KeyCode::PageUp) == Key::PageUp,
        key_of_code(KeyCode::ArrowLeft) == Key::Left,
        key_of_code(KeyCode::ArrowUp) == Key::Up,
{
}

/// Entries 73 to 108 of the native table.
#[verifier::rlimit(100)]
#[verifier::spinoff_prover]
proof fn lemma_native_key_names_part3()
    ensures
        key_of_code(KeyCode::ArrowRight) == Key::Right,
        key_of_code(KeyCode::ArrowDown) == Key::Down,
        key_of_code(KeyCode::Backspace) == Key::Back,
        key_of_code(KeyCode::Enter) == Key::Return,
        key_of_code(KeyCode::Space) == Key::Space,
        key_of_code(KeyCode::NumLock) == Key::Numlock,
        key_of_code(KeyCode::Numpad0) == Key::Numpad0,
        key_of_code(KeyCode::Numpad1) == Key::Numpad1,
        key_of_code(KeyCode::Numpad2) == Key::Numpad2,
        key_of_code(KeyCode::Numpad3) == Key::Numpad3,
        key_of_code(KeyCode::Numpad4) == Key::Numpad4,
        key_of_code(KeyCode::Numpad5) == Key::Numpad5,
        key_of_code(KeyCode::Numpad6) == Key::Numpad6,
        key_of_code(KeyCode::Numpad7) == Key::Numpad7,
        key_of_code(KeyCode::Numpad8) == Key::Numpad8,
        key_of_code(KeyCode::Numpad9) == Key::Numpad9,
        key_of_code(KeyCode::NumpadAdd) == Key::Add,
        key_of_code(KeyCode::Quote) == Key::Apostrophe,
        key_of_code(KeyCode::Backslash) == Key::Backslash,
        key_of_code(KeyCode::NumpadClear) == Key::NumpadEquals,
        key_of_code(KeyCode::Comma) == Key::Comma,
        key_of_code(KeyCode::Convert) == Key::Convert,
        key_of_code(KeyCode::NumpadDecimal) == Key::Decimal,
        key_of_code(KeyCode::NumpadDivide) == Key::Divide,
        key_of_code(KeyCode::NumpadMultiply) == Key::Multiply,
        key_of_code(KeyCode::Equal) == Key::Equals,
        key_of_code(KeyCode::Backquote) == Key::Grave,
        key_of_code(KeyCode::KanaMode) == Key::Kana,
        key_of_code(KeyCode::AltLeft) == Key::LAlt,
        key_of_code(KeyCode::BracketLeft) == Key::LBracket,
        key_of_code(KeyCode::ControlLeft) == Key::LControl,
        key_of_code(KeyCode::ShiftLeft) == Key::LShift,
        key_of_code(KeyCode::SuperLeft) == Key::LWin,
        key_of_code(KeyCode::LaunchMail) == Key::Mail,
        key_of_code(KeyCode::MediaSelect) == Key::MediaSelect,
        key_of_code(KeyCode::MediaStop) == Key::MediaStop,
{
}

/// Entries 109 to 142 of the native table.
#[verifier::rlimit(100)]
#[verifier::spinoff_prover]
proof fn lemma_native_key_names_part4()
    ensures
        key_of_code(KeyCode::Minus) == Key::Minus,
        key_of_code(KeyCode::AudioVolumeMute) == Key::Mute,
        key_of_code(KeyCode::BrowserForward) == Key::NavigateForward,
        key_of_code(KeyCode::BrowserBack) == Key::NavigateBackward,
        key_of_code(KeyCode::MediaTrackNext) == Key::NextTrack,
        key_of_code(KeyCode::NonConvert) == Key::NoConvert,
        key_of_code(KeyCode::NumpadComma) == Key::NumpadComma,
        key_of_code(KeyCode::NumpadEnter) == Key::NumpadEnter,
        key_of_code(KeyCode::IntlBackslash) == Key::OEM102,
        key_of_code(KeyCode::Period) == Key::Period,
        key_of_code(KeyCode::MediaPlayPause) == Key::PlayPause,
        key_of_code(KeyCode::Power) == Key::Power,
        key_of_code(KeyCode::MediaTrackPrevious) == Key::PrevTrack,
        key_of_code(KeyCode::AltRight) == Key::RAlt,
        key_of_code(KeyCode::BracketRight) == Key::RBracket,
        key_of_code(KeyCode::ControlRight) == Key::RControl,
        key_of_code(KeyCode::ShiftRight) == Key::RShift,
        key_of_code(KeyCode::SuperRight) == Key::RWin,
        key_of_code(KeyCode::Semicolon) == Key::Semicolon,
        key_of_code(KeyCode::Slash) == Key::Slash,
        key_of_code(KeyCode::Sleep) == Key::Sleep,
        key_of_code(KeyCode::NumpadSubtract) == Key::Subtract,
        key_of_code(KeyCode::Tab) == Key::Tab,
        key_of_code(KeyCode::AudioVolumeDown) == Key::VolumeDown,
        key_of_code(KeyCode::AudioVolumeUp) == Key::VolumeUp,
        key_of_code(KeyCode::WakeUp) == Key::Wake,
        key_of_code(KeyCode::BrowserHome) == Key::WebHome,
        key_of_code(KeyCode::BrowserRefresh) == Key::WebRefresh,
        key_of_code(KeyCode::BrowserSearch) == Key::WebSearch,
        key_of_code(KeyCode::IntlYen) == Key::Yen,
        key_of_code(KeyCode::Copy) == Key::Copy,
        key_of_code(KeyCode::Paste) == Key::Paste,
        key_of_code(KeyCode::Cut) == Key::Cut,
        key_of_code(KeyCode::Other) == Key::Unknown,
{
}

/// Every native key code yields the key named after it, and a code without
/// a key of its own, like an unidentified key, yields `Unknown`.
pub proof fn lemma_native_key_names()
    ensures
        key_of_code(KeyCode::Digit1) == Key::Key1,
        key_of_code(KeyCode::Digit2) == Key::Key2,
        key_of_code(KeyCode::Digit3) == Key::Key3,
        key_of_code(KeyCode::Digit4) == Key::Key4,
        key_of_code(KeyCode::Digit5) == Key::Key5,
        key_of_code(KeyCode::Digit6) == Key::Key6,
        key_of_code(KeyCode::Digit7) == Key::Key7,
        key_of_code(KeyCode::Digit8) == Key::Key8,
        key_of_code(KeyCode::Digit9) == Key::Key9,
        key_of_code(KeyCode::Digit0) == Key::Key0,
        key_of_code(KeyCode::KeyA) == Key::A,
        key_of_code(KeyCode::KeyB) == Key::B,
        key_of_code(KeyCode::KeyC) == Key::C,
        key_of_code(KeyCode::KeyD) == Key::D,
        key_of_code(KeyCode::KeyE) == Key::E,
        key_of_code(KeyCode::KeyF) == Key::F,
        key_of_code(KeyCode::KeyG) == Key::G,
        key_of_code(KeyCode::KeyH) == Key::H,
        key_of_code(KeyCode::KeyI) == Key::I,
        key_of_code(KeyCode::KeyJ) == Key::J,
        key_of_code(KeyCode::KeyK) == Key::K,
        key_of_code(KeyCode::KeyL) == Key::L,
        key_of_code(KeyCode::KeyM) == Key::M,
        key_of_code(KeyCode::KeyN) == Key::N,
        key_of_code(KeyCode::KeyO) == Key::O,
        key_of_code(KeyCode::KeyP) == Key::P,
        key_of_code(KeyCode::KeyQ) == Key::Q,
        key_of_code(KeyCode::KeyR) == Key::R,
        key_of_code(KeyCode::KeyS) == Key::S,
        key_of_code(KeyCode::KeyT) == Key::T,
        key_of_code(KeyCode::KeyU) == Key::U,
        key_of_code(KeyCode::KeyV) == Key::V,
        key_of_code(KeyCode::KeyW) == Key::W,
        key_of_code(KeyCode::KeyX) == Key::X,
        key_of_code(KeyCode::KeyY) == Key::Y,
        key_of_code(KeyCode::KeyZ) == Key::Z,
        key_of_code(KeyCode::Escape) == Key::Escape,
        key_of_code(KeyCode::F1) == Key::F1,
        key_of_code(KeyCode::F2) == Key::F2,
        key_of_code(KeyCode::F3) == Key::F3,
        key_of_code(KeyCode::F4) == Key::F4,
        key_of_code(KeyCode::F5) == Key::F5,
        key_of_code(KeyCode::F6) == Key::F6,
        key_of_code(KeyCode::F7) == Key::F7,
        key_of_code(KeyCode::F8) == Key::F8,
        key_of_code(KeyCode::F9) == Key::F9,
        key_of_code(KeyCode::F10) == Key::F10,
        key_of_code(KeyCode::F11) == Key::F11,
        key_of_code(KeyCode::F12) == Key::F12,
        key_of_code(KeyCode::F13) == Key::F13,
        key_of_code(KeyCode::F14) == Key::F14,
        key_of_code(KeyCode::F15) == Key::F15,
        key_of_code(KeyCode::F16) == Key::F16,
        key_of_code(KeyCode::F17) == Key::F17,
        key_of_code(KeyCode::F18) == Key::F18,
        key_of_code(KeyCode::F19) == Key::F19,
        key_of_code(KeyCode::F20) == Key::F20,
        key_of_code(KeyCode::F21) == Key::F21,
        key_of_code(KeyCode::F22) == Key::F22,
        key_of_code(KeyCode::F23) == Key::F23,
        key_of_code(KeyCode::F24) == Key::F24,
        key_of_code(KeyCode::PrintScreen) == Key::Snapshot,
        key_of_code(KeyCode::ScrollLock) == Key::Scroll,
        key_of_code(KeyCode::Pause) == Key::Pause,
        key_of_code(KeyCode::Insert) == Key::Insert,
        key_of_code(KeyCode::Home) == Key::Home,
        key_of_code(KeyCode::Delete) == Key::Delete,
        key_of_code(KeyCode::End) == Key::End,
        key_of_code(KeyCode::PageDown) == Key::PageDown,
        key_of_code(KeyCode::PageUp) == Key::PageUp,
        key_of_code(KeyCode::ArrowLeft) == Key::Left,
        key_of_code(KeyCode::ArrowUp) == Key::Up,
        key_of_code(KeyCode::ArrowRight) == Key::Right,
        key_of_code(KeyCode::ArrowDown) == Key::Down,
        key_of_code(KeyCode::Backspace) == Key::Back,
        key_of_code(KeyCode::Enter) == Key::Return,
        key_of_code(KeyCode::Space) == Key::Space,
        key_of_code(KeyCode::NumLock) == Key::Numlock,
        key_of_code(KeyCode::Numpad0) == Key::Numpad0,
        key_of_code(KeyCode::Numpad1) == Key::Numpad1,
        key_of_code(KeyCode::Numpad2) == Key::Numpad2,
        key_of_code(KeyCode::Numpad3) == Key::Numpad3,
        key_of_code(KeyCode::Numpad4) == Key::Numpad4,
        key_of_code(KeyCode::Numpad5) == Key::Numpad5,
        key_of_code(KeyCode::Numpad6) == Key::Numpad6,
        key_of_code(KeyCode::Numpad7) == Key::Numpad7,
        key_of_code(KeyCode::Numpad8) == Key::Numpad8,
        key_of_code(KeyCode::Numpad9) == Key::Numpad9,
        key_of_code(KeyCode::NumpadAdd) == Key::Add,
        key_of_code(KeyCode::Quote) == Key::Apostrophe,
        key_of_code(KeyCode::Backslash) == Key::Backslash,
        key_of_code(KeyCode::NumpadClear) == Key::NumpadEquals,
        key_of_code(KeyCode::Comma) == Key::Comma,
        key_of_code(KeyCode::Convert) == Key::Convert,
        key_of_code(KeyCode::NumpadDecimal) == Key::Decimal,
        key_of_code(KeyCode::NumpadDivide) == Key::Divide,
        key_of_code(KeyCode::NumpadMultiply) == Key::Multiply,
        key_of_code(KeyCode::Equal) == Key::Equals,
        key_of_code(KeyCode::Backquote) == Key::Grave,
        key_of_code(KeyCode::KanaMode) == Key::Kana,
        key_of_code(KeyCode::AltLeft) == Key::LAlt,
        key_of_code(KeyCode::BracketLeft) == Key::LBracket,
        key_of_code(KeyCode::ControlLeft) == Key::LControl,
        key_of_code(KeyCode::ShiftLeft) == Key::LShift,
        key_of_code(KeyCode::SuperLeft) == Key::LWin,
        key_of_code(KeyCode::LaunchMail) == Key::Mail,
        key_of_code(KeyCode::MediaSelect) == Key::MediaSelect,
        key_of_code(KeyCode::MediaStop) == Key::MediaStop,
        key_of_code(KeyCode::Minus) == Key::Minus,
        key_of_code(KeyCode::AudioVolumeMute) == Key::Mute,
        key_of_code(KeyCode::BrowserForward) == Key::NavigateForward,
        key_of_code(KeyCode::BrowserBack) == Key::NavigateBackward,
        key_of_code(KeyCode::MediaTrackNext) == Key::NextTrack,
        key_of_code(KeyCode::NonConvert) == Key::NoConvert,
        key_of_code(KeyCode::NumpadComma) == Key::NumpadComma,
        key_of_code(KeyCode::NumpadEnter) == Key::NumpadEnter,
        key_of_code(KeyCode::IntlBackslash) == Key::OEM102,
        key_of_code(KeyCode::Period) == Key::Period,
        key_of_code(KeyCode::MediaPlayPause) == Key::PlayPause,
        key_of_code(KeyCode::Power) == Key::Power,
        key_of_code(KeyCode::MediaTrackPrevious) == Key::PrevTrack,
        key_of_code(KeyCode::AltRight) == Key::RAlt,
        key_of_code(KeyCode::BracketRight) == Key::RBracket,
        key_of_code(KeyCode::ControlRight) == Key::RControl,
        key_of_code(KeyCode::ShiftRight) == Key::RShift,
        key_of_code(KeyCode::SuperRight) == Key::RWin,
        key_of_code(KeyCode::Semicolon) == Key::Semicolon,
        key_of_code(KeyCode::Slash) == Key::Slash,
        key_of_code(KeyCode::Sleep) == Key::Sleep,
        key_of_code(KeyCode::NumpadSubtract) == Key::Subtract,
        key_of_code(KeyCode::Tab) == Key::Tab,
        key_of_code(KeyCode::AudioVolumeDown) == Key::VolumeDown,
        key_of_code(KeyCode::AudioVolumeUp) == Key::VolumeUp,
        key_of_code(KeyCode::WakeUp) == Key::Wake,
        key_of_code(KeyCode::BrowserHome) == Key::WebHome,
        key_of_code(KeyCode::BrowserRefresh) == Key::WebRefresh,
        key_of_code(KeyCode::BrowserSearch) == Key::WebSearch,
        key_of_code(KeyCode::IntlYen) == Key::Yen,
        key_of_code(KeyCode::Copy) == Key::Copy,
        key_of_code(KeyCode::Paste) == Key::Paste,
        key_of_code(KeyCode::Cut) == Key::Cut,
        key_of_code(KeyCode::Other) == Key::Unknown,
        key_of_physical_key(PhysicalKey::Unidentified) == Key::Unknown,
{
    lemma_native_key_names_part1();
    lemma_native_key_names_part2();
    lemma_native_key_names_part3();
    lemma_native_key_names_part4();
}

/// Distinct native key codes never yield the same named key: only `Unknown`
/// is shared.
pub proof fn lemma_native_table_injective(c1: KeyCode, c2: KeyCode)
    ensures
        key_of_code(c1) == key_of_code(c2) && key_of_code(c1) != Key::Unknown ==> c1 == c2,
{
}

/// The `Key` of the `code` string of a web keyboard event.
pub open spec fn key_of_web_code(code: Seq<char>) -> Key {
    if code == "Digit1"@ {
        Key::Key1
    } else if code == "Digit2"@ {
        Key::Key2
    } else if code == "Digit3"@ {
        Key::Key3
    } else if code == "Digit4"@ {
        Key::Key4
    } else if code == "Digit5"@ {
        Key::Key5
    } else if code == "Digit6"@ {
        Key::Key6
    } else if code == "Digit7"@ {
        Key::Key7
    } else if code == "Digit8"@ {
        Key::Key8
    } else if code == "Digit9"@ {
        Key::Key9
    } else if code == "Digit0"@ {
        Key::Key0
    } else if code == "KeyA"@ {
        Key::A
    } else if code == "KeyB"@ {
        Key::B
    } else if code == "KeyC"@ {
        Key::C
    } else if code == "KeyD"@ {
        Key::D
    } else if code == "KeyE"@ {
        Key::E
    } else if code == "KeyF"@ {
        Key::F
    } else if code == "KeyG"@ {
        Key::G
    } else if code == "KeyH"@ {
        Key::H
    } else if code == "KeyI"@ {
        Key::I
    } else if code == "KeyJ"@ {
        Key::J
    } else if code == "KeyK"@ {
        Key::K
    } else if code == "KeyL"@ {
        Key::L
    } else if code == "KeyM"@ {
        Key::M
    } else if code == "KeyN"@ {
        Key::N
    } else if code == "KeyO"@ {
        Key::O
    } else if code == "KeyP"@ {
        Key::P
    } else if code == "KeyQ"@ {
        Key::Q
    } else if code == "KeyR"@ {
        Key::R
    } else if code == "KeyS"@ {
        Key::S
    } else if code == "KeyT"@ {
        Key::T
    } else if code == "KeyU"@ {
        Key::U
    } else if code == "KeyV"@ {
        Key::V
    } else if code == "KeyW"@ {
        Key::W
    } else if code == "KeyX"@ {
        Key::X
    } else if code == "KeyY"@ {
        Key::Y
    } else if code == "KeyZ"@ {
        Key::Z
    } else if code == "Escape"@ {
        Key::Escape
    } else if code == "F1"@ {
        Key::F1
    } else if code == "F2"@ {
        Key::F2
    } else if code == "F3"@ {
        Key::F3
    } else if code == "F4"@ {
        Key::F4
    } else if code == "F5"@ {
        Key::F5
    } else if code == "F6"@ {
        Key::F6
    } else if code == "F7"@ {
        Key::F7
    } else if code == "F8"@ {
        Key::F8
    } else if code == "F9"@ {
        Key::F9
    } else if code == "F10"@ {
        Key::F10
    } else if code == "F11"@ {
        Key::F11
    } else if code == "F12"@ {
        Key::F12
    } else if code == "Insert"@ {
        Key::Insert
    } else if code == "Home"@ {
        Key::Home
    } else if code == "Delete"@ {
        Key::Delete
    } else if code == "End"@ {
        Key::End
    } else if code == "PageDown"@ {
        Key::PageDown
    } else if code == "PageUp"@ {
        Key::PageUp
    } else if code == "ArrowLeft"@ {
        Key::Left
    } else if code == "ArrowUp"@ {
        Key::Up
    } else if code == "ArrowRight"@ {
        Key::Right
    } else if code == "ArrowDown"@ {
        Key::Down
    } else if code == "Backspace"@ {
        Key::Back
    } else if code == "Enter"@ {
        Key::Return
    } else if code == "Space"@ {
        Key::Space
    } else if code == "NumLock"@ {
        Key::Numlock
    } else if code == "Numpad0"@ {
        Key::Numpad0
    } else if code == "Numpad1"@ {
        Key::Numpad1
    } else if code == "Numpad2"@ {
        Key::Numpad2
    } else if code == "Numpad3"@ {
        Key::Numpad3
    } else if code == "Numpad4"@ {
        Key::Numpad4
    } else if code == "Numpad5"@ {
        Key::Numpad5
    } else if code == "Numpad6"@ {
        Key::Numpad6
    } else if code == "Numpad7"@ {
        Key::Numpad7
    } else if code == "Numpad8"@ {
        Key::Numpad8
    } else if code == "Numpad9"@ {
        Key::Numpad9
    } else if code == "NumpadAdd"@ {
        Key::Add
    } else if code == "NumpadSubtract"@ {
        Key::Subtract
    } else if code == "NumpadMultiply"@ {
        Key::Multiply
    } else if code == "NumpadDivide"@ {
        Key::Divide
    } else if code == "NumpadDecimal"@ {
        Key::Decimal
    } else if code == "NumpadEnter"@ {
        Key::NumpadEnter
    } else if code == "Quote"@ {
        Key::Apostrophe
    } else if code == "Backslash"@ {
        Key::Backslash
    } else if code == "Comma"@ {
        Key::Comma
    } else if code == "Equal"@ {
        Key::Equals
    } else if code == "Backquote"@ {
        Key::Grave
    } else if code == "AltLeft"@ {
        Key::LAlt
    } else if code == "BracketLeft"@ {
        Key::LBracket
    } else if code == "ControlLeft"@ {
        Key::LControl
    } else if code == "ShiftLeft"@ {
        Key::LShift
    } else if code == "MetaLeft"@ {
        Key::LWin
    } else if code == "Minus"@ {
        Key::Minus
    } else if code == "Period"@ {
        Key::Period
    } else if code == "AltRight"@ {
        Key::RAlt
    } else if code == "BracketRight"@ {
        Key::RBracket
    } else if code == "ControlRight"@ {
        Key::RControl
    } else if code == "ShiftRight"@ {
        Key::RShift
    } else if code == "MetaRight"@ {
        Key::RWin
    } else if code == "Semicolon"@ {
        Key::Semicolon
    } else if code == "Slash"@ {
        Key::Slash
    } else if code == "Tab"@ {
        Key::Tab
    } else {
        Key::Unknown
    }
}

/// Compares two strings.
pub fn str_eq(a: &str, b: &str) -> (r: bool)
    ensures
        r == (a@ == b@),
{
    let ab = a.as_bytes();
    let bb = b.as_bytes();
    if ab.len() != bb.len() {
        return false;
    }
    let mut i: usize = 0;
    while i < ab.len()
        invariant
            ab@ == a.spec_bytes(),
            bb@ == b.spec_bytes(),
            ab@.len() == bb@.len(),
            0 <= i <= ab@.len(),
            forall|j: int| 0 <= j < i ==> ab@[j] == bb@[j],
        decreases ab@.len() - i,
    {
        if ab[i] != bb[i] {
            return false;
        }
        i = i + 1;
    }
    proof {
        assert(ab@ =~= bb@);
        encode_utf8_decode_utf8(a@);
        encode_utf8_decode_utf8(b@);
    }
    true
}

/// Translates the `code` string of a web keyboard event into a `Key`.
pub fn translate_web_key(code: &str) -> (key: Key)
    ensures
        key == key_of_web_code(code@),
{
    if str_eq(code, "Digit1") {
        Key::Key1
    } else if str_eq(code, "Digit2") {
        Key::Key2
    } else if str_eq(code, "Digit3") {
        Key::Key3
    } else if str_eq(code, "Digit4") {
        Key::Key4
    } else if str_eq(code, "Digit5") {
        Key::Key5
    } else if str_eq(code, "Digit6") {
        Key::Key6
    } else if str_eq(code, "Digit7") {
        Key::Key7
    } else if str_eq(code, "Digit8") {
        Key::Key8
    } else if str_eq(code, "Digit9") {
        Key::Key9
    } else if str_eq(code, "Digit0") {
        Key::Key0
    } else if str_eq(code, "KeyA") {
        Key::A
    } else if str_eq(code, "KeyB") {
        Key::B
    } else if str_eq(code, "KeyC") {
        Key::C
    } else if str_eq(code, "KeyD") {
        Key::D
    } else if str_eq(code, "KeyE") {
        Key::E
    } else if str_eq(code, "KeyF") {
        Key::F
    } else if str_eq(code, "KeyG") {
        Key::G
    } else if str_eq(code, "KeyH") {
        Key::H
    } else if str_eq(code, "KeyI") {
        Key::I
    } else if str_eq(code, "KeyJ") {
        Key::J
    } else if str_eq(code, "KeyK") {
        Key::K
    } else if str_eq(code, "KeyL") {
        Key::L
    } else if str_eq(code, "KeyM") {
        Key::M
    } else if str_eq(code, "KeyN") {
        Key::N
    } else if str_eq(code, "KeyO") {
        Key::O
    } else if str_eq(code, "KeyP") {
        Key::P
    } else if str_eq(code, "KeyQ") {
        Key::Q
    } else if str_eq(code, "KeyR") {
        Key::R
    } else if str_eq(code, "KeyS") {
        Key::S
    } else if str_eq(code, "KeyT") {
        Key::T
    } else if str_eq(code, "KeyU") {
        Key::U
    } else if str_eq(code, "KeyV") {
        Key::V
    } else if str_eq(code, "KeyW") {
        Key::W
    } else if str_eq(code, "KeyX") {
        Key::X
    } else if str_eq(code, "KeyY") {
        Key::Y
    } else if str_eq(code, "KeyZ") {
        Key::Z
    } else if str_eq(code, "Escape") {
        Key::Escape
    } else if str_eq(code, "F1") {
        Key::F1
    } else if str_eq(code, "F2") {
        Key::F2
    } else if str_eq(code, "F3") {
        Key::F3
    } else if str_eq(code, "F4") {
        Key::F4
    } else if str_eq(code, "F5") {
        Key::F5
    } else if str_eq(code, "F6") {
        Key::F6
    } else if str_eq(code, "F7") {
        Key::F7
    } else if str_eq(code, "F8") {
        Key::F8
    } else if str_eq(code, "F9") {
        Key::F9
    } else if str_eq(code, "F10") {
        Key::F10
    } else if str_eq(code, "F11") {
        Key::F11
    } else if str_eq(code, "F12") {
        Key::F12
    } else if str_eq(code, "Insert") {
        Key::Insert
    } else if str_eq(code, "Home") {
        Key::Home
    } else if str_eq(code, "Delete") {
        Key::Delete
    } else if str_eq(code, "End") {
        Key::End
    } else if str_eq(code, "PageDown") {
        Key::PageDown
    } else if str_eq(code, "PageUp") {
        Key::PageUp
    } else if str_eq(code, "ArrowLeft") {
        Key::Left
    } else if str_eq(code, "ArrowUp") {
        Key::Up
    } else if str_eq(code, "ArrowRight") {
        Key::Right
    } else if str_eq(code, "ArrowDown") {
        Key::Down
    } else if str_eq(code, "Backspace") {
        Key::Back
    } else if str_eq(code, "Enter") {
        Key::Return
    } else if str_eq(code, "Space") {
        Key::Space
    } else if str_eq(code, "NumLock") {
        Key::Numlock
    } else if str_eq(code, "Numpad0") {
        Key::Numpad0
    } else if str_eq(code, "Numpad1") {
        Key::Numpad1
    } else if str_eq(code, "Numpad2") {
        Key::Numpad2
    } else if str_eq(code, "Numpad3") {
        Key::Numpad3
    } else if str_eq(code, "Numpad4") {
        Key::Numpad4
    } else if str_eq(code, "Numpad5") {
        Key::Numpad5
    } else if str_eq(code, "Numpad6") {
        Key::Numpad6
    } else if str_eq(code, "Numpad7") {
        Key::Numpad7
    } else if str_eq(code, "Numpad8") {
        Key::Numpad8
    } else if str_eq(code, "Numpad9") {
        Key::Numpad9
    } else if str_eq(code, "NumpadAdd") {
        Key::Add
    } else if str_eq(code, "NumpadSubtract") {
        Key::Subtract
    } else if str_eq(code, "NumpadMultiply") {
        Key::Multiply
    } else if str_eq(code, "NumpadDivide") {
        Key::Divide
    } else if str_eq(code, "NumpadDecimal") {
        Key::Decimal
    } else if str_eq(code, "NumpadEnter") {
        Key::NumpadEnter
    } else if str_eq(code, "Quote") {
        Key::Apostrophe
    } else if str_eq(code, "Backslash") {
        Key::Backslash
    } else if str_eq(code, "Comma") {
        Key::Comma
    } else if str_eq(code, "Equal") {
        Key::Equals
    } else if str_eq(code, "Backquote") {
        Key::Grave
    } else if str_eq(code, "AltLeft") {
        Key::LAlt
    } else if str_eq(code, "BracketLeft") {
        Key::LBracket
    } else if str_eq(code, "ControlLeft") {
        Key::LControl
    } else if str_eq(code, "ShiftLeft") {
        Key::LShift
    } else if str_eq(code, "MetaLeft") {
        Key::LWin
    } else if str_eq(code, "Minus") {
        Key::Minus
    } else if str_eq(code, "Period") {
        Key::Period
    } else if str_eq(code, "AltRight") {
        Key::RAlt
    } else if str_eq(code, "BracketRight") {
        Key::RBracket
    } else if str_eq(code, "ControlRight") {
        Key::RControl
    } else if str_eq(code, "ShiftRight") {
        Key::RShift
    } else if str_eq(code, "MetaRight") {
        Key::RWin
    } else if str_eq(code, "Semicolon") {
        Key::Semicolon
    } else if str_eq(code, "Slash") {
        Key::Slash
    } else if str_eq(code, "Tab") {
        Key::Tab
    } else {
        Key::Unknown
    }
}

/// Distinct web key codes never yield the same named key: only `Unknown`
/// is shared.
pub proof fn lemma_web_table_injective(a: Seq<char>, b: Seq<char>)
    ensures
        key_of_web_code(a) == key_of_web_code(b) && key_of_web_code(a) != Key::Unknown ==> a == b,
{
}

/// The name of a native key code in the `code` vocabulary of web keyboard
/// events. The names are those of the codes, except that the web calls the
/// Super keys Meta.
pub open spec fn code_name(code: KeyCode) -> Seq<char> {
    match code {
        KeyCode::Digit1 => "Digit1"@,
        KeyCode::Digit2 => "Digit2"@,
        KeyCode::Digit3 => "Digit3"@,
        KeyCode::Digit4 => "Digit4"@,
        KeyCode::Digit5 => "Digit5"@,
        KeyCode::Digit6 => "Digit6"@,
        KeyCode::Digit7 => "Digit7"@,
        KeyCode::Digit8 => "Digit8"@,
        KeyCode::Digit9 => "Digit9"@,
        KeyCode::Digit0 => "Digit0"@,
        KeyCode::KeyA => "KeyA"@,
        KeyCode::KeyB => "KeyB"@,
        KeyCode::KeyC => "KeyC"@,
        KeyCode::KeyD => "KeyD"@,
        KeyCode::KeyE => "KeyE"@,
        KeyCode::KeyF => "KeyF"@,
        KeyCode::KeyG => "KeyG"@,
        KeyCode::KeyH => "KeyH"@,
        KeyCode::KeyI => "KeyI"@,
        KeyCode::KeyJ => "KeyJ"@,
        KeyCode::KeyK => "KeyK"@,
        KeyCode::KeyL => "KeyL"@,
        KeyCode::KeyM => "KeyM"@,
        KeyCode::KeyN => "KeyN"@,
        KeyCode::KeyO => "KeyO"@,
        KeyCode::KeyP => "KeyP"@,
        KeyCode::KeyQ => "KeyQ"@,
        KeyCode::KeyR => "KeyR"@,
        KeyCode::KeyS => "KeyS"@,
        KeyCode::KeyT => "KeyT"@,
        KeyCode::KeyU => "KeyU"@,
        KeyCode::KeyV => "KeyV"@,
        KeyCode::KeyW => "KeyW"@,
        KeyCode::KeyX => "KeyX"@,
        KeyCode::KeyY => "KeyY"@,
        KeyCode::KeyZ => "KeyZ"@,
        KeyCode::Escape => "Escape"@,
        KeyCode::F1 => "F1"@,
        KeyCode::F2 => "F2"@,
        KeyCode::F3 => "F3"@,
        KeyCode::F4 => "F4"@,
        KeyCode::F5 => "F5"@,
        KeyCode::F6 => "F6"@,
        KeyCode::F7 => "F7"@,
        KeyCode::F8 => "F8"@,
        KeyCode::F9 => "F9"@,
        KeyCode::F10 => "F10"@,
        KeyCode::F11 => "F11"@,
        KeyCode::F12 => "F12"@,
        KeyCode::F13 => "F13"@,
        KeyCode::F14 => "F14"@,
        KeyCode::F15 => "F15"@,
        KeyCode::F16 => "F16"@,
        KeyCode::F17 => "F17"@,
        KeyCode::F18 => "F18"@,
        KeyCode::F19 => "F19"@,
        KeyCode::F20 => "F20"@,
        KeyCode::F21 => "F21"@,
        KeyCode::F22 => "F22"@,
        KeyCode::F23 => "F23"@,
        KeyCode::F24 => "F24"@,
        KeyCode::PrintScreen => "PrintScreen"@,
        KeyCode::ScrollLock => "ScrollLock"@,
        KeyCode::Pause => "Pause"@,
        KeyCode::Insert => "Insert"@,
        KeyCode::Home => "Home"@,
        KeyCode::Delete => "Delete"@,
        KeyCode::End => "End"@,
        KeyCode::PageDown => "PageDown"@,
        KeyCode::PageUp => "PageUp"@,
        KeyCode::ArrowLeft => "ArrowLeft"@,
        KeyCode::ArrowUp => "ArrowUp"@,
        KeyCode::ArrowRight => "ArrowRight"@,
        KeyCode::ArrowDown => "ArrowDown"@,
        KeyCode::Backspace => "Backspace"@,
        KeyCode::Enter => "Enter"@,
        KeyCode::Space => "Space"@,
        KeyCode::NumLock => "NumLock"@,
        KeyCode::Numpad0 => "Numpad0"@,
        KeyCode::Numpad1 => "Numpad1"@,
        KeyCode::Numpad2 => "Numpad2"@,
        KeyCode::Numpad3 => "Numpad3"@,
        KeyCode::Numpad4 => "Numpad4"@,
        KeyCode::Numpad5 => "Numpad5"@,
        KeyCode::Numpad6 => "Numpad6"@,
        KeyCode::Numpad7 => "Numpad7"@,
        KeyCode::Numpad8 => "Numpad8"@,
        KeyCode::Numpad9 => "Numpad9"@,
        KeyCode::NumpadAdd => "NumpadAdd"@,
        KeyCode::Quote => "Quote"@,
        KeyCode::Backslash => "Backslash"@,
        KeyCode::NumpadClear => "NumpadClear"@,
        KeyCode::Comma => "Comma"@,
        KeyCode::Convert => "Convert"@,
        KeyCode::NumpadDecimal => "NumpadDecimal"@,
        KeyCode::NumpadDivide => "NumpadDivide"@,
        KeyCode::NumpadMultiply => "NumpadMultiply"@,
        KeyCode::Equal => "Equal"@,
        KeyCode::Backquote => "Backquote"@,
        KeyCode::KanaMode => "KanaMode"@,
        KeyCode::AltLeft => "AltLeft"@,
        KeyCode::BracketLeft => "BracketLeft"@,
        KeyCode::ControlLeft => "ControlLeft"@,
        KeyCode::ShiftLeft => "ShiftLeft"@,
        KeyCode::SuperLeft => "MetaLeft"@,
        KeyCode::LaunchMail => "LaunchMail"@,
        KeyCode::MediaSelect => "MediaSelect"@,
        KeyCode::MediaStop => "MediaStop"@,
        KeyCode::Minus => "Minus"@,
        KeyCode::AudioVolumeMute => "AudioVolumeMute"@,
        KeyCode::BrowserForward => "BrowserForward"@,
        KeyCode::BrowserBack => "BrowserBack"@,
        KeyCode::MediaTrackNext => "MediaTrackNext"@,
        KeyCode::NonConvert => "NonConvert"@,
        KeyCode::NumpadComma => "NumpadComma"@,
        KeyCode::NumpadEnter => "NumpadEnter"@,
        KeyCode::IntlBackslash => "IntlBackslash"@,
        KeyCode::Period => "Period"@,
        KeyCode::MediaPlayPause => "MediaPlayPause"@,
        KeyCode::Power => "Power"@,
        KeyCode::MediaTrackPrevious => "MediaTrackPrevious"@,
        KeyCode::AltRight => "AltRight"@,
        KeyCode::BracketRight => "BracketRight"@,
        KeyCode::ControlRight => "ControlRight"@,
        KeyCode::ShiftRight => "ShiftRight"@,
        KeyCode::SuperRight => "MetaRight"@,
        KeyCode::Semicolon => "Semicolon"@,
        KeyCode::Slash => "Slash"@,
        KeyCode::Sleep => "Sleep"@,
        KeyCode::NumpadSubtract => "NumpadSubtract"@,
        KeyCode::Tab => "Tab"@,
        KeyCode::AudioVolumeDown => "AudioVolumeDown"@,
        KeyCode::AudioVolumeUp => "AudioVolumeUp"@,
        KeyCode::WakeUp => "WakeUp"@,
        KeyCode::BrowserHome => "BrowserHome"@,
        KeyCode::BrowserRefresh => "BrowserRefresh"@,
        KeyCode::BrowserSearch => "BrowserSearch"@,
        KeyCode::IntlYen => "IntlYen"@,
        KeyCode::Copy => "Copy"@,
        KeyCode::Paste => "Paste"@,
        KeyCode::Cut => "Cut"@,
        KeyCode::Other => Seq::empty(),
    }
}

/// The native key code of the same name as a web `code` string, for the
/// strings that the web table knows.
spec fn native_code_of_web_code(code: Seq<char>) -> KeyCode {
    if code == "Digit1"@ {
        KeyCode::Digit1
    } else if code == "Digit2"@ {
        KeyCode::Digit2
    } else if code == "Digit3"@ {
        KeyCode::Digit3
    } else if code == "Digit4"@ {
        KeyCode::Digit4
    } else if code == "Digit5"@ {
        KeyCode::Digit5
    } else if code == "Digit6"@ {
        KeyCode::Digit6
    } else if code == "Digit7"@ {
        KeyCode::Digit7
    } else if code == "Digit8"@ {
        KeyCode::Digit8
    } else if code == "Digit9"@ {
        KeyCode::Digit9
    } else if code == "Digit0"@ {
        KeyCode::Digit0
    } else if code == "KeyA"@ {
        KeyCode::KeyA
    } else if code == "KeyB"@ {
        KeyCode::KeyB
    } else if code == "KeyC"@ {
        KeyCode::KeyC
    } else if code == "KeyD"@ {
        KeyCode::KeyD
    } else if code == "KeyE"@ {
        KeyCode::KeyE
    } else if code == "KeyF"@ {
        KeyCode::KeyF
    } else if code == "KeyG"@ {
        KeyCode::KeyG
    } else if code == "KeyH"@ {
        KeyCode::KeyH
    } else if code == "KeyI"@ {
        KeyCode::KeyI
    } else if code == "KeyJ"@ {
        KeyCode::KeyJ
    } else if code == "KeyK"@ {
        KeyCode::KeyK
    } else if code == "KeyL"@ {
        KeyCode::KeyL
    } else if code == "KeyM"@ {
        KeyCode::KeyM
    } else if code == "KeyN"@ {
        KeyCode::KeyN
    } else if code == "KeyO"@ {
        KeyCode::KeyO
    } else if code == "KeyP"@ {
        KeyCode::KeyP
    } else if code == "KeyQ"@ {
        KeyCode::KeyQ
    } else if code == "KeyR"@ {
        KeyCode::KeyR
    } else if code == "KeyS"@ {
        KeyCode::KeyS
    } else if code == "KeyT"@ {
        KeyCode::KeyT
    } else if code == "KeyU"@ {
        KeyCode::KeyU
    } else if code == "KeyV"@ {
        KeyCode::KeyV
    } else if code == "KeyW"@ {
        KeyCode::KeyW
    } else if code == "KeyX"@ {
        KeyCode::KeyX
    } else if code == "KeyY"@ {
        KeyCode::KeyY
    } else if code == "KeyZ"@ {
        KeyCode::KeyZ
    } else if code == "Escape"@ {
        KeyCode::Escape
    } else if code == "F1"@ {
        KeyCode::F1
    } else if code == "F2"@ {
        KeyCode::F2
    } else if code == "F3"@ {
        KeyCode::F3
    } else if code == "F4"@ {
        KeyCode::F4
    } else if code == "F5"@ {
        KeyCode::F5
    } else if code == "F6"@ {
        KeyCode::F6
    } else if code == "F7"@ {
        KeyCode::F7
    } else if code == "F8"@ {
        KeyCode::F8
    } else if code == "F9"@ {
        KeyCode::F9
    } else if code == "F10"@ {
        KeyCode::F10
    } else if code == "F11"@ {
        KeyCode::F11
    } else if code == "F12"@ {
        KeyCode::F12
    } else if code == "Insert"@ {
        KeyCode::Insert
    } else if code == "Home"@ {
        KeyCode::Home
    } else if code == "Delete"@ {
        KeyCode::Delete
    } else if code == "End"@ {
        KeyCode::End
    } else if code == "PageDown"@ {
        KeyCode::PageDown
    } else if code == "PageUp"@ {
        KeyCode::PageUp
    } else if code == "ArrowLeft"@ {
        KeyCode::ArrowLeft
    } else if code == "ArrowUp"@ {
        KeyCode::ArrowUp
    } else if code == "ArrowRight"@ {
        KeyCode::ArrowRight
    } else if code == "ArrowDown"@ {
        KeyCode::ArrowDown
    } else if code == "Backspace"@ {
        KeyCode::Backspace
    } else if code == "Enter"@ {
        KeyCode::Enter
    } else if code == "Space"@ {
        KeyCode::Space
    } else if code == "NumLock"@ {
        KeyCode::NumLock
    } else if code == "Numpad0"@ {
        KeyCode::Numpad0
    } else if code == "Numpad1"@ {
        KeyCode::Numpad1
    } else if code == "Numpad2"@ {
        KeyCode::Numpad2
    } else if code == "Numpad3"@ {
        KeyCode::Numpad3
    } else if code == "Numpad4"@ {
        KeyCode::Numpad4
    } else if code == "Numpad5"@ {
        KeyCode::Numpad5
    } else if code == "Numpad6"@ {
        KeyCode::Numpad6
    } else if code == "Numpad7"@ {
        KeyCode::Numpad7
    } else if code == "Numpad8"@ {
        KeyCode::Numpad8
    } else if code == "Numpad9"@ {
        KeyCode::Numpad9
    } else if code == "NumpadAdd"@ {
        KeyCode::NumpadAdd
    } else if code == "NumpadSubtract"@ {
        KeyCode::NumpadSubtract
    } else if code == "NumpadMultiply"@ {
        KeyCode::NumpadMultiply
    } else if code == "NumpadDivide"@ {
        KeyCode::NumpadDivide
    } else if code == "NumpadDecimal"@ {
        KeyCode::NumpadDecimal
    } else if code == "NumpadEnter"@ {
        KeyCode::NumpadEnter
    } else if code == "Quote"@ {
        KeyCode::Quote
    } else if code == "Backslash"@ {
        KeyCode::Backslash
    } else if code == "Comma"@ {
        KeyCode::Comma
    } else if code == "Equal"@ {
        KeyCode::Equal
    } else if code == "Backquote"@ {
        KeyCode::Backquote
    } else if code == "AltLeft"@ {
        KeyCode::AltLeft
    } else if code == "BracketLeft"@ {
        KeyCode::BracketLeft
    } else if code == "ControlLeft"@ {
        KeyCode::ControlLeft
    } else if code == "ShiftLeft"@ {
        KeyCode::ShiftLeft
    } else if code == "MetaLeft"@ {
        KeyCode::SuperLeft
    } else if code == "Minus"@ {
        KeyCode::Minus
    } else if code == "Period"@ {
        KeyCode::Period
    } else if code == "AltRight"@ {
        KeyCode::AltRight
    } else if code == "BracketRight"@ {
        KeyCode::BracketRight
    } else if code == "ControlRight"@ {
        KeyCode::ControlRight
    } else if code == "ShiftRight"@ {
        KeyCode::ShiftRight
    } else if code == "MetaRight"@ {
        KeyCode::SuperRight
    } else if code == "Semicolon"@ {
        KeyCode::Semicolon
    } else if code == "Slash"@ {
        KeyCode::Slash
    } else if code == "Tab"@ {
        KeyCode::Tab
    } else {
        KeyCode::Other
    }
}

/// The `code` strings that the web table knows.
pub open spec fn web_code_names() -> Set<Seq<char>> {
    set![
        "Digit1"@,
        "Digit2"@,
        "Digit3"@,
        "Digit4"@,
        "Digit5"@,
        "Digit6"@,
        "Digit7"@,
        "Digit8"@,
        "Digit9"@,
        "Digit0"@,
        "KeyA"@,
        "KeyB"@,
        "KeyC"@,
        "KeyD"@,
        "KeyE"@,
        "KeyF"@,
        "KeyG"@,
        "KeyH"@,
        "KeyI"@,
        "KeyJ"@,
        "KeyK"@,
        "KeyL"@,
        "KeyM"@,
        "KeyN"@,
        "KeyO"@,
        "KeyP"@,
        "KeyQ"@,
        "KeyR"@,
        "KeyS"@,
        "KeyT"@,
        "KeyU"@,
        "KeyV"@,
        "KeyW"@,
        "KeyX"@,
        "KeyY"@,
        "KeyZ"@,
        "Escape"@,
        "F1"@,
        "F2"@,
        "F3"@,
        "F4"@,
        "F5"@,
        "F6"@,
        "F7"@,
        "F8"@,
        "F9"@,
        "F10"@,
        "F11"@,
        "F12"@,
        "Insert"@,
        "Home"@,
        "Delete"@,
        "End"@,
        "PageDown"@,
        "PageUp"@,
        "ArrowLeft"@,
        "ArrowUp"@,
        "ArrowRight"@,
        "ArrowDown"@,
        "Backspace"@,
        "Enter"@,
        "Space"@,
        "NumLock"@,
        "Numpad0"@,
        "Numpad1"@,
        "Numpad2"@,
        "Numpad3"@,
        "Numpad4"@,
        "Numpad5"@,
        "Numpad6"@,
        "Numpad7"@,
        "Numpad8"@,
        "Numpad9"@,
        "NumpadAdd"@,
        "NumpadSubtract"@,
        "NumpadMultiply"@,
        "NumpadDivide"@,
        "NumpadDecimal"@,
        "NumpadEnter"@,
        "Quote"@,
        "Backslash"@,
        "Comma"@,
        "Equal"@,
        "Backquote"@,
        "AltLeft"@,
        "BracketLeft"@,
        "ControlLeft"@,
        "ShiftLeft"@,
        "MetaLeft"@,
        "Minus"@,
        "Period"@,
        "AltRight"@,
        "BracketRight"@,
        "ControlRight"@,
        "ShiftRight"@,
        "MetaRight"@,
        "Semicolon"@,
        "Slash"@,
        "Tab"@,
    ]
}

/// A `code` string that the web table does not know yields `Unknown`.
pub proof fn lemma_web_unknown_codes(code: Seq<char>)
    ensures
        !web_code_names().contains(code) ==> key_of_web_code(code) == Key::Unknown,
{
}

/// Every web `code` string that the web table knows names a native key code
/// that the native table gives the same key.
pub proof fn lemma_web_codes_name_native_codes(code: Seq<char>)
    ensures
        key_of_web_code(code) != Key::Unknown ==> exists|c: KeyCode|
            code_name(c) == code && #[trigger] key_of_code(c) == key_of_web_code(code),
{
    if key_of_web_code(code) != Key::Unknown {
        let c = native_code_of_web_code(code);
        assert(code_name(c) == code && key_of_code(c) == key_of_web_code(code));
    }
}

/// Entries 1 to 10 of the web table, in the order the table tests them.
#[verifier::rlimit(100)]
#[verifier::spinoff_prover]
proof fn lemma_web_key_names_part1()
    ensures
        key_of_web_code("Digit1"@) == Key::Key1,
        key_of_web_code("Digit2"@) == Key::Key2,
        key_of_web_code("Digit3"@) == Key::Key3,
        key_of_web_code("Digit4"@) == Key::Key4,
        key_of_web_code("Digit5"@) == Key::Key5,
        key_of_web_code("Digit6"@) == Key::Key6,
        key_of_web_code("Digit7"@) == Key::Key7,
        key_of_web_code("Digit8"@) == Key::Key8,
        key_of_web_code("Digit9"@) == Key::Key9,
        key_of_web_code("Digit0"@) == Key::Key0,
{
    reveal_strlit("Digit1");
    reveal_strlit("Digit2");
    reveal_strlit("Digit3");
    reveal_strlit("Digit4");
    reveal_strlit("Digit5");
    reveal_strlit("Digit6");
    reveal_strlit("Digit7");
    reveal_strlit("Digit8");
    reveal_strlit("Digit9");
    reveal_strlit("Digit0");
    assert("Digit1"@ =~= seq!['D', 'i', 'g', 'i', 't', '1']);
    assert("Digit2"@ =~= seq!['D', 'i', 'g', 'i', 't', '2']);
    assert("Digit3"@ =~= seq!['D', 'i', 'g', 'i', 't', '3']);
    assert("Digit4"@ =~= seq!['D', 'i', 'g', 'i', 't', '4']);
    assert("Digit5"@ =~= seq!['D', 'i', 'g', 'i', 't', '5']);
    assert("Digit6"@ =~= seq!['D', 'i', 'g', 'i', 't', '6']);
    assert("Digit7"@ =~= seq!['D', 'i', 'g', 'i', 't', '7']);
    assert("Digit8"@ =~= seq!['D', 'i', 'g', 'i', 't', '8']);
    assert("Digit9"@ =~= seq!['D', 'i', 'g', 'i', 't', '9']);
    assert("Digit0"@ =~= seq!['D', 'i', 'g', 'i', 't', '0']);
}

/// Entries 11 to 20 of the web table, in the order the table tests them.
#[verifier::rlimit(100)]
#[verifier::spinoff_prover]
proof fn lemma_web_key_names_part2()
    ensures
        key_of_web_code("KeyA"@) == Key::A,
        key_of_web_code("KeyB"@) == Key::B,
        key_of_web_code("KeyC"@) == Key::C,
        key_of_web_code("KeyD"@) == Key::D,
        key_of_web_code("KeyE"@) == Key::E,
        key_of_web_code("KeyF"@) == Key::F,
        key_of_web_code("KeyG"@) == Key::G,
        key_of_web_code("KeyH"@) == Key::H,
        key_of_web_code("KeyI"@) == Key::I,
        key_of_web_code("KeyJ"@) == Key::J,
{
    reveal_strlit("Digit1");
    reveal_strlit("Digit2");
    reveal_strlit("Digit3");
    reveal_strlit("Digit4");
    reveal_strlit("Digit5");
    reveal_strlit("Digit6");
    reveal_strlit("Digit7");
    reveal_strlit("Digit8");
    reveal_strlit("Digit9");
    reveal_strlit("Digit0");
    reveal_strlit("KeyA");
    reveal_strlit("KeyB");
    reveal_strlit("KeyC");
    reveal_strlit("KeyD");
    reveal_strlit("KeyE");
    reveal_strlit("KeyF");
    reveal_strlit("KeyG");
    reveal_strlit("KeyH");
    reveal_strlit("KeyI");
    reveal_strlit("KeyJ");
    assert("Digit1"@ =~= seq!['D', 'i', 'g', 'i', 't', '1']);
    assert("Digit2"@ =~= seq!['D', 'i', 'g', 'i', 't', '2']);
    assert("Digit3"@ =~= seq!['D', 'i', 'g', 'i', 't', '3']);
    assert("Digit4"@ =~= seq!['D', 'i', 'g', 'i', 't', '4']);
    assert("Digit5"@ =~= seq!['D', 'i', 'g', 'i', 't', '5']);
    assert("Digit6"@ =~= seq!['D', 'i', 'g', 'i', 't', '6']);
    assert("Digit7"@ =~= seq!['D', 'i', 'g', 'i', 't', '7']);
    assert("Digit8"@ =~= seq!['D', 'i', 'g', 'i', 't', '8']);
    assert("Digit9"@ =~= seq!['D', 'i', 'g', 'i', 't', '9']);
    assert("Digit0"@ =~= seq!['D', 'i', 'g', 'i', 't', '0']);
    assert("KeyA"@ =~= seq!['K', 'e', 'y', 'A']);
    assert("KeyB"@ =~= seq!['K', 'e', 'y', 'B']);
    assert("KeyC"@ =~= seq!['K', 'e', 'y', 'C']);
    assert("KeyD"@ =~= seq!['K', 'e', 'y', 'D']);
    assert("KeyE"@ =~= seq!['K', 'e', 'y', 'E']);
    assert("KeyF"@ =~= seq!['K', 'e', 'y', 'F']);
    assert("KeyG"@ =~= seq!['K', 'e', 'y', 'G']);
    assert("KeyH"@ =~= seq!['K', 'e', 'y', 'H']);
    assert("KeyI"@ =~= seq!['K', 'e', 'y', 'I']);
    assert("KeyJ"@ =~= seq!['K', 'e', 'y', 'J']);
}

/// Entries 21 to 30 of the web table, in the order the table tests them.
#[verifier::rlimit(100)]
#[verifier::spinoff_prover]
proof fn lemma_web_key_names_part3()
    ensures
        key_of_web_code("KeyK"@) == Key::K,
        key_of_web_code("KeyL"@) == Key::L,
        key_of_web_code("KeyM"@) == Key::M,
        key_of_web_code("KeyN"@) == Key::N,
        key_of_web_code("KeyO"@) == Key::O,
        key_of_web_code("KeyP"@) == Key::P,
        key_of_web_code("KeyQ"@) == Key::Q,
        key_of_web_code("KeyR"@) == Key::R,
        key_of_web_code("KeyS"@) == Key::S,
        key_of_web_code("KeyT"@) == Key::T,
{
    reveal_strlit("Digit1");
    reveal_strlit("Digit2");
    reveal_strlit("Digit3");
    reveal_strlit("Digit4");
    reveal_strlit("Digit5");
    reveal_strlit("Digit6");
    reveal_strlit("Digit7");
    reveal_strlit("Digit8");
    reveal_strlit("Digit9");
    reveal_strlit("Digit0");
    reveal_strlit("KeyA");
    reveal_strlit("KeyB");
    reveal_strlit("KeyC");
    reveal_strlit("KeyD");
    reveal_strlit("KeyE");
    reveal_strlit("KeyF");
    reveal_strlit("KeyG");
    reveal_strlit("KeyH");
    reveal_strlit("KeyI");
    reveal_strlit("KeyJ");
    reveal_strlit("KeyK");
    reveal_strlit("KeyL");
    reveal_strlit("KeyM");
    reveal_strlit("KeyN");
    reveal_strlit("KeyO");
    reveal_strlit("KeyP");
    reveal_strlit("KeyQ");
    reveal_strlit("KeyR");
    reveal_strlit("KeyS");
    reveal_strlit("KeyT");
    assert("Digit1"@ =~= seq!['D', 'i', 'g', 'i', 't', '1']);
    assert("Digit2"@ =~= seq!['D', 'i', 'g', 'i', 't', '2']);
    assert("Digit3"@ =~= seq!['D', 'i', 'g', 'i', 't', '3']);
    assert("Digit4"@ =~= seq!['D', 'i', 'g', 'i', 't', '4']);
    assert("Digit5"@ =~= seq!['D', 'i', 'g', 'i', 't', '5']);
    assert("Digit6"@ =~= seq!['D', 'i', 'g', 'i', 't', '6']);
    assert("Digit7"@ =~= seq!['D', 'i', 'g', 'i', 't', '7']);
    assert("Digit8"@ =~= seq!['D', 'i', 'g', 'i', 't', '8']);
    assert("Digit9"@ =~= seq!['D', 'i', 'g', 'i', 't', '9']);
    assert("Digit0"@ =~= seq!['D', 'i', 'g', 'i', 't', '0']);
    assert("KeyA"@ =~= seq!['K', 'e', 'y', 'A']);
    assert("KeyB"@ =~= seq!['K', 'e', 'y', 'B']);
    assert("KeyC"@ =~= seq!['K', 'e', 'y', 'C']);
    assert("KeyD"@ =~= seq!['K', 'e', 'y', 'D']);
    assert("KeyE"@ =~= seq!['K', 'e', 'y', 'E']);
    assert("KeyF"@ =~= seq!['K', 'e', 'y', 'F']);
    assert("KeyG"@ =~= seq!['K', 'e', 'y', 'G']);
    assert("KeyH"@ =~= seq!['K', 'e', 'y', 'H']);
    assert("KeyI"@ =~= seq!['K', 'e', 'y', 'I']);
    assert("KeyJ"@ =~= seq!['K', 'e', 'y', 'J']);
    assert("KeyK"@ =~= seq!['K', 'e', 'y', 'K']);
    assert("KeyL"@ =~= seq!['K', 'e', 'y', 'L']);
    assert("KeyM"@ =~= seq!['K', 'e', 'y', 'M']);
    assert("KeyN"@ =~= seq!['K', 'e', 'y', 'N']);
    assert("KeyO"@ =~= seq!['K', 'e', 'y', 'O']);
    assert("KeyP"@ =~= seq!['K', 'e', 'y', 'P']);
    assert("KeyQ"@ =~= seq!['K', 'e', 'y', 'Q']);
    assert("KeyR"@ =~= seq!['K', 'e', 'y', 'R']);
    assert("KeyS"@ =~= seq!['K', 'e', 'y', 'S']);
    assert("KeyT"@ =~= seq!['K', 'e', 'y', 'T']);
}

/// Entries 31 to 40 of the web table, in the order the table tests them.
#[verifier::rlimit(100)]
#[verifier::spinoff_prover]
proof fn lemma_web_key_names_part4()
    ensures
        key_of_web_code("KeyU"@) == Key::U,
        key_of_web_code("KeyV"@) == Key::V,
        key_of_web_code("KeyW"@) == Key::W,
        key_of_web_code("KeyX"@) == Key::X,
        key_of_web_code("KeyY"@) == Key::Y,
        key_of_web_code("KeyZ"@) == Key::Z,
        key_of_web_code("Escape"@) == Key::Escape,
        key_of_web_code("F1"@) == Key::F1,
        key_of_web_code("F2"@) == Key::F2,
        key_of_web_code("F3"@) == Key::F3,
{
    reveal_strlit("Digit1");
    reveal_strlit("Digit2");
    reveal_strlit("Digit3");
    reveal_strlit("Digit4");
    reveal_strlit("Digit5");
    reveal_strlit("Digit6");
    reveal_strlit("Digit7");
    reveal_strlit("Digit8");
    reveal_strlit("Digit9");
    reveal_strlit("Digit0");
    reveal_strlit("KeyA");
    reveal_strlit("KeyB");
    reveal_strlit("KeyC");
    reveal_strlit("KeyD");
    reveal_strlit("KeyE");
    reveal_strlit("KeyF");
    reveal_strlit("KeyG");
    reveal_strlit("KeyH");
    reveal_strlit("KeyI");
    reveal_strlit("KeyJ");
    reveal_strlit("KeyK");
    reveal_strlit("KeyL");
    reveal_strlit("KeyM");
    reveal_strlit("KeyN");
    reveal_strlit("KeyO");
    reveal_strlit("KeyP");
    reveal_strlit("KeyQ");
    reveal_strlit("KeyR");
    reveal_strlit("KeyS");
    reveal_strlit("KeyT");
    reveal_strlit("KeyU");
    reveal_strlit("KeyV");
    reveal_strlit("KeyW");
    reveal_strlit("KeyX");
    reveal_strlit("KeyY");
    reveal_strlit("KeyZ");
    reveal_strlit("Escape");
    reveal_strlit("F1");
    reveal_strlit("F2");
    reveal_strlit("F3");
    assert("Digit1"@ =~= seq!['D', 'i', 'g', 'i', 't', '1']);
    assert("Digit2"@ =~= seq!['D', 'i', 'g', 'i', 't', '2']);
    assert("Digit3"@ =~= seq!['D', 'i', 'g', 'i', 't', '3']);
    assert("Digit4"@ =~= seq!['D', 'i', 'g', 'i', 't', '4']);
    assert("Digit5"@ =~= seq!['D', 'i', 'g', 'i', 't', '5']);
    assert("Digit6"@ =~= seq!['D', 'i', 'g', 'i', 't', '6']);
    assert("Digit7"@ =~= seq!['D', 'i', 'g', 'i', 't', '7']);
    assert("Digit8"@ =~= seq!['D', 'i', 'g', 'i', 't', '8']);
    assert("Digit9"@ =~= seq!['D', 'i', 'g', 'i', 't', '9']);
    assert("Digit0"@ =~= seq!['D', 'i', 'g', 'i', 't', '0']);
    assert("KeyA"@ =~= seq!['K', 'e', 'y', 'A']);
    assert("KeyB"@ =~= seq!['K', 'e', 'y', 'B']);
    assert("KeyC"@ =~= seq!['K', 'e', 'y', 'C']);
    assert("KeyD"@ =~= seq!['K', 'e', 'y', 'D']);
    assert("KeyE"@ =~= seq!['K', 'e', 'y', 'E']);
    assert("KeyF"@ =~= seq!['K', 'e', 'y', 'F']);
    assert("KeyG"@ =~= seq!['K', 'e', 'y', 'G']);
    assert("KeyH"@ =~= seq!['K', 'e', 'y', 'H']);
    assert("KeyI"@ =~= seq!['K', 'e', 'y', 'I']);
    assert("KeyJ"@ =~= seq!['K', 'e', 'y', 'J']);
    assert("KeyK"@ =~= seq!['K', 'e', 'y', 'K']);
    assert("KeyL"@ =~= seq!['K', 'e', 'y', 'L']);
    assert("KeyM"@ =~= seq!['K', 'e', 'y', 'M']);
    assert("KeyN"@ =~= seq!['K', 'e', 'y', 'N']);
    assert("KeyO"@ =~= seq!['K', 'e', 'y', 'O']);
    assert("KeyP"@ =~= seq!['K', 'e', 'y', 'P']);
    assert("KeyQ"@ =~= seq!['K', 'e', 'y', 'Q']);
    assert("KeyR"@ =~= seq!['K', 'e', 'y', 'R']);
    assert("KeyS"@ =~= seq!['K', 'e', 'y', 'S']);
    assert("KeyT"@ =~= seq!['K', 'e', 'y', 'T']);
    assert("KeyU"@ =~= seq!['K', 'e', 'y', 'U']);
    assert("KeyV"@ =~= seq!['K', 'e', 'y', 'V']);
    assert("KeyW"@ =~= seq!['K', 'e', 'y', 'W']);
    assert("KeyX"@ =~= seq!['K', 'e', 'y', 'X']);
    assert("KeyY"@ =~= seq!['K', 'e', 'y', 'Y']);
    assert("KeyZ"@ =~= seq!['K', 'e', 'y', 'Z']);
    assert("Escape"@ =~= seq!['E', 's', 'c', 'a', 'p', 'e']);
    assert("F1"@ =~= seq!['F', '1']);
    assert("F2"@ =~= seq!['F', '2']);
    assert("F3"@ =~= seq!['F', '3']);
}

/// Entries 41 to 50 of the web table, in the order the table tests them.
#[verifier::rlimit(100)]
#[verifier::spinoff_prover]
proof fn lemma_web_key_names_part5()
    ensures
        key_of_web_code("F4"@) == Key::F4,
        key_of_web_code("F5"@) == Key::F5,
        key_of_web_code("F6"@) == Key::F6,
        key_of_web_code("F7"@) == Key::F7,
        key_of_web_code("F8"@) == Key::F8,
        key_of_web_code("F9"@) == Key::F9,
        key_of_web_code("F10"@) == Key::F10,
        key_of_web_code("F11"@) == Key::F11,
        key_of_web_code("F12"@) == Key::F12,
        key_of_web_code("Insert"@) == Key::Insert,
{
    reveal_strlit("Digit1");
    reveal_strlit("Digit2");
    reveal_strlit("Digit3");
    reveal_strlit("Digit4");
    reveal_strlit("Digit5");
    reveal_strlit("Digit6");
    reveal_strlit("Digit7");
    reveal_strlit("Digit8");
    reveal_strlit("Digit9");
    reveal_strlit("Digit0");
    reveal_strlit("KeyA");
    reveal_strlit("KeyB");
    reveal_strlit("KeyC");
    reveal_strlit("KeyD");
    reveal_strlit("KeyE");
    reveal_strlit("KeyF");
    reveal_strlit("KeyG");
    reveal_strlit("KeyH");
    reveal_strlit("KeyI");
    reveal_strlit("KeyJ");
    reveal_strlit("KeyK");
    reveal_strlit("KeyL");
    reveal_strlit("KeyM");
    reveal_strlit("KeyN");
    reveal_strlit("KeyO");
    reveal_strlit("KeyP");
    reveal_strlit("KeyQ");
    reveal_strlit("KeyR");
    reveal_strlit("KeyS");
    reveal_strlit("KeyT");
    reveal_strlit("KeyU");
    reveal_strlit("KeyV");
    reveal_strlit("KeyW");
    reveal_strlit("KeyX");
    reveal_strlit("KeyY");
    reveal_strlit("KeyZ");
    reveal_strlit("Escape");
    reveal_strlit("F1");
    reveal_strlit("F2");
    reveal_strlit("F3");
    reveal_strlit("F4");
    reveal_strlit("F5");
    reveal_strlit("F6");
    reveal_strlit("F7");
    reveal_strlit("F8");
    reveal_strlit("F9");
    reveal_strlit("F10");
    reveal_strlit("F11");
    reveal_strlit("F12");
    reveal_strlit("Insert");
    assert("Digit1"@ =~= seq!['D', 'i', 'g', 'i', 't', '1']);
    assert("Digit2"@ =~= seq!['D', 'i', 'g', 'i', 't', '2']);
    assert("Digit3"@ =~= seq!['D', 'i', 'g', 'i', 't', '3']);
    assert("Digit4"@ =~= seq!['D', 'i', 'g', 'i', 't', '4']);
    assert("Digit5"@ =~= seq!['D', 'i', 'g', 'i', 't', '5']);
    assert("Digit6"@ =~= seq!['D', 'i', 'g', 'i', 't', '6']);
    assert("Digit7"@ =~= seq!['D', 'i', 'g', 'i', 't', '7']);
    assert("Digit8"@ =~= seq!['D', 'i', 'g', 'i', 't', '8']);
    assert("Digit9"@ =~= seq!['D', 'i', 'g', 'i', 't', '9']);
    assert("Digit0"@ =~= seq!['D', 'i', 'g', 'i', 't', '0']);
    assert("KeyA"@ =~= seq!['K', 'e', 'y', 'A']);
    assert("KeyB"@ =~= seq!['K', 'e', 'y', 'B']);
    assert("KeyC"@ =~= seq!['K', 'e', 'y', 'C']);
    assert("KeyD"@ =~= seq!['K', 'e', 'y', 'D']);
    assert("KeyE"@ =~= seq!['K', 'e', 'y', 'E']);
    assert("KeyF"@ =~= seq!['K', 'e', 'y', 'F']);
    assert("KeyG"@ =~= seq!['K', 'e', 'y', 'G']);
    assert("KeyH"@ =~= seq!['K', 'e', 'y', 'H']);
    assert("KeyI"@ =~= seq!['K', 'e', 'y', 'I']);
    assert("KeyJ"@ =~= seq!['K', 'e', 'y', 'J']);
    assert("KeyK"@ =~= seq!['K', 'e', 'y', 'K']);
    assert("KeyL"@ =~= seq!['K', 'e', 'y', 'L']);
    assert("KeyM"@ =~= seq!['K', 'e', 'y', 'M']);
    assert("KeyN"@ =~= seq!['K', 'e', 'y', 'N']);
    assert("KeyO"@ =~= seq!['K', 'e', 'y', 'O']);
    assert("KeyP"@ =~= seq!['K', 'e', 'y', 'P']);
    assert("KeyQ"@ =~= seq!['K', 'e', 'y', 'Q']);
    assert("KeyR"@ =~= seq!['K', 'e', 'y', 'R']);
    assert("KeyS"@ =~= seq!['K', 'e', 'y', 'S']);
    assert("KeyT"@ =~= seq!['K', 'e', 'y', 'T']);
    assert("KeyU"@ =~= seq!['K', 'e', 'y', 'U']);
    assert("KeyV"@ =~= seq!['K', 'e', 'y', 'V']);
    assert("KeyW"@ =~= seq!['K', 'e', 'y', 'W']);
    assert("KeyX"@ =~= seq!['K', 'e', 'y', 'X']);
    assert("KeyY"@ =~= seq!['K', 'e', 'y', 'Y']);
    assert("KeyZ"@ =~= seq!['K', 'e', 'y', 'Z']);
    assert("Escape"@ =~= seq!['E', 's', 'c', 'a', 'p', 'e']);
    assert("F1"@ =~= seq!['F', '1']);
    assert("F2"@ =~= seq!['F', '2']);
    assert("F3"@ =~= seq!['F', '3']);
    assert("F4"@ =~= seq!['F', '4']);
    assert("F5"@ =~= seq!['F', '5']);
    assert("F6"@ =~= seq!['F', '6']);
    assert("F7"@ =~= seq!['F', '7']);
    assert("F8"@ =~= seq!['F', '8']);
    assert("F9"@ =~= seq!['F', '9']);
    assert("F10"@ =~= seq!['F', '1', '0']);
    assert("F11"@ =~= seq!['F', '1', '1']);
    assert("F12"@ =~= seq!['F', '1', '2']);
    assert("Insert"@ =~= seq!['I', 'n', 's', 'e', 'r', 't']);
}

/// Entries 51 to 60 of the web table, in the order the table tests them.
#[verifier::rlimit(100)]
#[verifier::spinoff_prover]
proof fn lemma_web_key_names_part6()
    ensures
        key_of_web_code("Home"@) == Key::Home,
        key_of_web_code("Delete"@) == Key::Delete,
        key_of_web_code("End"@) == Key::End,
        key_of_web_code("PageDown"@) == Key::PageDown,
        key_of_web_code("PageUp"@) == Key::PageUp,
        key_of_web_code("ArrowLeft"@) == Key::Left,
        key_of_web_code("ArrowUp"@) == Key::Up,
        key_of_web_code("ArrowRight"@) == Key::Right,
        key_of_web_code("ArrowDown"@) == Key::Down,
        key_of_web_code("Backspace"@) == Key::Back,
{
    reveal_strlit("Digit1");
    reveal_strlit("Digit2");
    reveal_strlit("Digit3");
    reveal_strlit("Digit4");
    reveal_strlit("Digit5");
    reveal_strlit("Digit6");
    reveal_strlit("Digit7");
    reveal_strlit("Digit8");
    reveal_strlit("Digit9");
    reveal_strlit("Digit0");
    reveal_strlit("KeyA");
    reveal_strlit("KeyB");
    reveal_strlit("KeyC");
    reveal_strlit("KeyD");
    reveal_strlit("KeyE");
    reveal_strlit("KeyF");
    reveal_strlit("KeyG");
    reveal_strlit("KeyH");
    reveal_strlit("KeyI");
    reveal_strlit("KeyJ");
    reveal_strlit("KeyK");
    reveal_strlit("KeyL");
    reveal_strlit("KeyM");
    reveal_strlit("KeyN");
    reveal_strlit("KeyO");
    reveal_strlit("KeyP");
    reveal_strlit("KeyQ");
    reveal_strlit("KeyR");
    reveal_strlit("KeyS");
    reveal_strlit("KeyT");
    reveal_strlit("KeyU");
    reveal_strlit("KeyV");
    reveal_strlit("KeyW");
    reveal_strlit("KeyX");
    reveal_strlit("KeyY");
    reveal_strlit("KeyZ");
    reveal_strlit("Escape");
    reveal_strlit("F1");
    reveal_strlit("F2");
    reveal_strlit("F3");
    reveal_strlit("F4");
    reveal_strlit("F5");
    reveal_strlit("F6");
    reveal_strlit("F7");
    reveal_strlit("F8");
    reveal_strlit("F9");
    reveal_strlit("F10");
    reveal_strlit("F11");
    reveal_strlit("F12");
    reveal_strlit("Insert");
    reveal_strlit("Home");
    reveal_strlit("Delete");
    reveal_strlit("End");
    reveal_strlit("PageDown");
    reveal_strlit("PageUp");
    reveal_strlit("ArrowLeft");
    reveal_strlit("ArrowUp");
    reveal_strlit("ArrowRight");
    reveal_strlit("ArrowDown");
    reveal_strlit("Backspace");
    assert("Digit1"@ =~= seq!['D', 'i', 'g', 'i', 't', '1']);
    assert("Digit2"@ =~= seq!['D', 'i', 'g', 'i', 't', '2']);
    assert("Digit3"@ =~= seq!['D', 'i', 'g', 'i', 't', '3']);
    assert("Digit4"@ =~= seq!['D', 'i', 'g', 'i', 't', '4']);
    assert("Digit5"@ =~= seq!['D', 'i', 'g', 'i', 't', '5']);
    assert("Digit6"@ =~= seq!['D', 'i', 'g', 'i', 't', '6']);
    assert("Digit7"@ =~= seq!['D', 'i', 'g', 'i', 't', '7']);
    assert("Digit8"@ =~= seq!['D', 'i', 'g', 'i', 't', '8']);
    assert("Digit9"@ =~= seq!['D', 'i', 'g', 'i', 't', '9']);
    assert("Digit0"@ =~= seq!['D', 'i', 'g', 'i', 't', '0']);
    assert("KeyA"@ =~= seq!['K', 'e', 'y', 'A']);
    assert("KeyB"@ =~= seq!['K', 'e', 'y', 'B']);
    assert("KeyC"@ =~= seq!['K', 'e', 'y', 'C']);
    assert("KeyD"@ =~= seq!['K', 'e', 'y', 'D']);
    assert("KeyE"@ =~= seq!['K', 'e', 'y', 'E']);
    assert("KeyF"@ =~= seq!['K', 'e', 'y', 'F']);
    assert("KeyG"@ =~= seq!['K', 'e', 'y', 'G']);
    assert("KeyH"@ =~= seq!['K', 'e', 'y', 'H']);
    assert("KeyI"@ =~= seq!['K', 'e', 'y', 'I']);
    assert("KeyJ"@ =~= seq!['K', 'e', 'y', 'J']);
    assert("KeyK"@ =~= seq!['K', 'e', 'y', 'K']);
    assert("KeyL"@ =~= seq!['K', 'e', 'y', 'L']);
    assert("KeyM"@ =~= seq!['K', 'e', 'y', 'M']);
    assert("KeyN"@ =~= seq!['K', 'e', 'y', 'N']);
    assert("KeyO"@ =~= seq!['K', 'e', 'y', 'O']);
    assert("KeyP"@ =~= seq!['K', 'e', 'y', 'P']);
    assert("KeyQ"@ =~= seq!['K', 'e', 'y', 'Q']);
    assert("KeyR"@ =~= seq!['K', 'e', 'y', 'R']);
    assert("KeyS"@ =~= seq!['K', 'e', 'y', 'S']);
    assert("KeyT"@ =~= seq!['K', 'e', 'y', 'T']);
    assert("KeyU"@ =~= seq!['K', 'e', 'y', 'U']);
    assert("KeyV"@ =~= seq!['K', 'e', 'y', 'V']);
    assert("KeyW"@ =~= seq!['K', 'e', 'y', 'W']);
    assert("KeyX"@ =~= seq!['K', 'e', 'y', 'X']);
    assert("KeyY"@ =~= seq!['K', 'e', 'y', 'Y']);
    assert("KeyZ"@ =~= seq!['K', 'e', 'y', 'Z']);
    assert("Escape"@ =~= seq!['E', 's', 'c', 'a', 'p', 'e']);
    assert("F1"@ =~= seq!['F', '1']);
    assert("F2"@ =~= seq!['F', '2']);
    assert("F3"@ =~= seq!['F', '3']);
    assert("F4"@ =~= seq!['F', '4']);
    assert("F5"@ =~= seq!['F', '5']);
    assert("F6"@ =~= seq!['F', '6']);
    assert("F7"@ =~= seq!['F', '7']);
    assert("F8"@ =~= seq!['F', '8']);
    assert("F9"@ =~= seq!['F', '9']);
    assert("F10"@ =~= seq!['F', '1', '0']);
    assert("F11"@ =~= seq!['F', '1', '1']);
    assert("F12"@ =~= seq!['F', '1', '2']);
    assert("Insert"@ =~= seq!['I', 'n', 's', 'e', 'r', 't']);
    assert("Home"@ =~= seq!['H', 'o', 'm', 'e']);
    assert("Delete"@ =~= seq!['D', 'e', 'l', 'e', 't', 'e']);
    assert("End"@ =~= seq!['E', 'n', 'd']);
    assert("PageDown"@ =~= seq!['P', 'a', 'g', 'e', 'D', 'o', 'w', 'n']);
    assert("PageUp"@ =~= seq!['P', 'a', 'g', 'e', 'U', 'p']);
    assert("ArrowLeft"@ =~= seq!['A', 'r', 'r', 'o', 'w', 'L', 'e', 'f', 't']);
    assert("ArrowUp"@ =~= seq!['A', 'r', 'r', 'o', 'w', 'U', 'p']);
    assert("ArrowRight"@ =~= seq!['A', 'r', 'r', 'o', 'w', 'R', 'i', 'g', 'h', 't']);
    assert("ArrowDown"@ =~= seq!['A', 'r', 'r', 'o', 'w', 'D', 'o', 'w', 'n']);
    assert("Backspace"@ =~= seq!['B', 'a', 'c', 'k', 's', 'p', 'a', 'c', 'e']);
}

/// Entries 61 to 70 of the web table, in the order the table tests them.
#[verifier::rlimit(100)]
#[verifier::spinoff_prover]
proof fn lemma_web_key_names_part7()
    ensures
        key_of_web_code("Enter"@) == Key::Return,
        key_of_web_code("Space"@) == Key::Space,
        key_of_web_code("NumLock"@) == Key::Numlock,
        key_of_web_code("Numpad0"@) == Key::Numpad0,
        key_of_web_code("Numpad1"@) == Key::Numpad1,
        key_of_web_code("Numpad2"@) == Key::Numpad2,
        key_of_web_code("Numpad3"@) == Key::Numpad3,
        key_of_web_code("Numpad4"@) == Key::Numpad4,
        key_of_web_code("Numpad5"@) == Key::Numpad5,
        key_of_web_code("Numpad6"@) == Key::Numpad6,
{
    reveal_strlit("Digit1");
    reveal_strlit("Digit2");
    reveal_strlit("Digit3");
    reveal_strlit("Digit4");
    reveal_strlit("Digit5");
    reveal_strlit("Digit6");
    reveal_strlit("Digit7");
    reveal_strlit("Digit8");
    reveal_strlit("Digit9");
    reveal_strlit("Digit0");
    reveal_strlit("KeyA");
    reveal_strlit("KeyB");
    reveal_strlit("KeyC");
    reveal_strlit("KeyD");
    reveal_strlit("KeyE");
    reveal_strlit("KeyF");
    reveal_strlit("KeyG");
    reveal_strlit("KeyH");
    reveal_strlit("KeyI");
    reveal_strlit("KeyJ");
    reveal_strlit("KeyK");
    reveal_strlit("KeyL");
    reveal_strlit("KeyM");
    reveal_strlit("KeyN");
    reveal_strlit("KeyO");
    reveal_strlit("KeyP");
    reveal_strlit("KeyQ");
    reveal_strlit("KeyR");
    reveal_strlit("KeyS");
    reveal_strlit("KeyT");
    reveal_strlit("KeyU");
    reveal_strlit("KeyV");
    reveal_strlit("KeyW");
    reveal_strlit("KeyX");
    reveal_strlit("KeyY");
    reveal_strlit("KeyZ");
    reveal_strlit("Escape");
    reveal_strlit("F1");
    reveal_strlit("F2");
    reveal_strlit("F3");
    reveal_strlit("F4");
    reveal_strlit("F5");
    reveal_strlit("F6");
    reveal_strlit("F7");
    reveal_strlit("F8");
    reveal_strlit("F9");
    reveal_strlit("F10");
    reveal_strlit("F11");
    reveal_strlit("F12");
    reveal_strlit("Insert");
    reveal_strlit("Home");
    reveal_strlit("Delete");
    reveal_strlit("End");
    reveal_strlit("PageDown");
    reveal_strlit("PageUp");
    reveal_strlit("ArrowLeft");
    reveal_strlit("ArrowUp");
    reveal_strlit("ArrowRight");
    reveal_strlit("ArrowDown");
    reveal_strlit("Backspace");
    reveal_strlit("Enter");
    reveal_strlit("Space");
    reveal_strlit("NumLock");
    reveal_strlit("Numpad0");
    reveal_strlit("Numpad1");
    reveal_strlit("Numpad2");
    reveal_strlit("Numpad3");
    reveal_strlit("Numpad4");
    reveal_strlit("Numpad5");
    reveal_strlit("Numpad6");
    assert("Digit1"@ =~= seq!['D', 'i', 'g', 'i', 't', '1']);
    assert("Digit2"@ =~= seq!['D', 'i', 'g', 'i', 't', '2']);
    assert("Digit3"@ =~= seq!['D', 'i', 'g', 'i', 't', '3']);
    assert("Digit4"@ =~= seq!['D', 'i', 'g', 'i', 't', '4']);
    assert("Digit5"@ =~= seq!['D', 'i', 'g', 'i', 't', '5']);
    assert("Digit6"@ =~= seq!['D', 'i', 'g', 'i', 't', '6']);
    assert("Digit7"@ =~= seq!['D', 'i', 'g', 'i', 't', '7']);
    assert("Digit8"@ =~= seq!['D', 'i', 'g', 'i', 't', '8']);
    assert("Digit9"@ =~= seq!['D', 'i', 'g', 'i', 't', '9']);
    assert("Digit0"@ =~= seq!['D', 'i', 'g', 'i', 't', '0']);
    assert("KeyA"@ =~= seq!['K', 'e', 'y', 'A']);
    assert("KeyB"@ =~= seq!['K', 'e', 'y', 'B']);
    assert("KeyC"@ =~= seq!['K', 'e', 'y', 'C']);
    assert("KeyD"@ =~= seq!['K', 'e', 'y', 'D']);
    assert("KeyE"@ =~= seq!['K', 'e', 'y', 'E']);
    assert("KeyF"@ =~= seq!['K', 'e', 'y', 'F']);
    assert("KeyG"@ =~= seq!['K', 'e', 'y', 'G']);
    assert("KeyH"@ =~= seq!['K', 'e', 'y', 'H']);
    assert("KeyI"@ =~= seq!['K', 'e', 'y', 'I']);
    assert("KeyJ"@ =~= seq!['K', 'e', 'y', 'J']);
    assert("KeyK"@ =~= seq!['K', 'e', 'y', 'K']);
    assert("KeyL"@ =~= seq!['K', 'e', 'y', 'L']);
    assert("KeyM"@ =~= seq!['K', 'e', 'y', 'M']);
    assert("KeyN"@ =~= seq!['K', 'e', 'y', 'N']);
    assert("KeyO"@ =~= seq!['K', 'e', 'y', 'O']);
    assert("KeyP"@ =~= seq!['K', 'e', 'y', 'P']);
    assert("KeyQ"@ =~= seq!['K', 'e', 'y', 'Q']);
    assert("KeyR"@ =~= seq!['K', 'e', 'y', 'R']);
    assert("KeyS"@ =~= seq!['K', 'e', 'y', 'S']);
    assert("KeyT"@ =~= seq!['K', 'e', 'y', 'T']);
    assert("KeyU"@ =~= seq!['K', 'e', 'y', 'U']);
    assert("KeyV"@ =~= seq!['K', 'e', 'y', 'V']);
    assert("KeyW"@ =~= seq!['K', 'e', 'y', 'W']);
    assert("KeyX"@ =~= seq!['K', 'e', 'y', 'X']);
    assert("KeyY"@ =~= seq!['K', 'e', 'y', 'Y']);
    assert("KeyZ"@ =~= seq!['K', 'e', 'y', 'Z']);
    assert("Escape"@ =~= seq!['E', 's', 'c', 'a', 'p', 'e']);
    assert("F1"@ =~= seq!['F', '1']);
    assert("F2"@ =~= seq!['F', '2']);
    assert("F3"@ =~= seq!['F', '3']);
    assert("F4"@ =~= seq!['F', '4']);
    assert("F5"@ =~= seq!['F', '5']);
    assert("F6"@ =~= seq!['F', '6']);
    assert("F7"@ =~= seq!['F', '7']);
    assert("F8"@ =~= seq!['F', '8']);
    assert("F9"@ =~= seq!['F', '9']);
    assert("F10"@ =~= seq!['F', '1', '0']);
    assert("F11"@ =~= seq!['F', '1', '1']);
    assert("F12"@ =~= seq!['F', '1', '2']);
    assert("Insert"@ =~= seq!['I', 'n', 's', 'e', 'r', 't']);
    assert("Home"@ =~= seq!['H', 'o', 'm', 'e']);
    assert("Delete"@ =~= seq!['D', 'e', 'l', 'e', 't', 'e']);
    assert("End"@ =~= seq!['E', 'n', 'd']);
    assert("PageDown"@ =~= seq!['P', 'a', 'g', 'e', 'D', 'o', 'w', 'n']);
    assert("PageUp"@ =~= seq!['P', 'a', 'g', 'e', 'U', 'p']);
    assert("ArrowLeft"@ =~= seq!['A', 'r', 'r', 'o', 'w', 'L', 'e', 'f', 't']);
    assert("ArrowUp"@ =~= seq!['A', 'r', 'r', 'o', 'w', 'U', 'p']);
    assert("ArrowRight"@ =~= seq!['A', 'r', 'r', 'o', 'w', 'R', 'i', 'g', 'h', 't']);
    assert("ArrowDown"@ =~= seq!['A', 'r', 'r', 'o', 'w', 'D', 'o', 'w', 'n']);
    assert("Backspace"@ =~= seq!['B', 'a', 'c', 'k', 's', 'p', 'a', 'c', 'e']);
    assert("Enter"@ =~= seq!['E', 'n', 't', 'e', 'r']);
    assert("Space"@ =~= seq!['S', 'p', 'a', 'c', 'e']);
    assert("NumLock"@ =~= seq!['N', 'u', 'm', 'L', 'o', 'c', 'k']);
    assert("Numpad0"@ =~= seq!['N', 'u', 'm', 'p', 'a', 'd', '0']);
    assert("Numpad1"@ =~= seq!['N', 'u', 'm', 'p', 'a', 'd', '1']);
    assert("Numpad2"@ =~= seq!['N', 'u', 'm', 'p', 'a', 'd', '2']);
    assert("Numpad3"@ =~= seq!['N', 'u', 'm', 'p', 'a', 'd', '3']);
    assert("Numpad4"@ =~= seq!['N', 'u', 'm', 'p', 'a', 'd', '4']);
    assert("Numpad5"@ =~= seq!['N', 'u', 'm', 'p', 'a', 'd', '5']);
    assert("Numpad6"@ =~= seq!['N', 'u', 'm', 'p', 'a', 'd', '6']);
}

/// Entries 71 to 80 of the web table, in the order the table tests them.
#[verifier::rlimit(100)]
#[verifier::spinoff_prover]
proof fn lemma_web_key_names_part8()
    ensures
        key_of_web_code("Numpad7"@) == Key::Numpad7,
        key_of_web_code("Numpad8"@) == Key::Numpad8,
        key_of_web_code("Numpad9"@) == Key::Numpad9,
        key_of_web_code("NumpadAdd"@) == Key::Add,
        key_of_web_code("NumpadSubtract"@) == Key::Subtract,
        key_of_web_code("NumpadMultiply"@) == Key::Multiply,
        key_of_web_code("NumpadDivide"@) == Key::Divide,
        key_of_web_code("NumpadDecimal"@) == Key::Decimal,
        key_of_web_code("NumpadEnter"@) == Key::NumpadEnter,
        key_of_web_code("Quote"@) == Key::Apostrophe,
{
    reveal_strlit("Digit1");
    reveal_strlit("Digit2");
    reveal_strlit("Digit3");
    reveal_strlit("Digit4");
    reveal_strlit("Digit5");
    reveal_strlit("Digit6");
    reveal_strlit("Digit7");
    reveal_strlit("Digit8");
    reveal_strlit("Digit9");
    reveal_strlit("Digit0");
    reveal_strlit("KeyA");
    reveal_strlit("KeyB");
    reveal_strlit("KeyC");
    reveal_strlit("KeyD");
    reveal_strlit("KeyE");
    reveal_strlit("KeyF");
    reveal_strlit("KeyG");
    reveal_strlit("KeyH");
    reveal_strlit("KeyI");
    reveal_strlit("KeyJ");
    reveal_strlit("KeyK");
    reveal_strlit("KeyL");
    reveal_strlit("KeyM");
    reveal_strlit("KeyN");
    reveal_strlit("KeyO");
    reveal_strlit("KeyP");
    reveal_strlit("KeyQ");
    reveal_strlit("KeyR");
    reveal_strlit("KeyS");
    reveal_strlit("KeyT");
    reveal_strlit("KeyU");
    reveal_strlit("KeyV");
    reveal_strlit("KeyW");
    reveal_strlit("KeyX");
    reveal_strlit("KeyY");
    reveal_strlit("KeyZ");
    reveal_strlit("Escape");
    reveal_strlit("F1");
    reveal_strlit("F2");
    reveal_strlit("F3");
    reveal_strlit("F4");
    reveal_strlit("F5");
    reveal_strlit("F6");
    reveal_strlit("F7");
    reveal_strlit("F8");
    reveal_strlit("F9");
    reveal_strlit("F10");
    reveal_strlit("F11");
    reveal_strlit("F12");
    reveal_strlit("Insert");
    reveal_strlit("Home");
    reveal_strlit("Delete");
    reveal_strlit("End");
    reveal_strlit("PageDown");
    reveal_strlit("PageUp");
    reveal_strlit("ArrowLeft");
    reveal_strlit("ArrowUp");
    reveal_strlit("ArrowRight");
    reveal_strlit("ArrowDown");
    reveal_strlit("Backspace");
    reveal_strlit("Enter");
    reveal_strlit("Space");
    reveal_strlit("NumLock");
    reveal_strlit("Numpad0");
    reveal_strlit("Numpad1");
    reveal_strlit("Numpad2");
    reveal_strlit("Numpad3");
    reveal_strlit("Numpad4");
    reveal_strlit("Numpad5");
    reveal_strlit("Numpad6");
    reveal_strlit("Numpad7");
    reveal_strlit("Numpad8");
    reveal_strlit("Numpad9");
    reveal_strlit("NumpadAdd");
    reveal_strlit("NumpadSubtract");
    reveal_strlit("NumpadMultiply");
    reveal_strlit("NumpadDivide");
    reveal_strlit("NumpadDecimal");
    reveal_strlit("NumpadEnter");
    reveal_strlit("Quote");
    assert("Digit1"@ =~= seq!['D', 'i', 'g', 'i', 't', '1']);
    assert("Digit2"@ =~= seq!['D', 'i', 'g', 'i', 't', '2']);
    assert("Digit3"@ =~= seq!['D', 'i', 'g', 'i', 't', '3']);
    assert("Digit4"@ =~= seq!['D', 'i', 'g', 'i', 't', '4']);
    assert("Digit5"@ =~= seq!['D', 'i', 'g', 'i', 't', '5']);
    assert("Digit6"@ =~= seq!['D', 'i', 'g', 'i', 't', '6']);
    assert("Digit7"@ =~= seq!['D', 'i', 'g', 'i', 't', '7']);
    assert("Digit8"@ =~= seq!['D', 'i', 'g', 'i', 't', '8']);
    assert("Digit9"@ =~= seq!['D', 'i', 'g', 'i', 't', '9']);
    assert("Digit0"@ =~= seq!['D', 'i', 'g', 'i', 't', '0']);
    assert("KeyA"@ =~= seq!['K', 'e', 'y', 'A']);
    assert("KeyB"@ =~= seq!['K', 'e', 'y', 'B']);
    assert("KeyC"@ =~= seq!['K', 'e', 'y', 'C']);
    assert("KeyD"@ =~= seq!['K', 'e', 'y', 'D']);
    assert("KeyE"@ =~= seq!['K', 'e', 'y', 'E']);
    assert("KeyF"@ =~= seq!['K', 'e', 'y', 'F']);
    assert("KeyG"@ =~= seq!['K', 'e', 'y', 'G']);
    assert("KeyH"@ =~= seq!['K', 'e', 'y', 'H']);
    assert("KeyI"@ =~= seq!['K', 'e', 'y', 'I']);
    assert("KeyJ"@ =~= seq!['K', 'e', 'y', 'J']);
    assert("KeyK"@ =~= seq!['K', 'e', 'y', 'K']);
    assert("KeyL"@ =~= seq!['K', 'e', 'y', 'L']);
    assert("KeyM"@ =~= seq!['K', 'e', 'y', 'M']);
    assert("KeyN"@ =~= seq!['K', 'e', 'y', 'N']);
    assert("KeyO"@ =~= seq!['K', 'e', 'y', 'O']);
    assert("KeyP"@ =~= seq!['K', 'e', 'y', 'P']);
    assert("KeyQ"@ =~= seq!['K', 'e', 'y', 'Q']);
    assert("KeyR"@ =~= seq!['K', 'e', 'y', 'R']);
    assert("KeyS"@ =~= seq!['K', 'e', 'y', 'S']);
    assert("KeyT"@ =~= seq!['K', 'e', 'y', 'T']);
    assert("KeyU"@ =~= seq!['K', 'e', 'y', 'U']);
    assert("KeyV"@ =~= seq!['K', 'e', 'y', 'V']);
    assert("KeyW"@ =~= seq!['K', 'e', 'y', 'W']);
    assert("KeyX"@ =~= seq!['K', 'e', 'y', 'X']);
    assert("KeyY"@ =~= seq!['K', 'e', 'y', 'Y']);
    assert("KeyZ"@ =~= seq!['K', 'e', 'y', 'Z']);
    assert("Escape"@ =~= seq!['E', 's', 'c', 'a', 'p', 'e']);
    assert("F1"@ =~= seq!['F', '1']);
    assert("F2"@ =~= seq!['F', '2']);
    assert("F3"@ =~= seq!['F', '3']);
    assert("F4"@ =~= seq!['F', '4']);
    assert("F5"@ =~= seq!['F', '5']);
    assert("F6"@ =~= seq!['F', '6']);
    assert("F7"@ =~= seq!['F', '7']);
    assert("F8"@ =~= seq!['F', '8']);
    assert("F9"@ =~= seq!['F', '9']);
    assert("F10"@ =~= seq!['F', '1', '0']);
    assert("F11"@ =~= seq!['F', '1', '1']);
    assert("F12"@ =~= seq!['F', '1', '2']);
    assert("Insert"@ =~= seq!['I', 'n', 's', 'e', 'r', 't']);
    assert("Home"@ =~= seq!['H', 'o', 'm', 'e']);
    assert("Delete"@ =~= seq!['D', 'e', 'l', 'e', 't', 'e']);
    assert("End"@ =~= seq!['E', 'n', 'd']);
    assert("PageDown"@ =~= seq!['P', 'a', 'g', 'e', 'D', 'o', 'w', 'n']);
    assert("PageUp"@ =~= seq!['P', 'a', 'g', 'e', 'U', 'p']);
    assert("ArrowLeft"@ =~= seq!['A', 'r', 'r', 'o', 'w', 'L', 'e', 'f', 't']);
    assert("ArrowUp"@ =~= seq!['A', 'r', 'r', 'o', 'w', 'U', 'p']);
    assert("ArrowRight"@ =~= seq!['A', 'r', 'r', 'o', 'w', 'R', 'i', 'g', 'h', 't']);
    assert("ArrowDown"@ =~= seq!['A', 'r', 'r', 'o', 'w', 'D', 'o', 'w', 'n']);
    assert("Backspace"@ =~= seq!['B', 'a', 'c', 'k', 's', 'p', 'a', 'c', 'e']);
    assert("Enter"@ =~= seq!['E', 'n', 't', 'e', 'r']);
    assert("Space"@ =~= seq!['S', 'p', 'a', 'c', 'e']);
    assert("NumLock"@ =~= seq!['N', 'u', 'm', 'L', 'o', 'c', 'k']);
    assert("Numpad0"@ =~= seq!['N', 'u', 'm', 'p', 'a', 'd', '0']);
    assert("Numpad1"@ =~= seq!['N', 'u', 'm', 'p', 'a', 'd', '1']);
    assert("Numpad2"@ =~= seq!['N', 'u', 'm', 'p', 'a', 'd', '2']);
    assert("Numpad3"@ =~= seq!['N', 'u', 'm', 'p', 'a', 'd', '3']);
    assert("Numpad4"@ =~= seq!['N', 'u', 'm', 'p', 'a', 'd', '4']);
    assert("Numpad5"@ =~= seq!['N', 'u', 'm', 'p', 'a', 'd', '5']);
    assert("Numpad6"@ =~= seq!['N', 'u', 'm', 'p', 'a', 'd', '6']);
    assert("Numpad7"@ =~= seq!['N', 'u', 'm', 'p', 'a', 'd', '7']);
    assert("Numpad8"@ =~= seq!['N', 'u', 'm', 'p', 'a', 'd', '8']);
    assert("Numpad9"@ =~= seq!['N', 'u', 'm', 'p', 'a', 'd', '9']);
    assert("NumpadAdd"@ =~= seq!['N', 'u', 'm', 'p', 'a', 'd', 'A', 'd', 'd']);
    assert("NumpadSubtract"@ =~= seq!['N', 'u', 'm', 'p', 'a', 'd', 'S', 'u', 'b', 't', 'r', 'a', 'c', 't']);
    assert("NumpadMultiply"@ =~= seq!['N', 'u', 'm', 'p', 'a', 'd', 'M', 'u', 'l', 't', 'i', 'p', 'l', 'y']);
    assert("NumpadDivide"@ =~= seq!['N', 'u', 'm', 'p', 'a', 'd', 'D', 'i', 'v', 'i', 'd', 'e']);
    assert("NumpadDecimal"@ =~= seq!['N', 'u', 'm', 'p', 'a', 'd', 'D', 'e', 'c', 'i', 'm', 'a', 'l']);
    assert("NumpadEnter"@ =~= seq!['N', 'u', 'm', 'p', 'a', 'd', 'E', 'n', 't', 'e', 'r']);
    assert("Quote"@ =~= seq!['Q', 'u', 'o', 't', 'e']);
}

/// Entries 81 to 90 of the web table, in the order the table tests them.
#[verifier::rlimit(100)]
#[verifier::spinoff_prover]
proof fn lemma_web_key_names_part9()
    ensures
        key_of_web_code("Backslash"@) == Key::Backslash,
        key_of_web_code("Comma"@) == Key::Comma,
        key_of_web_code("Equal"@) == Key::Equals,
        key_of_web_code("Backquote"@) == Key::Grave,
        key_of_web_code("AltLeft"@) == Key::LAlt,
        key_of_web_code("BracketLeft"@) == Key::LBracket,
        key_of_web_code("ControlLeft"@) == Key::LControl,
        key_of_web_code("ShiftLeft"@) == Key::LShift,
        key_of_web_code("MetaLeft"@) == Key::LWin,
        key_of_web_code("Minus"@) == Key::Minus,
{
    reveal_strlit("Digit1");
    reveal_strlit("Digit2");
    reveal_strlit("Digit3");
    reveal_strlit("Digit4");
    reveal_strlit("Digit5");
    reveal_strlit("Digit6");
    reveal_strlit("Digit7");
    reveal_strlit("Digit8");
    reveal_strlit("Digit9");
    reveal_strlit("Digit0");
    reveal_strlit("KeyA");
    reveal_strlit("KeyB");
    reveal_strlit("KeyC");
    reveal_strlit("KeyD");
    reveal_strlit("KeyE");
    reveal_strlit("KeyF");
    reveal_strlit("KeyG");
    reveal_strlit("KeyH");
    reveal_strlit("KeyI");
    reveal_strlit("KeyJ");
    reveal_strlit("KeyK");
    reveal_strlit("KeyL");
    reveal_strlit("KeyM");
    reveal_strlit("KeyN");
    reveal_strlit("KeyO");
    reveal_strlit("KeyP");
    reveal_strlit("KeyQ");
    reveal_strlit("KeyR");
    reveal_strlit("KeyS");
    reveal_strlit("KeyT");
    reveal_strlit("KeyU");
    reveal_strlit("KeyV");
    reveal_strlit("KeyW");
    reveal_strlit("KeyX");
    reveal_strlit("KeyY");
    reveal_strlit("KeyZ");
    reveal_strlit("Escape");
    reveal_strlit("F1");
    reveal_strlit("F2");
    reveal_strlit("F3");
    reveal_strlit("F4");
    reveal_strlit("F5");
    reveal_strlit("F6");
    reveal_strlit("F7");
    reveal_strlit("F8");
    reveal_strlit("F9");
    reveal_strlit("F10");
    reveal_strlit("F11");
    reveal_strlit("F12");
    reveal_strlit("Insert");
    reveal_strlit("Home");
    reveal_strlit("Delete");
    reveal_strlit("End");
    reveal_strlit("PageDown");
    reveal_strlit("PageUp");
    reveal_strlit("ArrowLeft");
    reveal_strlit("ArrowUp");
    reveal_strlit("ArrowRight");
    reveal_strlit("ArrowDown");
    reveal_strlit("Backspace");
    reveal_strlit("Enter");
    reveal_strlit("Space");
    reveal_strlit("NumLock");
    reveal_strlit("Numpad0");
    reveal_strlit("Numpad1");
    reveal_strlit("Numpad2");
    reveal_strlit("Numpad3");
    reveal_strlit("Numpad4");
    reveal_strlit("Numpad5");
    reveal_strlit("Numpad6");
    reveal_strlit("Numpad7");
    reveal_strlit("Numpad8");
    reveal_strlit("Numpad9");
    reveal_strlit("NumpadAdd");
    reveal_strlit("NumpadSubtract");
    reveal_strlit("NumpadMultiply");
    reveal_strlit("NumpadDivide");
    reveal_strlit("NumpadDecimal");
    reveal_strlit("NumpadEnter");
    reveal_strlit("Quote");
    reveal_strlit("Backslash");
    reveal_strlit("Comma");
    reveal_strlit("Equal");
    reveal_strlit("Backquote");
    reveal_strlit("AltLeft");
    reveal_strlit("BracketLeft");
    reveal_strlit("ControlLeft");
    reveal_strlit("ShiftLeft");
    reveal_strlit("MetaLeft");
    reveal_strlit("Minus");
    assert("Digit1"@ =~= seq!['D', 'i', 'g', 'i', 't', '1']);
    assert("Digit2"@ =~= seq!['D', 'i', 'g', 'i', 't', '2']);
    assert("Digit3"@ =~= seq!['D', 'i', 'g', 'i', 't', '3']);
    assert("Digit4"@ =~= seq!['D', 'i', 'g', 'i', 't', '4']);
    assert("Digit5"@ =~= seq!['D', 'i', 'g', 'i', 't', '5']);
    assert("Digit6"@ =~= seq!['D', 'i', 'g', 'i', 't', '6']);
    assert("Digit7"@ =~= seq!['D', 'i', 'g', 'i', 't', '7']);
    assert("Digit8"@ =~= seq!['D', 'i', 'g', 'i', 't', '8']);
    assert("Digit9"@ =~= seq!['D', 'i', 'g', 'i', 't', '9']);
    assert("Digit0"@ =~= seq!['D', 'i', 'g', 'i', 't', '0']);
    assert("KeyA"@ =~= seq!['K', 'e', 'y', 'A']);
    assert("KeyB"@ =~= seq!['K', 'e', 'y', 'B']);
    assert("KeyC"@ =~= seq!['K', 'e', 'y', 'C']);
    assert("KeyD"@ =~= seq!['K', 'e', 'y', 'D']);
    assert("KeyE"@ =~= seq!['K', 'e', 'y', 'E']);
    assert("KeyF"@ =~= seq!['K', 'e', 'y', 'F']);
    assert("KeyG"@ =~= seq!['K', 'e', 'y', 'G']);
    assert("KeyH"@ =~= seq!['K', 'e', 'y', 'H']);
    assert("KeyI"@ =~= seq!['K', 'e', 'y', 'I']);
    assert("KeyJ"@ =~= seq!['K', 'e', 'y', 'J']);
    assert("KeyK"@ =~= seq!['K', 'e', 'y', 'K']);
    assert("KeyL"@ =~= seq!['K', 'e', 'y', 'L']);
    assert("KeyM"@ =~= seq!['K', 'e', 'y', 'M']);
    assert("KeyN"@ =~= seq!['K', 'e', 'y', 'N']);
    assert("KeyO"@ =~= seq!['K', 'e', 'y', 'O']);
    assert("KeyP"@ =~= seq!['K', 'e', 'y', 'P']);
    assert("KeyQ"@ =~= seq!['K', 'e', 'y', 'Q']);
    assert("KeyR"@ =~= seq!['K', 'e', 'y', 'R']);
    assert("KeyS"@ =~= seq!['K', 'e', 'y', 'S']);
    assert("KeyT"@ =~= seq!['K', 'e', 'y', 'T']);
    assert("KeyU"@ =~= seq!['K', 'e', 'y', 'U']);
    assert("KeyV"@ =~= seq!['K', 'e', 'y', 'V']);
    assert("KeyW"@ =~= seq!['K', 'e', 'y', 'W']);
    assert("KeyX"@ =~= seq!['K', 'e', 'y', 'X']);
    assert("KeyY"@ =~= seq!['K', 'e', 'y', 'Y']);
    assert("KeyZ"@ =~= seq!['K', 'e', 'y', 'Z']);
    assert("Escape"@ =~= seq!['E', 's', 'c', 'a', 'p', 'e']);
    assert("F1"@ =~= seq!['F', '1']);
    assert("F2"@ =~= seq!['F', '2']);
    assert("F3"@ =~= seq!['F', '3']);
    assert("F4"@ =~= seq!['F', '4']);
    assert("F5"@ =~= seq!['F', '5']);
    assert("F6"@ =~= seq!['F', '6']);
    assert("F7"@ =~= seq!['F', '7']);
    assert("F8"@ =~= seq!['F', '8']);
    assert("F9"@ =~= seq!['F', '9']);
    assert("F10"@ =~= seq!['F', '1', '0']);
    assert("F11"@ =~= seq!['F', '1', '1']);
    assert("F12"@ =~= seq!['F', '1', '2']);
    assert("Insert"@ =~= seq!['I', 'n', 's', 'e', 'r', 't']);
    assert("Home"@ =~= seq!['H', 'o', 'm', 'e']);
    assert("Delete"@ =~= seq!['D', 'e', 'l', 'e', 't', 'e']);
    assert("End"@ =~= seq!['E', 'n', 'd']);
    assert("PageDown"@ =~= seq!['P', 'a', 'g', 'e', 'D', 'o', 'w', 'n']);
    assert("PageUp"@ =~= seq!['P', 'a', 'g', 'e', 'U', 'p']);
    assert("ArrowLeft"@ =~= seq!['A', 'r', 'r', 'o', 'w', 'L', 'e', 'f', 't']);
    assert("ArrowUp"@ =~= seq!['A', 'r', 'r', 'o', 'w', 'U', 'p']);
    assert("ArrowRight"@ =~= seq!['A', 'r', 'r', 'o', 'w', 'R', 'i', 'g', 'h', 't']);
    assert("ArrowDown"@ =~= seq!['A', 'r', 'r', 'o', 'w', 'D', 'o', 'w', 'n']);
    assert("Backspace"@ =~= seq!['B', 'a', 'c', 'k', 's', 'p', 'a', 'c', 'e']);
    assert("Enter"@ =~= seq!['E', 'n', 't', 'e', 'r']);
    assert("Space"@ =~= seq!['S', 'p', 'a', 'c', 'e']);
    assert("NumLock"@ =~= seq!['N', 'u', 'm', 'L', 'o', 'c', 'k']);
    assert("Numpad0"@ =~= seq!['N', 'u', 'm', 'p', 'a', 'd', '0']);
    assert("Numpad1"@ =~= seq!['N', 'u', 'm', 'p', 'a', 'd', '1']);
    assert("Numpad2"@ =~= seq!['N', 'u', 'm', 'p', 'a', 'd', '2']);
    assert("Numpad3"@ =~= seq!['N', 'u', 'm', 'p', 'a', 'd', '3']);
    assert("Numpad4"@ =~= seq!['N', 'u', 'm', 'p', 'a', 'd', '4']);
    assert("Numpad5"@ =~= seq!['N', 'u', 'm', 'p', 'a', 'd', '5']);
    assert("Numpad6"@ =~= seq!['N', 'u', 'm', 'p', 'a', 'd', '6']);
    assert("Numpad7"@ =~= seq!['N', 'u', 'm', 'p', 'a', 'd', '7']);
    assert("Numpad8"@ =~= seq!['N', 'u', 'm', 'p', 'a', 'd', '8']);
    assert("Numpad9"@ =~= seq!['N', 'u', 'm', 'p', 'a', 'd', '9']);
    assert("NumpadAdd"@ =~= seq!['N', 'u', 'm', 'p', 'a', 'd', 'A', 'd', 'd']);
    assert("NumpadSubtract"@ =~= seq!['N', 'u', 'm', 'p', 'a', 'd', 'S', 'u', 'b', 't', 'r', 'a', 'c', 't']);
    assert("NumpadMultiply"@ =~= seq!['N', 'u', 'm', 'p', 'a', 'd', 'M', 'u', 'l', 't', 'i', 'p', 'l', 'y']);
    assert("NumpadDivide"@ =~= seq!['N', 'u', 'm', 'p', 'a', 'd', 'D', 'i', 'v', 'i', 'd', 'e']);
    assert("NumpadDecimal"@ =~= seq!['N', 'u', 'm', 'p', 'a', 'd', 'D', 'e', 'c', 'i', 'm', 'a', 'l']);
    assert("NumpadEnter"@ =~= seq!['N', 'u', 'm', 'p', 'a', 'd', 'E', 'n', 't', 'e', 'r']);
    assert("Quote"@ =~= seq!['Q', 'u', 'o', 't', 'e']);
    assert("Backslash"@ =~= seq!['B', 'a', 'c', 'k', 's', 'l', 'a', 's', 'h']);
    assert("Comma"@ =~= seq!['C', 'o', 'm', 'm', 'a']);
    assert("Equal"@ =~= seq!['E', 'q', 'u', 'a', 'l']);
    assert("Backquote"@ =~= seq!['B', 'a', 'c', 'k', 'q', 'u', 'o', 't', 'e']);
    assert("AltLeft"@ =~= seq!['A', 'l', 't', 'L', 'e', 'f', 't']);
    assert("BracketLeft"@ =~= seq!['B', 'r', 'a', 'c', 'k', 'e', 't', 'L', 'e', 'f', 't']);
    assert("ControlLeft"@ =~= seq!['C', 'o', 'n', 't', 'r', 'o', 'l', 'L', 'e', 'f', 't']);
    assert("ShiftLeft"@ =~= seq!['S', 'h', 'i', 'f', 't', 'L', 'e', 'f', 't']);
    assert("MetaLeft"@ =~= seq!['M', 'e', 't', 'a', 'L', 'e', 'f', 't']);
    assert("Minus"@ =~= seq!['M', 'i', 'n', 'u', 's']);
}

/// Entries 91 to 99 of the web table, in the order the table tests them.
#[verifier::rlimit(100)]
#[verifier::spinoff_prover]
proof fn lemma_web_key_names_part10()
    ensures
        key_of_web_code("Period"@) == Key::Period,
        key_of_web_code("AltRight"@) == Key::RAlt,
        key_of_web_code("BracketRight"@) == Key::RBracket,
        key_of_web_code("ControlRight"@) == Key::RControl,
        key_of_web_code("ShiftRight"@) == Key::RShift,
        key_of_web_code("MetaRight"@) == Key::RWin,
        key_of_web_code("Semicolon"@) == Key::Semicolon,
        key_of_web_code("Slash"@) == Key::Slash,
        key_of_web_code("Tab"@) == Key::Tab,
{
    reveal_strlit("Digit1");
    reveal_strlit("Digit2");
    reveal_strlit("Digit3");
    reveal_strlit("Digit4");
    reveal_strlit("Digit5");
    reveal_strlit("Digit6");
    reveal_strlit("Digit7");
    reveal_strlit("Digit8");
    reveal_strlit("Digit9");
    reveal_strlit("Digit0");
    reveal_strlit("KeyA");
    reveal_strlit("KeyB");
    reveal_strlit("KeyC");
    reveal_strlit("KeyD");
    reveal_strlit("KeyE");
    reveal_strlit("KeyF");
    reveal_strlit("KeyG");
    reveal_strlit("KeyH");
    reveal_strlit("KeyI");
    reveal_strlit("KeyJ");
    reveal_strlit("KeyK");
    reveal_strlit("KeyL");
    reveal_strlit("KeyM");
    reveal_strlit("KeyN");
    reveal_strlit("KeyO");
    reveal_strlit("KeyP");
    reveal_strlit("KeyQ");
    reveal_strlit("KeyR");
    reveal_strlit("KeyS");
    reveal_strlit("KeyT");
    reveal_strlit("KeyU");
    reveal_strlit("KeyV");
    reveal_strlit("KeyW");
    reveal_strlit("KeyX");
    reveal_strlit("KeyY");
    reveal_strlit("KeyZ");
    reveal_strlit("Escape");
    reveal_strlit("F1");
    reveal_strlit("F2");
    reveal_strlit("F3");
    reveal_strlit("F4");
    reveal_strlit("F5");
    reveal_strlit("F6");
    reveal_strlit("F7");
    reveal_strlit("F8");
    reveal_strlit("F9");
    reveal_strlit("F10");
    reveal_strlit("F11");
    reveal_strlit("F12");
    reveal_strlit("Insert");
    reveal_strlit("Home");
    reveal_strlit("Delete");
    reveal_strlit("End");
    reveal_strlit("PageDown");
    reveal_strlit("PageUp");
    reveal_strlit("ArrowLeft");
    reveal_strlit("ArrowUp");
    reveal_strlit("ArrowRight");
    reveal_strlit("ArrowDown");
    reveal_strlit("Backspace");
    reveal_strlit("Enter");
    reveal_strlit("Space");
    reveal_strlit("NumLock");
    reveal_strlit("Numpad0");
    reveal_strlit("Numpad1");
    reveal_strlit("Numpad2");
    reveal_strlit("Numpad3");
    reveal_strlit("Numpad4");
    reveal_strlit("Numpad5");
    reveal_strlit("Numpad6");
    reveal_strlit("Numpad7");
    reveal_strlit("Numpad8");
    reveal_strlit("Numpad9");
    reveal_strlit("NumpadAdd");
    reveal_strlit("NumpadSubtract");
    reveal_strlit("NumpadMultiply");
    reveal_strlit("NumpadDivide");
    reveal_strlit("NumpadDecimal");
    reveal_strlit("NumpadEnter");
    reveal_strlit("Quote");
    reveal_strlit("Backslash");
    reveal_strlit("Comma");
    reveal_strlit("Equal");
    reveal_strlit("Backquote");
    reveal_strlit("AltLeft");
    reveal_strlit("BracketLeft");
    reveal_strlit("ControlLeft");
    reveal_strlit("ShiftLeft");
    reveal_strlit("MetaLeft");
    reveal_strlit("Minus");
    reveal_strlit("Period");
    reveal_strlit("AltRight");
    reveal_strlit("BracketRight");
    reveal_strlit("ControlRight");
    reveal_strlit("ShiftRight");
    reveal_strlit("MetaRight");
    reveal_strlit("Semicolon");
    reveal_strlit("Slash");
    reveal_strlit("Tab");
    assert("Digit1"@ =~= seq!['D', 'i', 'g', 'i', 't', '1']);
    assert("Digit2"@ =~= seq!['D', 'i', 'g', 'i', 't', '2']);
    assert("Digit3"@ =~= seq!['D', 'i', 'g', 'i', 't', '3']);
    assert("Digit4"@ =~= seq!['D', 'i', 'g', 'i', 't', '4']);
    assert("Digit5"@ =~= seq!['D', 'i', 'g', 'i', 't', '5']);
    assert("Digit6"@ =~= seq!['D', 'i', 'g', 'i', 't', '6']);
    assert("Digit7"@ =~= seq!['D', 'i', 'g', 'i', 't', '7']);
    assert("Digit8"@ =~= seq!['D', 'i', 'g', 'i', 't', '8']);
    assert("Digit9"@ =~= seq!['D', 'i', 'g', 'i', 't', '9']);
    assert("Digit0"@ =~= seq!['D', 'i', 'g', 'i', 't', '0']);
    assert("KeyA"@ =~= seq!['K', 'e', 'y', 'A']);
    assert("KeyB"@ =~= seq!['K', 'e', 'y', 'B']);
    assert("KeyC"@ =~= seq!['K', 'e', 'y', 'C']);
    assert("KeyD"@ =~= seq!['K', 'e', 'y', 'D']);
    assert("KeyE"@ =~= seq!['K', 'e', 'y', 'E']);
    assert("KeyF"@ =~= seq!['K', 'e', 'y', 'F']);
    assert("KeyG"@ =~= seq!['K', 'e', 'y', 'G']);
    assert("KeyH"@ =~= seq!['K', 'e', 'y', 'H']);
    assert("KeyI"@ =~= seq!['K', 'e', 'y', 'I']);
    assert("KeyJ"@ =~= seq!['K', 'e', 'y', 'J']);
    assert("KeyK"@ =~= seq!['K', 'e', 'y', 'K']);
    assert("KeyL"@ =~= seq!['K', 'e', 'y', 'L']);
    assert("KeyM"@ =~= seq!['K', 'e', 'y', 'M']);
    assert("KeyN"@ =~= seq!['K', 'e', 'y', 'N']);
    assert("KeyO"@ =~= seq!['K', 'e', 'y', 'O']);
    assert("KeyP"@ =~= seq!['K', 'e', 'y', 'P']);
    assert("KeyQ"@ =~= seq!['K', 'e', 'y', 'Q']);
    assert("KeyR"@ =~= seq!['K', 'e', 'y', 'R']);
    assert("KeyS"@ =~= seq!['K', 'e', 'y', 'S']);
    assert("KeyT"@ =~= seq!['K', 'e', 'y', 'T']);
    assert("KeyU"@ =~= seq!['K', 'e', 'y', 'U']);
    assert("KeyV"@ =~= seq!['K', 'e', 'y', 'V']);
    assert("KeyW"@ =~= seq!['K', 'e', 'y', 'W']);
    assert("KeyX"@ =~= seq!['K', 'e', 'y', 'X']);
    assert("KeyY"@ =~= seq!['K', 'e', 'y', 'Y']);
    assert("KeyZ"@ =~= seq!['K', 'e', 'y', 'Z']);
    assert("Escape"@ =~= seq!['E', 's', 'c', 'a', 'p', 'e']);
    assert("F1"@ =~= seq!['F', '1']);
    assert("F2"@ =~= seq!['F', '2']);
    assert("F3"@ =~= seq!['F', '3']);
    assert("F4"@ =~= seq!['F', '4']);
    assert("F5"@ =~= seq!['F', '5']);
    assert("F6"@ =~= seq!['F', '6']);
    assert("F7"@ =~= seq!['F', '7']);
    assert("F8"@ =~= seq!['F', '8']);
    assert("F9"@ =~= seq!['F', '9']);
    assert("F10"@ =~= seq!['F', '1', '0']);
    assert("F11"@ =~= seq!['F', '1', '1']);
    assert("F12"@ =~= seq!['F', '1', '2']);
    assert("Insert"@ =~= seq!['I', 'n', 's', 'e', 'r', 't']);
    assert("Home"@ =~= seq!['H', 'o', 'm', 'e']);
    assert("Delete"@ =~= seq!['D', 'e', 'l', 'e', 't', 'e']);
    assert("End"@ =~= seq!['E', 'n', 'd']);
    assert("PageDown"@ =~= seq!['P', 'a', 'g', 'e', 'D', 'o', 'w', 'n']);
    assert("PageUp"@ =~= seq!['P', 'a', 'g', 'e', 'U', 'p']);
    assert("ArrowLeft"@ =~= seq!['A', 'r', 'r', 'o', 'w', 'L', 'e', 'f', 't']);
    assert("ArrowUp"@ =~= seq!['A', 'r', 'r', 'o', 'w', 'U', 'p']);
    assert("ArrowRight"@ =~= seq!['A', 'r', 'r', 'o', 'w', 'R', 'i', 'g', 'h', 't']);
    assert("ArrowDown"@ =~= seq!['A', 'r', 'r', 'o', 'w', 'D', 'o', 'w', 'n']);
    assert("Backspace"@ =~= seq!['B', 'a', 'c', 'k', 's', 'p', 'a', 'c', 'e']);
    assert("Enter"@ =~= seq!['E', 'n', 't', 'e', 'r']);
    assert("Space"@ =~= seq!['S', 'p', 'a', 'c', 'e']);
    assert("NumLock"@ =~= seq!['N', 'u', 'm', 'L', 'o', 'c', 'k']);
    assert("Numpad0"@ =~= seq!['N', 'u', 'm', 'p', 'a', 'd', '0']);
    assert("Numpad1"@ =~= seq!['N', 'u', 'm', 'p', 'a', 'd', '1']);
    assert("Numpad2"@ =~= seq!['N', 'u', 'm', 'p', 'a', 'd', '2']);
    assert("Numpad3"@ =~= seq!['N', 'u', 'm', 'p', 'a', 'd', '3']);
    assert("Numpad4"@ =~= seq!['N', 'u', 'm', 'p', 'a', 'd', '4']);
    assert("Numpad5"@ =~= seq!['N', 'u', 'm', 'p', 'a', 'd', '5']);
    assert("Numpad6"@ =~= seq!['N', 'u', 'm', 'p', 'a', 'd', '6']);
    assert("Numpad7"@ =~= seq!['N', 'u', 'm', 'p', 'a', 'd', '7']);
    assert("Numpad8"@ =~= seq!['N', 'u', 'm', 'p', 'a', 'd', '8']);
    assert("Numpad9"@ =~= seq!['N', 'u', 'm', 'p', 'a', 'd', '9']);
    assert("NumpadAdd"@ =~= seq!['N', 'u', 'm', 'p', 'a', 'd', 'A', 'd', 'd']);
    assert("NumpadSubtract"@ =~= seq!['N', 'u', 'm', 'p', 'a', 'd', 'S', 'u', 'b', 't', 'r', 'a', 'c', 't']);
    assert("NumpadMultiply"@ =~= seq!['N', 'u', 'm', 'p', 'a', 'd', 'M', 'u', 'l', 't', 'i', 'p', 'l', 'y']);
    assert("NumpadDivide"@ =~= seq!['N', 'u', 'm', 'p', 'a', 'd', 'D', 'i', 'v', 'i', 'd', 'e']);
    assert("NumpadDecimal"@ =~= seq!['N', 'u', 'm', 'p', 'a', 'd', 'D', 'e', 'c', 'i', 'm', 'a', 'l']);
    assert("NumpadEnter"@ =~= seq!['N', 'u', 'm', 'p', 'a', 'd', 'E', 'n', 't', 'e', 'r']);
    assert("Quote"@ =~= seq!['Q', 'u', 'o', 't', 'e']);
    assert("Backslash"@ =~= seq!['B', 'a', 'c', 'k', 's', 'l', 'a', 's', 'h']);
    assert("Comma"@ =~= seq!['C', 'o', 'm', 'm', 'a']);
    assert("Equal"@ =~= seq!['E', 'q', 'u', 'a', 'l']);
    assert("Backquote"@ =~= seq!['B', 'a', 'c', 'k', 'q', 'u', 'o', 't', 'e']);
    assert("AltLeft"@ =~= seq!['A', 'l', 't', 'L', 'e', 'f', 't']);
    assert("BracketLeft"@ =~= seq!['B', 'r', 'a', 'c', 'k', 'e', 't', 'L', 'e', 'f', 't']);
    assert("ControlLeft"@ =~= seq!['C', 'o', 'n', 't', 'r', 'o', 'l', 'L', 'e', 'f', 't']);
    assert("ShiftLeft"@ =~= seq!['S', 'h', 'i', 'f', 't', 'L', 'e', 'f', 't']);
    assert("MetaLeft"@ =~= seq!['M', 'e', 't', 'a', 'L', 'e', 'f', 't']);
    assert("Minus"@ =~= seq!['M', 'i', 'n', 'u', 's']);
    assert("Period"@ =~= seq!['P', 'e', 'r', 'i', 'o', 'd']);
    assert("AltRight"@ =~= seq!['A', 'l', 't', 'R', 'i', 'g', 'h', 't']);
    assert("BracketRight"@ =~= seq!['B', 'r', 'a', 'c', 'k', 'e', 't', 'R', 'i', 'g', 'h', 't']);
    assert("ControlRight"@ =~= seq!['C', 'o', 'n', 't', 'r', 'o', 'l', 'R', 'i', 'g', 'h', 't']);
    assert("ShiftRight"@ =~= seq!['S', 'h', 'i', 'f', 't', 'R', 'i', 'g', 'h', 't']);
    assert("MetaRight"@ =~= seq!['M', 'e', 't', 'a', 'R', 'i', 'g', 'h', 't']);
    assert("Semicolon"@ =~= seq!['S', 'e', 'm', 'i', 'c', 'o', 'l', 'o', 'n']);
    assert("Slash"@ =~= seq!['S', 'l', 'a', 's', 'h']);
    assert("Tab"@ =~= seq!['T', 'a', 'b']);
}

/// Every `code` string that the web table knows yields the key named after
/// it.
pub proof fn lemma_web_key_names()
    ensures
        key_of_web_code("Digit1"@) == Key::Key1,
        key_of_web_code("Digit2"@) == Key::Key2,
        key_of_web_code("Digit3"@) == Key::Key3,
        key_of_web_code("Digit4"@) == Key::Key4,
        key_of_web_code("Digit5"@) == Key::Key5,
        key_of_web_code("Digit6"@) == Key::Key6,
        key_of_web_code("Digit7"@) == Key::Key7,
        key_of_web_code("Digit8"@) == Key::Key8,
        key_of_web_code("Digit9"@) == Key::Key9,
        key_of_web_code("Digit0"@) == Key::Key0,
        key_of_web_code("KeyA"@) == Key::A,
        key_of_web_code("KeyB"@) == Key::B,
        key_of_web_code("KeyC"@) == Key::C,
        key_of_web_code("KeyD"@) == Key::D,
        key_of_web_code("KeyE"@) == Key::E,
        key_of_web_code("KeyF"@) == Key::F,
        key_of_web_code("KeyG"@) == Key::G,
        key_of_web_code("KeyH"@) == Key::H,
        key_of_web_code("KeyI"@) == Key::I,
        key_of_web_code("KeyJ"@) == Key::J,
        key_of_web_code("KeyK"@) == Key::K,
        key_of_web_code("KeyL"@) == Key::L,
        key_of_web_code("KeyM"@) == Key::M,
        key_of_web_code("KeyN"@) == Key::N,
        key_of_web_code("KeyO"@) == Key::O,
        key_of_web_code("KeyP"@) == Key::P,
        key_of_web_code("KeyQ"@) == Key::Q,
        key_of_web_code("KeyR"@) == Key::R,
        key_of_web_code("KeyS"@) == Key::S,
        key_of_web_code("KeyT"@) == Key::T,
        key_of_web_code("KeyU"@) == Key::U,
        key_of_web_code("KeyV"@) == Key::V,
        key_of_web_code("KeyW"@) == Key::W,
        key_of_web_code("KeyX"@) == Key::X,
        key_of_web_code("KeyY"@) == Key::Y,
        key_of_web_code("KeyZ"@) == Key::Z,
        key_of_web_code("Escape"@) == Key::Escape,
        key_of_web_code("F1"@) == Key::F1,
        key_of_web_code("F2"@) == Key::F2,
        key_of_web_code("F3"@) == Key::F3,
        key_of_web_code("F4"@) == Key::F4,
        key_of_web_code("F5"@) == Key::F5,
        key_of_web_code("F6"@) == Key::F6,
        key_of_web_code("F7"@) == Key::F7,
        key_of_web_code("F8"@) == Key::F8,
        key_of_web_code("F9"@) == Key::F9,
        key_of_web_code("F10"@) == Key::F10,
        key_of_web_code("F11"@) == Key::F11,
        key_of_web_code("F12"@) == Key::F12,
        key_of_web_code("Insert"@) == Key::Insert,
        key_of_web_code("Home"@) == Key::Home,
        key_of_web_code("Delete"@) == Key::Delete,
        key_of_web_code("End"@) == Key::End,
        key_of_web_code("PageDown"@) == Key::PageDown,
        key_of_web_code("PageUp"@) == Key::PageUp,
        key_of_web_code("ArrowLeft"@) == Key::Left,
        key_of_web_code("ArrowUp"@) == Key::Up,
        key_of_web_code("ArrowRight"@) == Key::Right,
        key_of_web_code("ArrowDown"@) == Key::Down,
        key_of_web_code("Backspace"@) == Key::Back,
        key_of_web_code("Enter"@) == Key::Return,
        key_of_web_code("Space"@) == Key::Space,
        key_of_web_code("NumLock"@) == Key::Numlock,
        key_of_web_code("Numpad0"@) == Key::Numpad0,
        key_of_web_code("Numpad1"@) == Key::Numpad1,
        key_of_web_code("Numpad2"@) == Key::Numpad2,
        key_of_web_code("Numpad3"@) == Key::Numpad3,
        key_of_web_code("Numpad4"@) == Key::Numpad4,
        key_of_web_code("Numpad5"@) == Key::Numpad5,
        key_of_web_code("Numpad6"@) == Key::Numpad6,
        key_of_web_code("Numpad7"@) == Key::Numpad7,
        key_of_web_code("Numpad8"@) == Key::Numpad8,
        key_of_web_code("Numpad9"@) == Key::Numpad9,
        key_of_web_code("NumpadAdd"@) == Key::Add,
        key_of_web_code("NumpadSubtract"@) == Key::Subtract,
        key_of_web_code("NumpadMultiply"@) == Key::Multiply,
        key_of_web_code("NumpadDivide"@) == Key::Divide,
        key_of_web_code("NumpadDecimal"@) == Key::Decimal,
        key_of_web_code("NumpadEnter"@) == Key::NumpadEnter,
        key_of_web_code("Quote"@) == Key::Apostrophe,
        key_of_web_code("Backslash"@) == Key::Backslash,
        key_of_web_code("Comma"@) == Key::Comma,
        key_of_web_code("Equal"@) == Key::Equals,
        key_of_web_code("Backquote"@) == Key::Grave,
        key_of_web_code("AltLeft"@) == Key::LAlt,
        key_of_web_code("BracketLeft"@) == Key::LBracket,
        key_of_web_code("ControlLeft"@) == Key::LControl,
        key_of_web_code("ShiftLeft"@) == Key::LShift,
        key_of_web_code("MetaLeft"@) == Key::LWin,
        key_of_web_code("Minus"@) == Key::Minus,
        key_of_web_code("Period"@) == Key::Period,
        key_of_web_code("AltRight"@) == Key::RAlt,
        key_of_web_code("BracketRight"@) == Key::RBracket,
        key_of_web_code("ControlRight"@) == Key::RControl,
        key_of_web_code("ShiftRight"@) == Key::RShift,
        key_of_web_code("MetaRight"@) == Key::RWin,
        key_of_web_code("Semicolon"@) == Key::Semicolon,
        key_of_web_code("Slash"@) == Key::Slash,
        key_of_web_code("Tab"@) == Key::Tab,
{
    lemma_web_key_names_part1();
    lemma_web_key_names_part2();
    lemma_web_key_names_part3();
    lemma_web_key_names_part4();
    lemma_web_key_names_part5();
    lemma_web_key_names_part6();
    lemma_web_key_names_part7();
    lemma_web_key_names_part8();
    lemma_web_key_names_part9();
    lemma_web_key_names_part10();
}

/// The web table gives the name of a native key code either no key or the
/// key that the native table gives the code.
#[verifier::rlimit(100)]
#[verifier::spinoff_prover]
pub proof fn lemma_web_key_of_code_name(c: KeyCode)
    ensures
        key_of_web_code(code_name(c)) == key_of_code(c) || key_of_web_code(code_name(c))
            == Key::Unknown,
{
    reveal_strlit("Digit1");
    reveal_strlit("Digit2");
    reveal_strlit("Digit3");
    reveal_strlit("Digit4");
    reveal_strlit("Digit5");
    reveal_strlit("Digit6");
    reveal_strlit("Digit7");
    reveal_strlit("Digit8");
    reveal_strlit("Digit9");
    reveal_strlit("Digit0");
    reveal_strlit("KeyA");
    reveal_strlit("KeyB");
    reveal_strlit("KeyC");
    reveal_strlit("KeyD");
    reveal_strlit("KeyE");
    reveal_strlit("KeyF");
    reveal_strlit("KeyG");
    reveal_strlit("KeyH");
    reveal_strlit("KeyI");
    reveal_strlit("KeyJ");
    reveal_strlit("KeyK");
    reveal_strlit("KeyL");
    reveal_strlit("KeyM");
    reveal_strlit("KeyN");
    reveal_strlit("KeyO");
    reveal_strlit("KeyP");
    reveal_strlit("KeyQ");
    reveal_strlit("KeyR");
    reveal_strlit("KeyS");
    reveal_strlit("KeyT");
    reveal_strlit("KeyU");
    reveal_strlit("KeyV");
    reveal_strlit("KeyW");
    reveal_strlit("KeyX");
    reveal_strlit("KeyY");
    reveal_strlit("KeyZ");
    reveal_strlit("Escape");
    reveal_strlit("F1");
    reveal_strlit("F2");
    reveal_strlit("F3");
    reveal_strlit("F4");
    reveal_strlit("F5");
    reveal_strlit("F6");
    reveal_strlit("F7");
    reveal_strlit("F8");
    reveal_strlit("F9");
    reveal_strlit("F10");
    reveal_strlit("F11");
    reveal_strlit("F12");
    reveal_strlit("Insert");
    reveal_strlit("Home");
    reveal_strlit("Delete");
    reveal_strlit("End");
    reveal_strlit("PageDown");
    reveal_strlit("PageUp");
    reveal_strlit("ArrowLeft");
    reveal_strlit("ArrowUp");
    reveal_strlit("ArrowRight");
    reveal_strlit("ArrowDown");
    reveal_strlit("Backspace");
    reveal_strlit("Enter");
    reveal_strlit("Space");
    reveal_strlit("NumLock");
    reveal_strlit("Numpad0");
    reveal_strlit("Numpad1");
    reveal_strlit("Numpad2");
    reveal_strlit("Numpad3");
    reveal_strlit("Numpad4");
    reveal_strlit("Numpad5");
    reveal_strlit("Numpad6");
    reveal_strlit("Numpad7");
    reveal_strlit("Numpad8");
    reveal_strlit("Numpad9");
    reveal_strlit("NumpadAdd");
    reveal_strlit("NumpadSubtract");
    reveal_strlit("NumpadMultiply");
    reveal_strlit("NumpadDivide");
    reveal_strlit("NumpadDecimal");
    reveal_strlit("NumpadEnter");
    reveal_strlit("Quote");
    reveal_strlit("Backslash");
    reveal_strlit("Comma");
    reveal_strlit("Equal");
    reveal_strlit("Backquote");
    reveal_strlit("AltLeft");
    reveal_strlit("BracketLeft");
    reveal_strlit("ControlLeft");
    reveal_strlit("ShiftLeft");
    reveal_strlit("MetaLeft");
    reveal_strlit("Minus");
    reveal_strlit("Period");
    reveal_strlit("AltRight");
    reveal_strlit("BracketRight");
    reveal_strlit("ControlRight");
    reveal_strlit("ShiftRight");
    reveal_strlit("MetaRight");
    reveal_strlit("Semicolon");
    reveal_strlit("Slash");
    reveal_strlit("Tab");
    reveal_strlit("F13");
    reveal_strlit("F14");
    reveal_strlit("F15");
    reveal_strlit("F16");
    reveal_strlit("F17");
    reveal_strlit("F18");
    reveal_strlit("F19");
    reveal_strlit("F20");
    reveal_strlit("F21");
    reveal_strlit("F22");
    reveal_strlit("F23");
    reveal_strlit("F24");
    reveal_strlit("PrintScreen");
    reveal_strlit("ScrollLock");
    reveal_strlit("Pause");
    reveal_strlit("NumpadClear");
    reveal_strlit("Convert");
    reveal_strlit("KanaMode");
    reveal_strlit("LaunchMail");
    reveal_strlit("MediaSelect");
    reveal_strlit("MediaStop");
    reveal_strlit("AudioVolumeMute");
    reveal_strlit("BrowserForward");
    reveal_strlit("BrowserBack");
    reveal_strlit("MediaTrackNext");
    reveal_strlit("NonConvert");
    reveal_strlit("NumpadComma");
    reveal_strlit("IntlBackslash");
    reveal_strlit("MediaPlayPause");
    reveal_strlit("Power");
    reveal_strlit("MediaTrackPrevious");
    reveal_strlit("Sleep");
    reveal_strlit("AudioVolumeDown");
    reveal_strlit("AudioVolumeUp");
    reveal_strlit("WakeUp");
    reveal_strlit("BrowserHome");
    reveal_strlit("BrowserRefresh");
    reveal_strlit("BrowserSearch");
    reveal_strlit("IntlYen");
    reveal_strlit("Copy");
    reveal_strlit("Paste");
    reveal_strlit("Cut");
    // Spelled out, the names can be told apart by the solver.
    assert("Digit1"@ =~= seq!['D', 'i', 'g', 'i', 't', '1']);
    assert("Digit2"@ =~= seq!['D', 'i', 'g', 'i', 't', '2']);
    assert("Digit3"@ =~= seq!['D', 'i', 'g', 'i', 't', '3']);
    assert("Digit4"@ =~= seq!['D', 'i', 'g', 'i', 't', '4']);
    assert("Digit5"@ =~= seq!['D', 'i', 'g', 'i', 't', '5']);
    assert("Digit6"@ =~= seq!['D', 'i', 'g', 'i', 't', '6']);
    assert("Digit7"@ =~= seq!['D', 'i', 'g', 'i', 't', '7']);
    assert("Digit8"@ =~= seq!['D', 'i', 'g', 'i', 't', '8']);
    assert("Digit9"@ =~= seq!['D', 'i', 'g', 'i', 't', '9']);
    assert("Digit0"@ =~= seq!['D', 'i', 'g', 'i', 't', '0']);
    assert("KeyA"@ =~= seq!['K', 'e', 'y', 'A']);
    assert("KeyB"@ =~= seq!['K', 'e', 'y', 'B']);
    assert("KeyC"@ =~= seq!['K', 'e', 'y', 'C']);
    assert("KeyD"@ =~= seq!['K', 'e', 'y', 'D']);
    assert("KeyE"@ =~= seq!['K', 'e', 'y', 'E']);
    assert("KeyF"@ =~= seq!['K', 'e', 'y', 'F']);
    assert("KeyG"@ =~= seq!['K', 'e', 'y', 'G']);
    assert("KeyH"@ =~= seq!['K', 'e', 'y', 'H']);
    assert("KeyI"@ =~= seq!['K', 'e', 'y', 'I']);
    assert("KeyJ"@ =~= seq!['K', 'e', 'y', 'J']);
    assert("KeyK"@ =~= seq!['K', 'e', 'y', 'K']);
    assert("KeyL"@ =~= seq!['K', 'e', 'y', 'L']);
    assert("KeyM"@ =~= seq!['K', 'e', 'y', 'M']);
    assert("KeyN"@ =~= seq!['K', 'e', 'y', 'N']);
    assert("KeyO"@ =~= seq!['K', 'e', 'y', 'O']);
    assert("KeyP"@ =~= seq!['K', 'e', 'y', 'P']);
    assert("KeyQ"@ =~= seq!['K', 'e', 'y', 'Q']);
    assert("KeyR"@ =~= seq!['K', 'e', 'y', 'R']);
    assert("KeyS"@ =~= seq!['K', 'e', 'y', 'S']);
    assert("KeyT"@ =~= seq!['K', 'e', 'y', 'T']);
    assert("KeyU"@ =~= seq!['K', 'e', 'y', 'U']);
    assert("KeyV"@ =~= seq!['K', 'e', 'y', 'V']);
    assert("KeyW"@ =~= seq!['K', 'e', 'y', 'W']);
    assert("KeyX"@ =~= seq!['K', 'e', 'y', 'X']);
    assert("KeyY"@ =~= seq!['K', 'e', 'y', 'Y']);
    assert("KeyZ"@ =~= seq!['K', 'e', 'y', 'Z']);
    assert("Escape"@ =~= seq!['E', 's', 'c', 'a', 'p', 'e']);
    assert("F1"@ =~= seq!['F', '1']);
    assert("F2"@ =~= seq!['F', '2']);
    assert("F3"@ =~= seq!['F', '3']);
    assert("F4"@ =~= seq!['F', '4']);
    assert("F5"@ =~= seq!['F', '5']);
    assert("F6"@ =~= seq!['F', '6']);
    assert("F7"@ =~= seq!['F', '7']);
    assert("F8"@ =~= seq!['F', '8']);
    assert("F9"@ =~= seq!['F', '9']);
    assert("F10"@ =~= seq!['F', '1', '0']);
    assert("F11"@ =~= seq!['F', '1', '1']);
    assert("F12"@ =~= seq!['F', '1', '2']);
    assert("Insert"@ =~= seq!['I', 'n', 's', 'e', 'r', 't']);
    assert("Home"@ =~= seq!['H', 'o', 'm', 'e']);
    assert("Delete"@ =~= seq!['D', 'e', 'l', 'e', 't', 'e']);
    assert("End"@ =~= seq!['E', 'n', 'd']);
    assert("PageDown"@ =~= seq!['P', 'a', 'g', 'e', 'D', 'o', 'w', 'n']);
    assert("PageUp"@ =~= seq!['P', 'a', 'g', 'e', 'U', 'p']);
    assert("ArrowLeft"@ =~= seq!['A', 'r', 'r', 'o', 'w', 'L', 'e', 'f', 't']);
    assert("ArrowUp"@ =~= seq!['A', 'r', 'r', 'o', 'w', 'U', 'p']);
    assert("ArrowRight"@ =~= seq!['A', 'r', 'r', 'o', 'w', 'R', 'i', 'g', 'h', 't']);
    assert("ArrowDown"@ =~= seq!['A', 'r', 'r', 'o', 'w', 'D', 'o', 'w', 'n']);
    assert("Backspace"@ =~= seq!['B', 'a', 'c', 'k', 's', 'p', 'a', 'c', 'e']);
    assert("Enter"@ =~= seq!['E', 'n', 't', 'e', 'r']);
    assert("Space"@ =~= seq!['S', 'p', 'a', 'c', 'e']);
    assert("NumLock"@ =~= seq!['N', 'u', 'm', 'L', 'o', 'c', 'k']);
    assert("Numpad0"@ =~= seq!['N', 'u', 'm', 'p', 'a', 'd', '0']);
    assert("Numpad1"@ =~= seq!['N', 'u', 'm', 'p', 'a', 'd', '1']);
    assert("Numpad2"@ =~= seq!['N', 'u', 'm', 'p', 'a', 'd', '2']);
    assert("Numpad3"@ =~= seq!['N', 'u', 'm', 'p', 'a', 'd', '3']);
    assert("Numpad4"@ =~= seq!['N', 'u', 'm', 'p', 'a', 'd', '4']);
    assert("Numpad5"@ =~= seq!['N', 'u', 'm', 'p', 'a', 'd', '5']);
    assert("Numpad6"@ =~= seq!['N', 'u', 'm', 'p', 'a', 'd', '6']);
    assert("Numpad7"@ =~= seq!['N', 'u', 'm', 'p', 'a', 'd', '7']);
    assert("Numpad8"@ =~= seq!['N', 'u', 'm', 'p', 'a', 'd', '8']);
    assert("Numpad9"@ =~= seq!['N', 'u', 'm', 'p', 'a', 'd', '9']);
    assert("NumpadAdd"@ =~= seq!['N', 'u', 'm', 'p', 'a', 'd', 'A', 'd', 'd']);
    assert("NumpadSubtract"@ =~= seq!['N', 'u', 'm', 'p', 'a', 'd', 'S', 'u', 'b', 't', 'r', 'a', 'c', 't']);
    assert("NumpadMultiply"@ =~= seq!['N', 'u', 'm', 'p', 'a', 'd', 'M', 'u', 'l', 't', 'i', 'p', 'l', 'y']);
    assert("NumpadDivide"@ =~= seq!['N', 'u', 'm', 'p', 'a', 'd', 'D', 'i', 'v', 'i', 'd', 'e']);
    assert("NumpadDecimal"@ =~= seq!['N', 'u', 'm', 'p', 'a', 'd', 'D', 'e', 'c', 'i', 'm', 'a', 'l']);
    assert("NumpadEnter"@ =~= seq!['N', 'u', 'm', 'p', 'a', 'd', 'E', 'n', 't', 'e', 'r']);
    assert("Quote"@ =~= seq!['Q', 'u', 'o', 't', 'e']);
    assert("Backslash"@ =~= seq!['B', 'a', 'c', 'k', 's', 'l', 'a', 's', 'h']);
    assert("Comma"@ =~= seq!['C', 'o', 'm', 'm', 'a']);
    assert("Equal"@ =~= seq!['E', 'q', 'u', 'a', 'l']);
    assert("Backquote"@ =~= seq!['B', 'a', 'c', 'k', 'q', 'u', 'o', 't', 'e']);
    assert("AltLeft"@ =~= seq!['A', 'l', 't', 'L', 'e', 'f', 't']);
    assert("BracketLeft"@ =~= seq!['B', 'r', 'a', 'c', 'k', 'e', 't', 'L', 'e', 'f', 't']);
    assert("ControlLeft"@ =~= seq!['C', 'o', 'n', 't', 'r', 'o', 'l', 'L', 'e', 'f', 't']);
    assert("ShiftLeft"@ =~= seq!['S', 'h', 'i', 'f', 't', 'L', 'e', 'f', 't']);
    assert("MetaLeft"@ =~= seq!['M', 'e', 't', 'a', 'L', 'e', 'f', 't']);
    assert("Minus"@ =~= seq!['M', 'i', 'n', 'u', 's']);
    assert("Period"@ =~= seq!['P', 'e', 'r', 'i', 'o', 'd']);
    assert("AltRight"@ =~= seq!['A', 'l', 't', 'R', 'i', 'g', 'h', 't']);
    assert("BracketRight"@ =~= seq!['B', 'r', 'a', 'c', 'k', 'e', 't', 'R', 'i', 'g', 'h', 't']);
    assert("ControlRight"@ =~= seq!['C', 'o', 'n', 't', 'r', 'o', 'l', 'R', 'i', 'g', 'h', 't']);
    assert("ShiftRight"@ =~= seq!['S', 'h', 'i', 'f', 't', 'R', 'i', 'g', 'h', 't']);
    assert("MetaRight"@ =~= seq!['M', 'e', 't', 'a', 'R', 'i', 'g', 'h', 't']);
    assert("Semicolon"@ =~= seq!['S', 'e', 'm', 'i', 'c', 'o', 'l', 'o', 'n']);
    assert("Slash"@ =~= seq!['S', 'l', 'a', 's', 'h']);
    assert("Tab"@ =~= seq!['T', 'a', 'b']);
    assert("F13"@ =~= seq!['F', '1', '3']);
    assert("F14"@ =~= seq!['F', '1', '4']);
    assert("F15"@ =~= seq!['F', '1', '5']);
    assert("F16"@ =~= seq!['F', '1', '6']);
    assert("F17"@ =~= seq!['F', '1', '7']);
    assert("F18"@ =~= seq!['F', '1', '8']);
    assert("F19"@ =~= seq!['F', '1', '9']);
    assert("F20"@ =~= seq!['F', '2', '0']);
    assert("F21"@ =~= seq!['F', '2', '1']);
    assert("F22"@ =~= seq!['F', '2', '2']);
    assert("F23"@ =~= seq!['F', '2', '3']);
    assert("F24"@ =~= seq!['F', '2', '4']);
    assert("PrintScreen"@ =~= seq!['P', 'r', 'i', 'n', 't', 'S', 'c', 'r', 'e', 'e', 'n']);
    assert("ScrollLock"@ =~= seq!['S', 'c', 'r', 'o', 'l', 'l', 'L', 'o', 'c', 'k']);
    assert("Pause"@ =~= seq!['P', 'a', 'u', 's', 'e']);
    assert("NumpadClear"@ =~= seq!['N', 'u', 'm', 'p', 'a', 'd', 'C', 'l', 'e', 'a', 'r']);
    assert("Convert"@ =~= seq!['C', 'o', 'n', 'v', 'e', 'r', 't']);
    assert("KanaMode"@ =~= seq!['K', 'a', 'n', 'a', 'M', 'o', 'd', 'e']);
    assert("LaunchMail"@ =~= seq!['L', 'a', 'u', 'n', 'c', 'h', 'M', 'a', 'i', 'l']);
    assert("MediaSelect"@ =~= seq!['M', 'e', 'd', 'i', 'a', 'S', 'e', 'l', 'e', 'c', 't']);
    assert("MediaStop"@ =~= seq!['M', 'e', 'd', 'i', 'a', 'S', 't', 'o', 'p']);
    assert("AudioVolumeMute"@ =~= seq!['A', 'u', 'd', 'i', 'o', 'V', 'o', 'l', 'u', 'm', 'e', 'M', 'u', 't', 'e']);
    assert("BrowserForward"@ =~= seq!['B', 'r', 'o', 'w', 's', 'e', 'r', 'F', 'o', 'r', 'w', 'a', 'r', 'd']);
    assert("BrowserBack"@ =~= seq!['B', 'r', 'o', 'w', 's', 'e', 'r', 'B', 'a', 'c', 'k']);
    assert("MediaTrackNext"@ =~= seq!['M', 'e', 'd', 'i', 'a', 'T', 'r', 'a', 'c', 'k', 'N', 'e', 'x', 't']);
    assert("NonConvert"@ =~= seq!['N', 'o', 'n', 'C', 'o', 'n', 'v', 'e', 'r', 't']);
    assert("NumpadComma"@ =~= seq!['N', 'u', 'm', 'p', 'a', 'd', 'C', 'o', 'm', 'm', 'a']);
    assert("IntlBackslash"@ =~= seq!['I', 'n', 't', 'l', 'B', 'a', 'c', 'k', 's', 'l', 'a', 's', 'h']);
    assert("MediaPlayPause"@ =~= seq!['M', 'e', 'd', 'i', 'a', 'P', 'l', 'a', 'y', 'P', 'a', 'u', 's', 'e']);
    assert("Power"@ =~= seq!['P', 'o', 'w', 'e', 'r']);
    assert("MediaTrackPrevious"@ =~= seq!['M', 'e', 'd', 'i', 'a', 'T', 'r', 'a', 'c', 'k', 'P', 'r', 'e', 'v', 'i', 'o', 'u', 's']);
    assert("Sleep"@ =~= seq!['S', 'l', 'e', 'e', 'p']);
    assert("AudioVolumeDown"@ =~= seq!['A', 'u', 'd', 'i', 'o', 'V', 'o', 'l', 'u', 'm', 'e', 'D', 'o', 'w', 'n']);
    assert("AudioVolumeUp"@ =~= seq!['A', 'u', 'd', 'i', 'o', 'V', 'o', 'l', 'u', 'm', 'e', 'U', 'p']);
    assert("WakeUp"@ =~= seq!['W', 'a', 'k', 'e', 'U', 'p']);
    assert("BrowserHome"@ =~= seq!['B', 'r', 'o', 'w', 's', 'e', 'r', 'H', 'o', 'm', 'e']);
    assert("BrowserRefresh"@ =~= seq!['B', 'r', 'o', 'w', 's', 'e', 'r', 'R', 'e', 'f', 'r', 'e', 's', 'h']);
    assert("BrowserSearch"@ =~= seq!['B', 'r', 'o', 'w', 's', 'e', 'r', 'S', 'e', 'a', 'r', 'c', 'h']);
    assert("IntlYen"@ =~= seq!['I', 'n', 't', 'l', 'Y', 'e', 'n']);
    assert("Copy"@ =~= seq!['C', 'o', 'p', 'y']);
    assert("Paste"@ =~= seq!['P', 'a', 's', 't', 'e']);
    assert("Cut"@ =~= seq!['C', 'u', 't']);
}

/// The web and native tables agree: when a web `code` string yields a key,
/// the native key code of that name yields the same key.
pub proof fn lemma_web_table_agrees_with_native(code: Seq<char>, c: KeyCode)
    requires
        code_name(c) == code,
        key_of_web_code(code) != Key::Unknown,
    ensures
        key_of_web_code(code) == key_of_code(c),
{
    lemma_web_key_of_code_name(c);
}

} // verus!
