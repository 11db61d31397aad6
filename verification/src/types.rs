//! Shared value types: audio sources, modes, key codes and hotkey combinations.

use vstd::prelude::*;
use vstd::string::*;
use crate::text::{
    has_prefix, seq_lt, str_lt, lemma_seq_lt_transitive, lemma_seq_lt_irreflexive, lemma_seq_lt_total,
};

verus! {

/// Audio source type for capture.
#[derive(Debug, Clone, Copy, PartialEq, Eq, Structural)]
pub enum AudioSourceType {
    /// Microphone or other input device
    Input,
    /// System audio (monitor/loopback)
    System,
    /// Mixed input and system audio
    Mixed,
}

impl Default for AudioSourceType {
    fn default() -> (r: Self)
        ensures
            r == AudioSourceType::Input,
    {
        AudioSourceType::Input
    }
}

/// Recording mode: how multiple audio sources are combined.
#[derive(Debug, Clone, Copy, PartialEq, Eq, Structural)]
pub enum RecordingMode {
    /// Mix both streams together
    Mixed,
    /// Output only the echo-cancelled primary source
    EchoCancel,
}

impl Default for RecordingMode {
    fn default() -> (r: Self)
        ensures
            r == RecordingMode::Mixed,
    {
        RecordingMode::Mixed
    }
}

/// Transcription mode: how speech segment boundaries are identified.
#[derive(Debug, Clone, Copy, PartialEq, Eq, Structural)]
pub enum TranscriptionMode {
    /// Speech detection determines segment boundaries
    Automatic,
    /// Hotkey press/release determines segment boundaries
    PushToTalk,
}

impl Default for TranscriptionMode {
    fn default() -> (r: Self)
        ensures
            r == TranscriptionMode::PushToTalk,
    {
        TranscriptionMode::PushToTalk
    }
}

/// Runtime mode: how the service lifecycle is managed.
#[derive(Debug, Clone, Copy, PartialEq, Eq, Structural)]
pub enum RuntimeMode {
    /// Service persists independently for debugging
    Development,
    /// Service lifecycle coupled to the owner client
    Production,
}

impl Default for RuntimeMode {
    fn default() -> (r: Self)
        ensures
            r == RuntimeMode::Production,
    {
        RuntimeMode::Production
    }
}

/// The lower-case name of a runtime mode.
pub open spec fn runtime_mode_name(m: RuntimeMode) -> Seq<char> {
    match m {
        RuntimeMode::Development => "development"@,
        RuntimeMode::Production => "production"@,
    }
}

impl RuntimeMode {
    pub fn as_str(&self) -> (r: &'static str)
        ensures
            r@ == runtime_mode_name(*self),
    {
        match self {
            RuntimeMode::Development => "development",
            RuntimeMode::Production => "production",
        }
    }
}

/// Platform-independent key codes for hotkey configuration.
#[derive(Debug, Clone, Copy, PartialEq, Eq, Hash, Structural)]
pub enum KeyCode {
    RightAlt,
    LeftAlt,
    RightControl,
    LeftControl,
    RightShift,
    LeftShift,
    CapsLock,
    LeftMeta,
    RightMeta,
    F1,
    F2,
    F3,
    F4,
    F5,
    F6,
    F7,
    F8,
    F9,
    F10,
    F11,
    F12,
    F13,
    F14,
    F15,
    F16,
    F17,
    F18,
    F19,
    F20,
    F21,
    F22,
    F23,
    F24,
    KeyA,
    KeyB,
    KeyC,
    KeyD,
    KeyE,
    KeyF,
    KeyG,
    KeyH,
    KeyI,
    KeyJ,
    KeyK,
    KeyL,
    KeyM,
    KeyN,
    KeyO,
    KeyP,
    KeyQ,
    KeyR,
    KeyS,
    KeyT,
    KeyU,
    KeyV,
    KeyW,
    KeyX,
    KeyY,
    KeyZ,
    Digit0,
    Digit1,
    Digit2,
    Digit3,
    Digit4,
    Digit5,
    Digit6,
    Digit7,
    Digit8,
    Digit9,
    ArrowUp,
    ArrowDown,
    ArrowLeft,
    ArrowRight,
    Home,
    End,
    PageUp,
    PageDown,
    Insert,
    Delete,
    Escape,
    Tab,
    Space,
    Enter,
    Backspace,
    PrintScreen,
    ScrollLock,
    Pause,
    Minus,
    Equal,
    BracketLeft,
    BracketRight,
    Backslash,
    Semicolon,
    Quote,
    Backquote,
    Comma,
    Period,
    Slash,
    Numpad0,
    Numpad1,
    Numpad2,
    Numpad3,
    Numpad4,
    Numpad5,
    Numpad6,
    Numpad7,
    Numpad8,
    Numpad9,
    NumpadMultiply,
    NumpadAdd,
    NumpadSubtract,
    NumpadDecimal,
    NumpadDivide,
    NumLock,
}

impl Default for KeyCode {
    fn default() -> (r: Self)
        ensures
            r == KeyCode::RightAlt,
    {
        KeyCode::RightAlt
    }
}

/// Human-readable display name of each key.
pub open spec fn key_display_name(k: KeyCode) -> Seq<char> {
    match k {
        KeyCode::RightAlt => "Right Alt"@,
        KeyCode::LeftAlt => "Left Alt"@,
        KeyCode::RightControl => "Right Ctrl"@,
        KeyCode::LeftControl => "Left Ctrl"@,
        KeyCode::RightShift => "Right Shift"@,
        KeyCode::LeftShift => "Left Shift"@,
        KeyCode::CapsLock => "Caps Lock"@,
        KeyCode::LeftMeta => "Left Win"@,
        KeyCode::RightMeta => "Right Win"@,
        KeyCode::F1 => "F1"@,
        KeyCode::F2 => "F2"@,
        KeyCode::F3 => "F3"@,
        KeyCode::F4 => "F4"@,
        KeyCode::F5 => "F5"@,
        KeyCode::F6 => "F6"@,
        KeyCode::F7 => "F7"@,
        KeyCode::F8 => "F8"@,
        KeyCode::F9 => "F9"@,
        KeyCode::F10 => "F10"@,
        KeyCode::F11 => "F11"@,
        KeyCode::F12 => "F12"@,
        KeyCode::F13 => "F13"@,
        KeyCode::F14 => "F14"@,
        KeyCode::F15 => "F15"@,
        KeyCode::F16 => "F16"@,
        KeyCode::F17 => "F17"@,
        KeyCode::F18 => "F18"@,
        KeyCode::F19 => "F19"@,
        KeyCode::F20 => "F20"@,
        KeyCode::F21 => "F21"@,
        KeyCode::F22 => "F22"@,
        KeyCode::F23 => "F23"@,
        KeyCode::F24 => "F24"@,
        KeyCode::KeyA => "A"@,
        KeyCode::KeyB => "B"@,
        KeyCode::KeyC => "C"@,
        KeyCode::KeyD => "D"@,
        KeyCode::KeyE => "E"@,
        KeyCode::KeyF => "F"@,
        KeyCode::KeyG => "G"@,
        KeyCode::KeyH => "H"@,
        KeyCode::KeyI => "I"@,
        KeyCode::KeyJ => "J"@,
        KeyCode::KeyK => "K"@,
        KeyCode::KeyL => "L"@,
        KeyCode::KeyM => "M"@,
        KeyCode::KeyN => "N"@,
        KeyCode::KeyO => "O"@,
        KeyCode::KeyP => "P"@,
        KeyCode::KeyQ => "Q"@,
        KeyCode::KeyR => "R"@,
        KeyCode::KeyS => "S"@,
        KeyCode::KeyT => "T"@,
        KeyCode::KeyU => "U"@,
        KeyCode::KeyV => "V"@,
        KeyCode::KeyW => "W"@,
        KeyCode::KeyX => "X"@,
        KeyCode::KeyY => "Y"@,
        KeyCode::KeyZ => "Z"@,
        KeyCode::Digit0 => "0"@,
        KeyCode::Digit1 => "1"@,
        KeyCode::Digit2 => "2"@,
        KeyCode::Digit3 => "3"@,
        KeyCode::Digit4 => "4"@,
        KeyCode::Digit5 => "5"@,
        KeyCode::Digit6 => "6"@,
        KeyCode::Digit7 => "7"@,
        KeyCode::Digit8 => "8"@,
        KeyCode::Digit9 => "9"@,
        KeyCode::ArrowUp => "Up"@,
        KeyCode::ArrowDown => "Down"@,
        KeyCode::ArrowLeft => "Left"@,
        KeyCode::ArrowRight => "Right"@,
        KeyCode::Home => "Home"@,
        KeyCode::End => "End"@,
        KeyCode::PageUp => "Page Up"@,
        KeyCode::PageDown => "Page Down"@,
        KeyCode::Insert => "Insert"@,
        KeyCode::Delete => "Delete"@,
        KeyCode::Escape => "Esc"@,
        KeyCode::Tab => "Tab"@,
        KeyCode::Space => "Space"@,
        KeyCode::Enter => "Enter"@,
        KeyCode::Backspace => "Backspace"@,
        KeyCode::PrintScreen => "Print Screen"@,
        KeyCode::ScrollLock => "Scroll Lock"@,
        KeyCode::Pause => "Pause"@,
        KeyCode::Minus => "-"@,
        KeyCode::Equal => "="@,
        KeyCode::BracketLeft => "["@,
        KeyCode::BracketRight => "]"@,
        KeyCode::Backslash => "\\"@,
        KeyCode::Semicolon => ";"@,
        KeyCode::Quote => "'"@,
        KeyCode::Backquote => "`"@,
        KeyCode::Comma => ","@,
        KeyCode::Period => "."@,
        KeyCode::Slash => "/"@,
        KeyCode::Numpad0 => "Num 0"@,
        KeyCode::Numpad1 => "Num 1"@,
        KeyCode::Numpad2 => "Num 2"@,
        KeyCode::Numpad3 => "Num 3"@,
        KeyCode::Numpad4 => "Num 4"@,
        KeyCode::Numpad5 => "Num 5"@,
        KeyCode::Numpad6 => "Num 6"@,
        KeyCode::Numpad7 => "Num 7"@,
        KeyCode::Numpad8 => "Num 8"@,
        KeyCode::Numpad9 => "Num 9"@,
        KeyCode::NumpadMultiply => "Num *"@,
        KeyCode::NumpadAdd => "Num +"@,
        KeyCode::NumpadSubtract => "Num -"@,
        KeyCode::NumpadDecimal => "Num ."@,
        KeyCode::NumpadDivide => "Num /"@,
        KeyCode::NumLock => "Num Lock"@,
    }
}

/// The variant name of each key, which is also its `Debug` text.
pub open spec fn key_debug_name(k: KeyCode) -> Seq<char> {
    match k {
        KeyCode::RightAlt => "RightAlt"@,
        KeyCode::LeftAlt => "LeftAlt"@,
        KeyCode::RightControl => "RightControl"@,
        KeyCode::LeftControl => "LeftControl"@,
        KeyCode::RightShift => "RightShift"@,
        KeyCode::LeftShift => "LeftShift"@,
        KeyCode::CapsLock => "CapsLock"@,
        KeyCode::LeftMeta => "LeftMeta"@,
        KeyCode::RightMeta => "RightMeta"@,
        KeyCode::F1 => "F1"@,
        KeyCode::F2 => "F2"@,
        KeyCode::F3 => "F3"@,
        KeyCode::F4 => "F4"@,
        KeyCode::F5 => "F5"@,
        KeyCode::F6 => "F6"@,
        KeyCode::F7 => "F7"@,
        KeyCode::F8 => "F8"@,
        KeyCode::F9 => "F9"@,
        KeyCode::F10 => "F10"@,
        KeyCode::F11 => "F11"@,
        KeyCode::F12 => "F12"@,
        KeyCode::F13 => "F13"@,
        KeyCode::F14 => "F14"@,
        KeyCode::F15 => "F15"@,
        KeyCode::F16 => "F16"@,
        KeyCode::F17 => "F17"@,
        KeyCode::F18 => "F18"@,
        KeyCode::F19 => "F19"@,
        KeyCode::F20 => "F20"@,
        KeyCode::F21 => "F21"@,
        KeyCode::F22 => "F22"@,
        KeyCode::F23 => "F23"@,
        KeyCode::F24 => "F24"@,
        KeyCode::KeyA => "KeyA"@,
        KeyCode::KeyB => "KeyB"@,
        KeyCode::KeyC => "KeyC"@,
        KeyCode::KeyD => "KeyD"@,
        KeyCode::KeyE => "KeyE"@,
        KeyCode::KeyF => "KeyF"@,
        KeyCode::KeyG => "KeyG"@,
        KeyCode::KeyH => "KeyH"@,
        KeyCode::KeyI => "KeyI"@,
        KeyCode::KeyJ => "KeyJ"@,
        KeyCode::KeyK => "KeyK"@,
        KeyCode::KeyL => "KeyL"@,
        KeyCode::KeyM => "KeyM"@,
        KeyCode::KeyN => "KeyN"@,
        KeyCode::KeyO => "KeyO"@,
        KeyCode::KeyP => "KeyP"@,
        KeyCode::KeyQ => "KeyQ"@,
        KeyCode::KeyR => "KeyR"@,
        KeyCode::KeyS => "KeyS"@,
        KeyCode::KeyT => "KeyT"@,
        KeyCode::KeyU => "KeyU"@,
        KeyCode::KeyV => "KeyV"@,
        KeyCode::KeyW => "KeyW"@,
        KeyCode::KeyX => "KeyX"@,
        KeyCode::KeyY => "KeyY"@,
        KeyCode::KeyZ => "KeyZ"@,
        KeyCode::Digit0 => "Digit0"@,
        KeyCode::Digit1 => "Digit1"@,
        KeyCode::Digit2 => "Digit2"@,
        KeyCode::Digit3 => "Digit3"@,
        KeyCode::Digit4 => "Digit4"@,
        KeyCode::Digit5 => "Digit5"@,
        KeyCode::Digit6 => "Digit6"@,
        KeyCode::Digit7 => "Digit7"@,
        KeyCode::Digit8 => "Digit8"@,
        KeyCode::Digit9 => "Digit9"@,
        KeyCode::ArrowUp => "ArrowUp"@,
        KeyCode::ArrowDown => "ArrowDown"@,
        KeyCode::ArrowLeft => "ArrowLeft"@,
        KeyCode::ArrowRight => "ArrowRight"@,
        KeyCode::Home => "Home"@,
        KeyCode::End => "End"@,
        KeyCode::PageUp => "PageUp"@,
        KeyCode::PageDown => "PageDown"@,
        KeyCode::Insert => "Insert"@,
        KeyCode::Delete => "Delete"@,
        KeyCode::Escape => "Escape"@,
        KeyCode::Tab => "Tab"@,
        KeyCode::Space => "Space"@,
        KeyCode::Enter => "Enter"@,
        KeyCode::Backspace => "Backspace"@,
        KeyCode::PrintScreen => "PrintScreen"@,
        KeyCode::ScrollLock => "ScrollLock"@,
        KeyCode::Pause => "Pause"@,
        KeyCode::Minus => "Minus"@,
        KeyCode::Equal => "Equal"@,
        KeyCode::BracketLeft => "BracketLeft"@,
        KeyCode::BracketRight => "BracketRight"@,
        KeyCode::Backslash => "Backslash"@,
        KeyCode::Semicolon => "Semicolon"@,
        KeyCode::Quote => "Quote"@,
        KeyCode::Backquote => "Backquote"@,
        KeyCode::Comma => "Comma"@,
        KeyCode::Period => "Period"@,
        KeyCode::Slash => "Slash"@,
        KeyCode::Numpad0 => "Numpad0"@,
        KeyCode::Numpad1 => "Numpad1"@,
        KeyCode::Numpad2 => "Numpad2"@,
        KeyCode::Numpad3 => "Numpad3"@,
        KeyCode::Numpad4 => "Numpad4"@,
        KeyCode::Numpad5 => "Numpad5"@,
        KeyCode::Numpad6 => "Numpad6"@,
        KeyCode::Numpad7 => "Numpad7"@,
        KeyCode::Numpad8 => "Numpad8"@,
        KeyCode::Numpad9 => "Numpad9"@,
        KeyCode::NumpadMultiply => "NumpadMultiply"@,
        KeyCode::NumpadAdd => "NumpadAdd"@,
        KeyCode::NumpadSubtract => "NumpadSubtract"@,
        KeyCode::NumpadDecimal => "NumpadDecimal"@,
        KeyCode::NumpadDivide => "NumpadDivide"@,
        KeyCode::NumLock => "NumLock"@,
    }
}

/// Modifier keys are listed first when a combination is displayed.
pub open spec fn key_is_modifier(k: KeyCode) -> bool {
    ||| k == KeyCode::LeftControl
    ||| k == KeyCode::RightControl
    ||| k == KeyCode::LeftAlt
    ||| k == KeyCode::RightAlt
    ||| k == KeyCode::LeftShift
    ||| k == KeyCode::RightShift
    ||| k == KeyCode::LeftMeta
    ||| k == KeyCode::RightMeta
}

impl KeyCode {
    /// Get a human-readable display name for the key.
    pub fn display_name(&self) -> (r: &'static str)
        ensures
            r@ == key_display_name(*self),
    {
        match self {
            KeyCode::RightAlt => "Right Alt",
            KeyCode::LeftAlt => "Left Alt",
            KeyCode::RightControl => "Right Ctrl",
            KeyCode::LeftControl => "Left Ctrl",
            KeyCode::RightShift => "Right Shift",
            KeyCode::LeftShift => "Left Shift",
            KeyCode::CapsLock => "Caps Lock",
            KeyCode::LeftMeta => "Left Win",
            KeyCode::RightMeta => "Right Win",
            KeyCode::F1 => "F1",
            KeyCode::F2 => "F2",
            KeyCode::F3 => "F3",
            KeyCode::F4 => "F4",
            KeyCode::F5 => "F5",
            KeyCode::F6 => "F6",
            KeyCode::F7 => "F7",
            KeyCode::F8 => "F8",
            KeyCode::F9 => "F9",
            KeyCode::F10 => "F10",
            KeyCode::F11 => "F11",
            KeyCode::F12 => "F12",
            KeyCode::F13 => "F13",
            KeyCode::F14 => "F14",
            KeyCode::F15 => "F15",
            KeyCode::F16 => "F16",
            KeyCode::F17 => "F17",
            KeyCode::F18 => "F18",
            KeyCode::F19 => "F19",
            KeyCode::F20 => "F20",
            KeyCode::F21 => "F21",
            KeyCode::F22 => "F22",
            KeyCode::F23 => "F23",
            KeyCode::F24 => "F24",
            KeyCode::KeyA => "A",
            KeyCode::KeyB => "B",
            KeyCode::KeyC => "C",
            KeyCode::KeyD => "D",
            KeyCode::KeyE => "E",
            KeyCode::KeyF => "F",
            KeyCode::KeyG => "G",
            KeyCode::KeyH => "H",
            KeyCode::KeyI => "I",
            KeyCode::KeyJ => "J",
            KeyCode::KeyK => "K",
            KeyCode::KeyL => "L",
            KeyCode::KeyM => "M",
            KeyCode::KeyN => "N",
            KeyCode::KeyO => "O",
            KeyCode::KeyP => "P",
            KeyCode::KeyQ => "Q",
            KeyCode::KeyR => "R",
            KeyCode::KeyS => "S",
            KeyCode::KeyT => "T",
            KeyCode::KeyU => "U",
            KeyCode::KeyV => "V",
            KeyCode::KeyW => "W",
            KeyCode::KeyX => "X",
            KeyCode::KeyY => "Y",
            KeyCode::KeyZ => "Z",
            KeyCode::Digit0 => "0",
            KeyCode::Digit1 => "1",
            KeyCode::Digit2 => "2",
            KeyCode::Digit3 => "3",
            KeyCode::Digit4 => "4",
            KeyCode::Digit5 => "5",
            KeyCode::Digit6 => "6",
            KeyCode::Digit7 => "7",
            KeyCode::Digit8 => "8",
            KeyCode::Digit9 => "9",
            KeyCode::ArrowUp => "Up",
            KeyCode::ArrowDown => "Down",
            KeyCode::ArrowLeft => "Left",
            KeyCode::ArrowRight => "Right",
            KeyCode::Home => "Home",
            KeyCode::End => "End",
            KeyCode::PageUp => "Page Up",
            KeyCode::PageDown => "Page Down",
            KeyCode::Insert => "Insert",
            KeyCode::Delete => "Delete",
            KeyCode::Escape => "Esc",
            KeyCode::Tab => "Tab",
            KeyCode::Space => "Space",
            KeyCode::Enter => "Enter",
            KeyCode::Backspace => "Backspace",
            KeyCode::PrintScreen => "Print Screen",
            KeyCode::ScrollLock => "Scroll Lock",
            KeyCode::Pause => "Pause",
            KeyCode::Minus => "-",
            KeyCode::Equal => "=",
            KeyCode::BracketLeft => "[",
            KeyCode::BracketRight => "]",
            KeyCode::Backslash => "\\",
            KeyCode::Semicolon => ";",
            KeyCode::Quote => "'",
            KeyCode::Backquote => "`",
            KeyCode::Comma => ",",
            KeyCode::Period => ".",
            KeyCode::Slash => "/",
            KeyCode::Numpad0 => "Num 0",
            KeyCode::Numpad1 => "Num 1",
            KeyCode::Numpad2 => "Num 2",
            KeyCode::Numpad3 => "Num 3",
            KeyCode::Numpad4 => "Num 4",
            KeyCode::Numpad5 => "Num 5",
            KeyCode::Numpad6 => "Num 6",
            KeyCode::Numpad7 => "Num 7",
            KeyCode::Numpad8 => "Num 8",
            KeyCode::Numpad9 => "Num 9",
            KeyCode::NumpadMultiply => "Num *",
            KeyCode::NumpadAdd => "Num +",
            KeyCode::NumpadSubtract => "Num -",
            KeyCode::NumpadDecimal => "Num .",
            KeyCode::NumpadDivide => "Num /",
            KeyCode::NumLock => "Num Lock",
        }
    }

    /// The variant name of the key (its `Debug` text), used as the sort key.
    pub fn debug_name(&self) -> (r: &'static str)
        ensures
            r@ == key_debug_name(*self),
    {
        match self {
            KeyCode::RightAlt => "RightAlt",
            KeyCode::LeftAlt => "LeftAlt",
            KeyCode::RightControl => "RightControl",
            KeyCode::LeftControl => "LeftControl",
            KeyCode::RightShift => "RightShift",
            KeyCode::LeftShift => "LeftShift",
            KeyCode::CapsLock => "CapsLock",
            KeyCode::LeftMeta => "LeftMeta",
            KeyCode::RightMeta => "RightMeta",
            KeyCode::F1 => "F1",
            KeyCode::F2 => "F2",
            KeyCode::F3 => "F3",
            KeyCode::F4 => "F4",
            KeyCode::F5 => "F5",
            KeyCode::F6 => "F6",
            KeyCode::F7 => "F7",
            KeyCode::F8 => "F8",
            KeyCode::F9 => "F9",
            KeyCode::F10 => "F10",
            KeyCode::F11 => "F11",
            KeyCode::F12 => "F12",
            KeyCode::F13 => "F13",
            KeyCode::F14 => "F14",
            KeyCode::F15 => "F15",
            KeyCode::F16 => "F16",
            KeyCode::F17 => "F17",
            KeyCode::F18 => "F18",
            KeyCode::F19 => "F19",
            KeyCode::F20 => "F20",
            KeyCode::F21 => "F21",
            KeyCode::F22 => "F22",
            KeyCode::F23 => "F23",
            KeyCode::F24 => "F24",
            KeyCode::KeyA => "KeyA",
            KeyCode::KeyB => "KeyB",
            KeyCode::KeyC => "KeyC",
            KeyCode::KeyD => "KeyD",
            KeyCode::KeyE => "KeyE",
            KeyCode::KeyF => "KeyF",
            KeyCode::KeyG => "KeyG",
            KeyCode::KeyH => "KeyH",
            KeyCode::KeyI => "KeyI",
            KeyCode::KeyJ => "KeyJ",
            KeyCode::KeyK => "KeyK",
            KeyCode::KeyL => "KeyL",
            KeyCode::KeyM => "KeyM",
            KeyCode::KeyN => "KeyN",
            KeyCode::KeyO => "KeyO",
            KeyCode::KeyP => "KeyP",
            KeyCode::KeyQ => "KeyQ",
            KeyCode::KeyR => "KeyR",
            KeyCode::KeyS => "KeyS",
            KeyCode::KeyT => "KeyT",
            KeyCode::KeyU => "KeyU",
            KeyCode::KeyV => "KeyV",
            KeyCode::KeyW => "KeyW",
            KeyCode::KeyX => "KeyX",
            KeyCode::KeyY => "KeyY",
            KeyCode::KeyZ => "KeyZ",
            KeyCode::Digit0 => "Digit0",
            KeyCode::Digit1 => "Digit1",
            KeyCode::Digit2 => "Digit2",
            KeyCode::Digit3 => "Digit3",
            KeyCode::Digit4 => "Digit4",
            KeyCode::Digit5 => "Digit5",
            KeyCode::Digit6 => "Digit6",
            KeyCode::Digit7 => "Digit7",
            KeyCode::Digit8 => "Digit8",
            KeyCode::Digit9 => "Digit9",
            KeyCode::ArrowUp => "ArrowUp",
            KeyCode::ArrowDown => "ArrowDown",
            KeyCode::ArrowLeft => "ArrowLeft",
            KeyCode::ArrowRight => "ArrowRight",
            KeyCode::Home => "Home",
            KeyCode::End => "End",
            KeyCode::PageUp => "PageUp",
            KeyCode::PageDown => "PageDown",
            KeyCode::Insert => "Insert",
            KeyCode::Delete => "Delete",
            KeyCode::Escape => "Escape",
            KeyCode::Tab => "Tab",
            KeyCode::Space => "Space",
            KeyCode::Enter => "Enter",
            KeyCode::Backspace => "Backspace",
            KeyCode::PrintScreen => "PrintScreen",
            KeyCode::ScrollLock => "ScrollLock",
            KeyCode::Pause => "Pause",
            KeyCode::Minus => "Minus",
            KeyCode::Equal => "Equal",
            KeyCode::BracketLeft => "BracketLeft",
            KeyCode::BracketRight => "BracketRight",
            KeyCode::Backslash => "Backslash",
            KeyCode::Semicolon => "Semicolon",
            KeyCode::Quote => "Quote",
            KeyCode::Backquote => "Backquote",
            KeyCode::Comma => "Comma",
            KeyCode::Period => "Period",
            KeyCode::Slash => "Slash",
            KeyCode::Numpad0 => "Numpad0",
            KeyCode::Numpad1 => "Numpad1",
            KeyCode::Numpad2 => "Numpad2",
            KeyCode::Numpad3 => "Numpad3",
            KeyCode::Numpad4 => "Numpad4",
            KeyCode::Numpad5 => "Numpad5",
            KeyCode::Numpad6 => "Numpad6",
            KeyCode::Numpad7 => "Numpad7",
            KeyCode::Numpad8 => "Numpad8",
            KeyCode::Numpad9 => "Numpad9",
            KeyCode::NumpadMultiply => "NumpadMultiply",
            KeyCode::NumpadAdd => "NumpadAdd",
            KeyCode::NumpadSubtract => "NumpadSubtract",
            KeyCode::NumpadDecimal => "NumpadDecimal",
            KeyCode::NumpadDivide => "NumpadDivide",
            KeyCode::NumLock => "NumLock",
        }
    }

    /// Whether this key is a modifier key (used for display ordering).
    pub fn is_modifier(&self) -> (r: bool)
        ensures
            r == key_is_modifier(*self),
    {
        matches!(
            self,
            KeyCode::LeftControl | KeyCode::RightControl | KeyCode::LeftAlt | KeyCode::RightAlt
                | KeyCode::LeftShift | KeyCode::RightShift | KeyCode::LeftMeta | KeyCode::RightMeta
        )
    }
}

/// The keys of `s` are in non-decreasing order of their `Debug` names.
pub open spec fn keys_sorted_by_name(s: Seq<KeyCode>) -> bool {
    forall|i: int, j: int|
        0 <= i < j < s.len() ==> !seq_lt(
            #[trigger] key_debug_name(s[j]),
            #[trigger] key_debug_name(s[i]),
        )
}

/// Insert `x` into a name-sorted vector at the first position whose key sorts after it.
fn insert_sorted_by_name(v: &mut Vec<KeyCode>, x: KeyCode)
    requires
        keys_sorted_by_name(old(v)@),
    ensures
        keys_sorted_by_name(final(v)@),
        exists|p: int| 0 <= p <= old(v)@.len() && final(v)@ == old(v)@.insert(p, x),
{
    let xname = x.debug_name();
    let mut p: usize = 0;
    let mut found = false;
    while p < v.len() && !found
        invariant
            0 <= p <= v@.len(),
            v@ == old(v)@,
            keys_sorted_by_name(v@),
            xname@ == key_debug_name(x),
            found ==> p < v@.len() && seq_lt(xname@, key_debug_name(v@[p as int])),
            forall|i: int| 0 <= i < p ==> !seq_lt(xname@, #[trigger] key_debug_name(v@[i])),
        decreases v@.len() - p, (if found { 0int } else { 1int }),
    {
        let n = v[p].debug_name();
        if str_lt(xname, n) {
            found = true;
        } else {
            p = p + 1;
        }
    }
    let ghost before = v@;
    proof {
        if p < before.len() {
            assert(found);
            assert(seq_lt(key_debug_name(x), key_debug_name(before[p as int])));
        }
    }
    v.insert(p, x);
    proof {
        let after = v@;
        assert(after == before.insert(p as int, x));
        assert forall|i: int, j: int| 0 <= i < j < after.len() implies !seq_lt(
            #[trigger] key_debug_name(after[j]),
            #[trigger] key_debug_name(after[i]),
        ) by {
            if j < p {
                assert(after[i] == before[i] && after[j] == before[j]);
            } else if j == p {
                assert(after[i] == before[i]);
            } else if i < p {
                assert(after[i] == before[i] && after[j] == before[j - 1]);
                if i + 1 < j {
                } 
            } else if i == p {
                assert(after[j] == before[j - 1]);
                assert(seq_lt(key_debug_name(x), key_debug_name(before[p as int])));
                if seq_lt(key_debug_name(before[j - 1]), key_debug_name(x)) {
                    lemma_seq_lt_transitive(
                        key_debug_name(before[j - 1]),
                        key_debug_name(x),
                        key_debug_name(before[p as int]),
                    );
                    if p < j - 1 {
                    } else {
                        lemma_seq_lt_irreflexive(key_debug_name(before[p as int]));
                    }
                }
            } else {
                assert(after[i] == before[i - 1] && after[j] == before[j - 1]);
            }
        }
    }
}

/// Sort keys by their `Debug` names, keeping every occurrence.
pub fn sort_keys_by_name(keys: &Vec<KeyCode>) -> (r: Vec<KeyCode>)
    ensures
        r@.to_multiset() == keys@.to_multiset(),
        keys_sorted_by_name(r@),
{
    broadcast use vstd::seq_lib::to_multiset_insert, vstd::seq_lib::to_multiset_build;
    let mut res: Vec<KeyCode> = Vec::new();
    let mut i: usize = 0;
    assert(keys@.subrange(0, 0) =~= res@);
    while i < keys.len()
        invariant
            0 <= i <= keys@.len(),
            keys_sorted_by_name(res@),
            res@.to_multiset() == keys@.subrange(0, i as int).to_multiset(),
        decreases keys@.len() - i,
    {
        let x = keys[i];
        let ghost before = res@;
        insert_sorted_by_name(&mut res, x);
        proof {
            let p = choose|p: int| 0 <= p <= before.len() && res@ == before.insert(p, x);
            vstd::seq_lib::to_multiset_insert(before, p, x);
            assert(res@.to_multiset() == before.to_multiset().insert(x));
            assert(keys@.subrange(0, i + 1) =~= keys@.subrange(0, i as int).push(x));
            vstd::seq_lib::to_multiset_build(keys@.subrange(0, i as int), x);
        }
        i = i + 1;
    }
    assert(keys@.subrange(0, keys@.len() as int) =~= keys@);
    res
}

/// A set of keys (for example, the keys currently held down).
pub struct KeySet {
    keys: Vec<KeyCode>,
}

impl View for KeySet {
    type V = Set<KeyCode>;

    closed spec fn view(&self) -> Set<KeyCode> {
        self.keys@.to_set()
    }
}

impl KeySet {
    /// A key set never stores a key twice.
    pub closed spec fn wf(&self) -> bool {
        self.keys@.no_duplicates()
    }

    pub fn new() -> (r: Self)
        ensures
            r.wf(),
            r@ == Set::<KeyCode>::empty(),
    {
        let r = KeySet { keys: Vec::new() };
        assert(r.keys@.to_set() =~= Set::<KeyCode>::empty());
        r
    }

    pub fn contains(&self, k: &KeyCode) -> (r: bool)
        ensures
            r == self@.contains(*k),
    {
        let mut i: usize = 0;
        while i < self.keys.len()
            invariant
                0 <= i <= self.keys@.len(),
                forall|j: int| 0 <= j < i ==> self.keys@[j] != *k,
            decreases self.keys@.len() - i,
        {
            if self.keys[i] == *k {
                assert(self.keys@.to_set().contains(self.keys@[i as int]));
                return true;
            }
            i = i + 1;
        }
        proof {
            if self.keys@.to_set().contains(*k) {
                let j = choose|j: int| 0 <= j < self.keys@.len() && self.keys@[j] == *k;
            }
        }
        false
    }

    pub fn insert(&mut self, k: KeyCode)
        requires
            old(self).wf(),
        ensures
            final(self).wf(),
            final(self)@ == old(self)@.insert(k),
    {
        if !self.contains(&k) {
            let ghost before = self.keys@;
            self.keys.push(k);
            proof {
                assert(self.keys@ == before.push(k));
                assert(self.keys@.to_set() =~= before.to_set().insert(k)) by {
                    assert forall|x: KeyCode| self.keys@.to_set().contains(x) implies before.to_set().insert(k).contains(x) by {
                        let j = choose|j: int| 0 <= j < self.keys@.len() && self.keys@[j] == x;
                        if j < before.len() {
                            assert(before[j] == x);
                        }
                    }
                    assert forall|x: KeyCode| before.to_set().insert(k).contains(x) implies self.keys@.to_set().contains(x) by {
                        if x == k {
                            assert(self.keys@[before.len() as int] == k);
                        } else {
                            let j = choose|j: int| 0 <= j < before.len() && before[j] == x;
                            assert(self.keys@[j] == x);
                        }
                    }
                }
                assert forall|a: int, b: int| 0 <= a < b < self.keys@.len() implies self.keys@[a] != self.keys@[b] by {
                    if b == before.len() {
                        assert(before.to_set().contains(before[a]));
                    }
                }
            }
        } else {
            assert(old(self)@.insert(k) =~= old(self)@);
        }
    }

    pub fn remove(&mut self, k: &KeyCode)
        requires
            old(self).wf(),
        ensures
            final(self).wf(),
            final(self)@ == old(self)@.remove(*k),
    {
        let mut i: usize = 0;
        while i < self.keys.len()
            invariant
                0 <= i <= self.keys@.len(),
                self.keys@ == old(self).keys@,
                self.keys@.no_duplicates(),
                forall|j: int| 0 <= j < i ==> self.keys@[j] != *k,
            decreases self.keys@.len() - i,
        {
            if self.keys[i] == *k {
                let ghost before = self.keys@;
                self.keys.remove(i);
                proof {
                    let after = self.keys@;
                    assert(after == before.remove(i as int));
                    before.remove_ensures(i as int);
                    assert forall|a: int, b: int| 0 <= a < b < after.len() implies after[a] != after[b] by {
                        let a2 = if a < i { a } else { a + 1 };
                        let b2 = if b < i { b } else { b + 1 };
                        assert(after[a] == before[a2] && after[b] == before[b2]);
                    }
                    assert(after.to_set() =~= before.to_set().remove(*k)) by {
                        assert forall|x: KeyCode| after.to_set().contains(x) implies before.to_set().remove(*k).contains(x) by {
                            let j = choose|j: int| 0 <= j < after.len() && after[j] == x;
                            let j2 = if j < i { j } else { j + 1 };
                            assert(before[j2] == x);
                            assert(before[i as int] == *k);
                        }
                        assert forall|x: KeyCode| before.to_set().remove(*k).contains(x) implies after.to_set().contains(x) by {
                            let j = choose|j: int| 0 <= j < before.len() && before[j] == x;
                            if j < i {
                                assert(after[j] == x);
                            } else {
                                assert(after[j - 1] == x);
                            }
                        }
                    }
                }
                return;
            }
            i = i + 1;
        }
        proof {
            assert(!self.keys@.to_set().contains(*k));
            assert(old(self)@.remove(*k) =~= old(self)@);
        }
    }
}

/// A set of keys that must all be held simultaneously to trigger a hotkey.
/// Two combinations with the same keys in a different order are equal.
#[derive(Debug)]
pub struct HotkeyCombination {
    /// One or more keys that must be held together.
    pub keys: Vec<KeyCode>,
}

/// Keys joined by `" + "`, each by its display name.
pub open spec fn join_display_names(s: Seq<KeyCode>) -> Seq<char>
    decreases s.len(),
{
    if s.len() == 0 {
        Seq::<char>::empty()
    } else if s.len() == 1 {
        key_display_name(s[0])
    } else {
        join_display_names(s.drop_last()) + " + "@ + key_display_name(s.last())
    }
}

/// `text` is the display of `keys`: modifiers first, then the other keys, each
/// group sorted by `Debug` name, joined by `" + "`.
pub open spec fn is_combination_display(keys: Seq<KeyCode>, text: Seq<char>) -> bool {
    exists|m: Seq<KeyCode>, o: Seq<KeyCode>|
        {
            &&& m.to_multiset() == keys.filter(|k: KeyCode| key_is_modifier(k)).to_multiset()
            &&& o.to_multiset() == keys.filter(|k: KeyCode| !key_is_modifier(k)).to_multiset()
            &&& keys_sorted_by_name(m)
            &&& keys_sorted_by_name(o)
            &&& text == join_display_names(m + o)
        }
}

impl HotkeyCombination {
    /// Create a new combination from a list of keys.
    /// Duplicates are removed and keys are sorted for consistent representation.
    pub fn new(keys: Vec<KeyCode>) -> (r: Self)
        ensures
            is_canonical_keys(keys@, r.keys@),
    {
        let mut res: Vec<KeyCode> = Vec::new();
        let mut seen = KeySet::new();
        let mut i: usize = 0;
        while i < keys.len()
            invariant
                0 <= i <= keys@.len(),
                seen.wf(),
                seen@ == res@.to_set(),
                res@.to_set() == keys@.subrange(0, i as int).to_set(),
                res@.no_duplicates(),
                keys_sorted_by_name(res@),
            decreases keys@.len() - i,
        {
            let x = keys[i];
            let ghost before = res@;
            if !seen.contains(&x) {
                insert_sorted_by_name(&mut res, x);
                seen.insert(x);
                proof {
                    let p = choose|p: int| 0 <= p <= before.len() && res@ == before.insert(p, x);
                    assert(res@.to_set() =~= before.to_set().insert(x)) by {
                        assert forall|y: KeyCode| res@.to_set().contains(y) implies before.to_set().insert(x).contains(y) by {
                            let j = choose|j: int| 0 <= j < res@.len() && res@[j] == y;
                            if j < p {
                                assert(before[j] == y);
                            } else if j > p {
                                assert(before[j - 1] == y);
                            }
                        }
                        assert forall|y: KeyCode| before.to_set().insert(x).contains(y) implies res@.to_set().contains(y) by {
                            if y == x {
                                assert(res@[p] == x);
                            } else {
                                let j = choose|j: int| 0 <= j < before.len() && before[j] == y;
                                if j < p {
                                    assert(res@[j] == y);
                                } else {
                                    assert(res@[j + 1] == y);
                                }
                            }
                        }
                    }
                    assert forall|a: int, b: int| 0 <= a < b < res@.len() implies res@[a] != res@[b] by {
                        if a == p {
                            if res@[a] == res@[b] {
                                assert(before.to_set().contains(before[b - 1]));
                            }
                        } else if b == p {
                            if res@[a] == res@[b] {
                                assert(before.to_set().contains(before[a]));
                            }
                        } else {
                            let a2 = if a < p { a } else { a - 1 };
                            let b2 = if b < p { b } else { b - 1 };
                            assert(res@[a] == before[a2] && res@[b] == before[b2]);
                        }
                    }
                }
            }
            proof {
                assert(keys@.subrange(0, i + 1) =~= keys@.subrange(0, i as int).push(x));
                assert(keys@.subrange(0, i + 1).to_set() =~= keys@.subrange(0, i as int).to_set().insert(x)) by {
                    let s = keys@.subrange(0, i as int);
                    assert forall|y: KeyCode| s.push(x).to_set().contains(y) implies s.to_set().insert(x).contains(y) by {
                        let j = choose|j: int| 0 <= j < s.push(x).len() && s.push(x)[j] == y;
                        if j < s.len() {
                            assert(s[j] == y);
                        }
                    }
                    assert forall|y: KeyCode| s.to_set().insert(x).contains(y) implies s.push(x).to_set().contains(y) by {
                        if y == x {
                            assert(s.push(x)[s.len() as int] == x);
                        } else {
                            let j = choose|j: int| 0 <= j < s.len() && s[j] == y;
                            assert(s.push(x)[j] == y);
                        }
                    }
                }
            }
            i = i + 1;
        }
        assert(keys@.subrange(0, keys@.len() as int) =~= keys@);
        HotkeyCombination { keys: res }
    }

    /// Create a single-key combination.
    pub fn single(key: KeyCode) -> (r: Self)
        ensures
            r.keys@ == seq![key],
    {
        let mut keys: Vec<KeyCode> = Vec::new();
        keys.push(key);
        HotkeyCombination { keys }
    }

    /// Check whether all keys in this combination are currently held.
    pub fn is_subset_of(&self, pressed: &KeySet) -> (r: bool)
        ensures
            r == (forall|i: int| 0 <= i < self.keys@.len() ==> pressed@.contains(#[trigger] self.keys@[i])),
    {
        let mut i: usize = 0;
        while i < self.keys.len()
            invariant
                0 <= i <= self.keys@.len(),
                forall|j: int| 0 <= j < i ==> pressed@.contains(#[trigger] self.keys@[j]),
            decreases self.keys@.len() - i,
        {
            if !pressed.contains(&self.keys[i]) {
                return false;
            }
            i = i + 1;
        }
        true
    }

    /// Display the combination in human-readable format.
    /// Modifiers are listed first, then other keys, joined by " + ".
    pub fn display(&self) -> (r: String)
        ensures
            is_combination_display(self.keys@, r@),
    {
        let mut modifiers: Vec<KeyCode> = Vec::new();
        let mut others: Vec<KeyCode> = Vec::new();
        let mut i: usize = 0;
        while i < self.keys.len()
            invariant
                0 <= i <= self.keys@.len(),
                modifiers@ == self.keys@.subrange(0, i as int).filter(|k: KeyCode| key_is_modifier(k)),
                others@ == self.keys@.subrange(0, i as int).filter(|k: KeyCode| !key_is_modifier(k)),
            decreases self.keys@.len() - i,
        {
            let k = self.keys[i];
            proof {
                let s = self.keys@.subrange(0, i + 1);
                assert(s.drop_last() =~= self.keys@.subrange(0, i as int));
                assert(s.last() == k);
                reveal_with_fuel(Seq::<_>::filter, 1);
            }
            if k.is_modifier() {
                modifiers.push(k);
            } else {
                others.push(k);
            }
            i = i + 1;
        }
        assert(self.keys@.subrange(0, self.keys@.len() as int) =~= self.keys@);
        let m = sort_keys_by_name(&modifiers);
        let o = sort_keys_by_name(&others);
        let mut all: Vec<KeyCode> = Vec::new();
        let mut j: usize = 0;
        while j < m.len()
            invariant
                0 <= j <= m@.len(),
                all@ == m@.subrange(0, j as int),
            decreases m@.len() - j,
        {
            all.push(m[j]);
            proof {
                assert(m@.subrange(0, j + 1) =~= m@.subrange(0, j as int).push(m@[j as int]));
            }
            j = j + 1;
        }
        let mut j: usize = 0;
        while j < o.len()
            invariant
                0 <= j <= o@.len(),
                all@ == m@ + o@.subrange(0, j as int),
            decreases o@.len() - j,
        {
            proof {
                assert(m@.subrange(0, m@.len() as int) =~= m@);
            }
            all.push(o[j]);
            proof {
                assert(o@.subrange(0, j + 1) =~= o@.subrange(0, j as int).push(o@[j as int]));
                assert(m@ + o@.subrange(0, j + 1) =~= (m@ + o@.subrange(0, j as int)).push(o@[j as int]));
            }
            j = j + 1;
        }
        proof {
            assert(m@.subrange(0, m@.len() as int) =~= m@);
            assert(o@.subrange(0, o@.len() as int) =~= o@);
        }
        let ghost allv = all@;
        let mut text = String::new();
        let mut k: usize = 0;
        while k < all.len()
            invariant
                0 <= k <= all@.len(),
                all@ == allv,
                text@ == join_display_names(allv.subrange(0, k as int)),
            decreases all@.len() - k,
        {
            proof {
                let s = allv.subrange(0, k + 1);
                assert(s.drop_last() =~= allv.subrange(0, k as int));
            }
            if k > 0 {
                text.append(" + ");
            }
            text.append(all[k].display_name());
            proof {
                if k == 0 {
                    assert(Seq::<char>::empty() + key_display_name(allv[0]) =~= key_display_name(allv[0]));
                }
            }
            k = k + 1;
        }
        assert(allv.subrange(0, allv.len() as int) =~= allv);
        assert(is_combination_display(self.keys@, text@)) by {
            assert(text@ == join_display_names(m@ + o@));
        }
        text
    }
}

impl Default for HotkeyCombination {
    fn default() -> (r: Self)
        ensures
            r.keys@ == seq![KeyCode::RightAlt],
    {
        HotkeyCombination::single(KeyCode::RightAlt)
    }
}

impl PartialEq for HotkeyCombination {
    fn eq(&self, other: &Self) -> (r: bool) {
        let mut i: usize = 0;
        while i < self.keys.len()
            invariant
                0 <= i <= self.keys@.len(),
                forall|j: int| 0 <= j < i ==> other.keys@.contains(#[trigger] self.keys@[j]),
            decreases self.keys@.len() - i,
        {
            if !contains_key(&other.keys, &self.keys[i]) {
                proof {
                    assert(self.keys@.to_set().contains(self.keys@[i as int]));
                    assert(!other.keys@.to_set().contains(self.keys@[i as int]));
                }
                return false;
            }
            i = i + 1;
        }
        let mut j: usize = 0;
        while j < other.keys.len()
            invariant
                0 <= j <= other.keys@.len(),
                forall|t: int| 0 <= t < self.keys@.len() ==> other.keys@.contains(#[trigger] self.keys@[t]),
                forall|t: int| 0 <= t < j ==> self.keys@.contains(#[trigger] other.keys@[t]),
            decreases other.keys@.len() - j,
        {
            if !contains_key(&self.keys, &other.keys[j]) {
                proof {
                    assert(other.keys@.to_set().contains(other.keys@[j as int]));
                    assert(!self.keys@.to_set().contains(other.keys@[j as int]));
                }
                return false;
            }
            j = j + 1;
        }
        proof {
            assert(self.keys@.to_set() =~= other.keys@.to_set()) by {
                assert forall|x: KeyCode| self.keys@.to_set().contains(x) implies other.keys@.to_set().contains(x) by {
                    let t = choose|t: int| 0 <= t < self.keys@.len() && self.keys@[t] == x;
                    assert(other.keys@.contains(self.keys@[t]));
                }
                assert forall|x: KeyCode| other.keys@.to_set().contains(x) implies self.keys@.to_set().contains(x) by {
                    let t = choose|t: int| 0 <= t < other.keys@.len() && other.keys@[t] == x;
                    assert(self.keys@.contains(other.keys@[t]));
                }
            }
        }
        true
    }
}

impl vstd::std_specs::cmp::PartialEqSpecImpl for HotkeyCombination {
    open spec fn obeys_eq_spec() -> bool {
        true
    }

    open spec fn eq_spec(&self, other: &HotkeyCombination) -> bool {
        self.keys@.to_set() == other.keys@.to_set()
    }
}

/// Whether `keys` holds `k`.
pub fn contains_key(keys: &Vec<KeyCode>, k: &KeyCode) -> (r: bool)
    ensures
        r == keys@.contains(*k),
{
    let mut i: usize = 0;
    while i < keys.len()
        invariant
            0 <= i <= keys@.len(),
            forall|j: int| 0 <= j < i ==> keys@[j] != *k,
        decreases keys@.len() - i,
    {
        if keys[i] == *k {
            return true;
        }
        i = i + 1;
    }
    false
}

/// Copy a combination, keeping its keys in order.
pub fn copy_combination(c: &HotkeyCombination) -> (r: HotkeyCombination)
    ensures
        r.keys@ == c.keys@,
{
    let mut keys: Vec<KeyCode> = Vec::new();
    let mut i: usize = 0;
    while i < c.keys.len()
        invariant
            0 <= i <= c.keys@.len(),
            keys@ == c.keys@.subrange(0, i as int),
        decreases c.keys@.len() - i,
    {
        keys.push(c.keys[i]);
        proof {
            assert(c.keys@.subrange(0, i + 1) =~= c.keys@.subrange(0, i as int).push(c.keys@[i as int]));
        }
        i = i + 1;
    }
    assert(c.keys@.subrange(0, c.keys@.len() as int) =~= c.keys@);
    HotkeyCombination { keys }
}

/// The keys of each combination, in order.
pub open spec fn combination_keys(v: Seq<HotkeyCombination>) -> Seq<Seq<KeyCode>> {
    v.map_values(|c: HotkeyCombination| c.keys@)
}

/// Copy a list of combinations, keeping every key of every combination in order.
pub fn copy_combinations(v: &Vec<HotkeyCombination>) -> (r: Vec<HotkeyCombination>)
    ensures
        combination_keys(r@) == combination_keys(v@),
{
    let mut out: Vec<HotkeyCombination> = Vec::new();
    let mut i: usize = 0;
    while i < v.len()
        invariant
            0 <= i <= v@.len(),
            out@.len() == i,
            forall|j: int| 0 <= j < i ==> (#[trigger] out@[j]).keys@ == v@[j].keys@,
        decreases v@.len() - i,
    {
        out.push(copy_combination(&v[i]));
        i = i + 1;
    }
    assert(combination_keys(out@) =~= combination_keys(v@));
    out
}

/// Default for the auto-paste setting when a stored value lacks it.
pub fn default_auto_paste_enabled() -> (r: bool)
    ensures
        r,
{
    true
}

/// Default paste delay in milliseconds when a stored value lacks it.
pub fn default_auto_paste_delay_ms() -> (r: u32)
    ensures
        r == 50,
{
    50
}

/// Default for fields that are true unless stated otherwise.
pub fn default_true() -> (r: bool)
    ensures
        r,
{
    true
}

/// Persisted configuration values returned by the GetConfig request.
pub struct ConfigValues {
    /// Current transcription mode
    pub transcription_mode: TranscriptionMode,
    /// Configured push-to-talk hotkey combinations
    pub ptt_hotkeys: Vec<HotkeyCombination>,
    /// Configured auto-mode toggle hotkeys
    pub auto_toggle_hotkeys: Vec<HotkeyCombination>,
    /// Whether auto-paste into the foreground application is enabled
    pub auto_paste_enabled: bool,
    /// Delay in milliseconds between clipboard write and paste simulation
    pub auto_paste_delay_ms: u32,
}

impl Default for ConfigValues {
    fn default() -> (r: Self)
        ensures
            r.transcription_mode == TranscriptionMode::PushToTalk,
            r.ptt_hotkeys@.len() == 0,
            r.auto_toggle_hotkeys@.len() == 0,
            !r.auto_paste_enabled,
            r.auto_paste_delay_ms == 0,
    {
        ConfigValues {
            transcription_mode: TranscriptionMode::PushToTalk,
            ptt_hotkeys: Vec::new(),
            auto_toggle_hotkeys: Vec::new(),
            auto_paste_enabled: false,
            auto_paste_delay_ms: 0,
        }
    }
}

/// Push-to-talk status information.
pub struct PttStatus {
    /// Current transcription mode
    pub mode: TranscriptionMode,
    /// Configured PTT hotkey combinations
    pub hotkeys: Vec<HotkeyCombination>,
    /// Configured auto-mode toggle hotkeys
    pub auto_toggle_hotkeys: Vec<HotkeyCombination>,
    /// Whether auto mode is currently active
    pub auto_mode_active: bool,
    /// Whether the PTT key is currently pressed
    pub is_active: bool,
    /// Whether PTT is available on this platform
    pub available: bool,
    /// Error message if PTT is unavailable
    pub error: Option<String>,
    /// Whether Accessibility permission is granted (always true off macOS)
    pub accessibility_permission_granted: bool,
}

impl Default for PttStatus {
    fn default() -> (r: Self)
        ensures
            r.mode == TranscriptionMode::PushToTalk,
            r.hotkeys@.len() == 0,
            r.auto_toggle_hotkeys@.len() == 0,
            !r.auto_mode_active,
            !r.is_active,
            !r.available,
            r.error is None,
            !r.accessibility_permission_granted,
    {
        PttStatus {
            mode: TranscriptionMode::PushToTalk,
            hotkeys: Vec::new(),
            auto_toggle_hotkeys: Vec::new(),
            auto_mode_active: false,
            is_active: false,
            available: false,
            error: None,
            accessibility_permission_granted: false,
        }
    }
}

/// Information about an audio device.
pub struct AudioDevice {
    /// Unique identifier (PipeWire node ID, WASAPI endpoint ID, etc.)
    pub id: String,
    /// Display name for UI
    pub name: String,
    /// Type of audio source
    pub source_type: AudioSourceType,
}

/// Status of the transcription system.
pub struct TranscribeStatus {
    /// Whether audio capture is running
    pub capturing: bool,
    /// Whether currently capturing speech
    pub in_speech: bool,
    /// Number of segments waiting to be transcribed
    pub queue_depth: usize,
    /// Error message if capture failed
    pub error: Option<String>,
    /// Currently configured primary audio source ID
    pub source1_id: Option<String>,
    /// Currently configured secondary audio source ID
    pub source2_id: Option<String>,
    /// Current transcription mode
    pub transcription_mode: TranscriptionMode,
}

impl Default for TranscribeStatus {
    fn default() -> (r: Self)
        ensures
            !r.capturing,
            !r.in_speech,
            r.queue_depth == 0,
            r.error is None,
            r.source1_id is None,
            r.source2_id is None,
            r.transcription_mode == TranscriptionMode::PushToTalk,
    {
        TranscribeStatus {
            capturing: false,
            in_speech: false,
            queue_depth: 0,
            error: None,
            source1_id: None,
            source2_id: None,
            transcription_mode: TranscriptionMode::PushToTalk,
        }
    }
}

/// Status of the Whisper model.
pub struct ModelStatus {
    /// Whether the model file exists and is available
    pub available: bool,
    /// Path to the model file
    pub path: String,
}

/// CUDA/GPU acceleration status.
pub struct CudaStatus {
    /// Whether the binary was built with CUDA support
    pub build_enabled: bool,
    /// Whether GPU acceleration is available at runtime
    pub runtime_available: bool,
    /// System info string from whisper.cpp
    pub system_info: String,
}

/// A single column of spectrogram data ready for rendering.
pub struct SpectrogramColumn {
    /// RGB triplets for each pixel row (height * 3 bytes)
    pub colors: Vec<u8>,
}

/// A single entry in the transcription history.
pub struct HistoryEntry {
    /// Unique identifier for this entry
    pub id: String,
    /// Transcribed text
    pub text: String,
    /// ISO 8601 timestamp of when the transcription occurred
    pub timestamp: String,
    /// Path to the cached WAV file, if it still exists
    pub wav_path: Option<String>,
}

/// Transcription result for a speech segment.
pub struct TranscriptionResult {
    /// Unique history entry ID
    pub id: Option<String>,
    /// Transcribed text
    pub text: String,
    /// ISO 8601 timestamp of the transcription
    pub timestamp: Option<String>,
    /// Path to the saved audio file (if saved)
    pub audio_path: Option<String>,
}



/// A number that the characters of a name spell, one base-128 digit each.
pub open spec fn name_code(s: Seq<char>) -> int
    decreases s.len(),
{
    if s.len() == 0 {
        0
    } else {
        s[0] as int + 128 * name_code(s.drop_first())
    }
}

/// The key whose `Debug` name spells `n`.
spec fn key_with_name_code(n: int) -> Option<KeyCode> {
    if n == 65779448361383122 {
        Some(KeyCode::RightAlt)
    } else if n == 513901940290252 {
        Some(KeyCode::LeftAlt)
    } else if n == 16452604120205247857161426 {
        Some(KeyCode::RightControl)
    } else if n == 128535969689103498851020 {
        Some(KeyCode::LeftControl)
    } else if n == 1077320600892185638098 {
        Some(KeyCode::RightShift)
    } else if n == 8416567194470167244 {
        Some(KeyCode::LeftShift)
    } else if n == 60674886195753155 {
        Some(KeyCode::CapsLock)
    } else if n == 55119810125214412 {
        Some(KeyCode::LeftMeta)
    } else if n == 7055335696031675602 {
        Some(KeyCode::RightMeta)
    } else if n == 6342 {
        Some(KeyCode::F1)
    } else if n == 6470 {
        Some(KeyCode::F2)
    } else if n == 6598 {
        Some(KeyCode::F3)
    } else if n == 6726 {
        Some(KeyCode::F4)
    } else if n == 6854 {
        Some(KeyCode::F5)
    } else if n == 6982 {
        Some(KeyCode::F6)
    } else if n == 7110 {
        Some(KeyCode::F7)
    } else if n == 7238 {
        Some(KeyCode::F8)
    } else if n == 7366 {
        Some(KeyCode::F9)
    } else if n == 792774 {
        Some(KeyCode::F10)
    } else if n == 809158 {
        Some(KeyCode::F11)
    } else if n == 825542 {
        Some(KeyCode::F12)
    } else if n == 841926 {
        Some(KeyCode::F13)
    } else if n == 858310 {
        Some(KeyCode::F14)
    } else if n == 874694 {
        Some(KeyCode::F15)
    } else if n == 891078 {
        Some(KeyCode::F16)
    } else if n == 907462 {
        Some(KeyCode::F17)
    } else if n == 923846 {
        Some(KeyCode::F18)
    } else if n == 940230 {
        Some(KeyCode::F19)
    } else if n == 792902 {
        Some(KeyCode::F20)
    } else if n == 809286 {
        Some(KeyCode::F21)
    } else if n == 825670 {
        Some(KeyCode::F22)
    } else if n == 842054 {
        Some(KeyCode::F23)
    } else if n == 858438 {
        Some(KeyCode::F24)
    } else if n == 138310347 {
        Some(KeyCode::KeyA)
    } else if n == 140407499 {
        Some(KeyCode::KeyB)
    } else if n == 142504651 {
        Some(KeyCode::KeyC)
    } else if n == 144601803 {
        Some(KeyCode::KeyD)
    } else if n == 146698955 {
        Some(KeyCode::KeyE)
    } else if n == 148796107 {
        Some(KeyCode::KeyF)
    } else if n == 150893259 {
        Some(KeyCode::KeyG)
    } else if n == 152990411 {
        Some(KeyCode::KeyH)
    } else if n == 155087563 {
        Some(KeyCode::KeyI)
    } else if n == 157184715 {
        Some(KeyCode::KeyJ)
    } else if n == 159281867 {
        Some(KeyCode::KeyK)
    } else if n == 161379019 {
        Some(KeyCode::KeyL)
    } else if n == 163476171 {
        Some(KeyCode::KeyM)
    } else if n == 165573323 {
        Some(KeyCode::KeyN)
    } else if n == 167670475 {
        Some(KeyCode::KeyO)
    } else if n == 169767627 {
        Some(KeyCode::KeyP)
    } else if n == 171864779 {
        Some(KeyCode::KeyQ)
    } else if n == 173961931 {
        Some(KeyCode::KeyR)
    } else if n == 176059083 {
        Some(KeyCode::KeyS)
    } else if n == 178156235 {
        Some(KeyCode::KeyT)
    } else if n == 180253387 {
        Some(KeyCode::KeyU)
    } else if n == 182350539 {
        Some(KeyCode::KeyV)
    } else if n == 184447691 {
        Some(KeyCode::KeyW)
    } else if n == 186544843 {
        Some(KeyCode::KeyX)
    } else if n == 188641995 {
        Some(KeyCode::KeyY)
    } else if n == 190739147 {
        Some(KeyCode::KeyZ)
    } else if n == 1680627856580 {
        Some(KeyCode::Digit0)
    } else if n == 1714987594948 {
        Some(KeyCode::Digit1)
    } else if n == 1749347333316 {
        Some(KeyCode::Digit2)
    } else if n == 1783707071684 {
        Some(KeyCode::Digit3)
    } else if n == 1818066810052 {
        Some(KeyCode::Digit4)
    } else if n == 1852426548420 {
        Some(KeyCode::Digit5)
    } else if n == 1886786286788 {
        Some(KeyCode::Digit6)
    } else if n == 1921146025156 {
        Some(KeyCode::Digit7)
    } else if n == 1955505763524 {
        Some(KeyCode::Digit8)
    } else if n == 1989865501892 {
        Some(KeyCode::Digit9)
    } else if n == 495533965490497 {
        Some(KeyCode::ArrowUp)
    } else if n == 7993816940432636225 {
        Some(KeyCode::ArrowDown)
    } else if n == 8416548649864837441 {
        Some(KeyCode::ArrowLeft)
    } else if n == 1077463594544861591873 {
        Some(KeyCode::ArrowRight)
    } else if n == 213612488 {
        Some(KeyCode::Home)
    } else if n == 1652549 {
        Some(KeyCode::End)
    } else if n == 3871321223376 {
        Some(KeyCode::PageUp)
    } else if n == 62451694809247952 {
        Some(KeyCode::PageDown)
    } else if n == 4016545003337 {
        Some(KeyCode::Insert)
    } else if n == 3501685682884 {
        Some(KeyCode::Delete)
    } else if n == 3500603406789 {
        Some(KeyCode::Escape)
    } else if n == 1618132 {
        Some(KeyCode::Tab)
    } else if n == 27321202771 {
        Some(KeyCode::Space)
    } else if n == 30815369029 {
        Some(KeyCode::Enter)
    } else if n == 7333979533117812930 {
        Some(KeyCode::Backspace)
    } else if n == 130803981286219930302800 {
        Some(KeyCode::PrintScreen)
    } else if n == 994097335189657924051 {
        Some(KeyCode::ScrollLock)
    } else if n == 27355082960 {
        Some(KeyCode::Pause)
    } else if n == 31117259981 {
        Some(KeyCode::Minus)
    } else if n == 29196384453 {
        Some(KeyCode::Equal)
    } else if n == 137896733065845849749826 {
        Some(KeyCode::BracketLeft)
    } else if n == 17653163533009472674363714 {
        Some(KeyCode::BracketRight)
    } else if n == 7559159377047384258 {
        Some(KeyCode::Backslash)
    } else if n == 7989301618753106643 {
        Some(KeyCode::Semicolon)
    } else if n == 27357084369 {
        Some(KeyCode::Quote)
    } else if n == 7343611426238951618 {
        Some(KeyCode::Backquote)
    } else if n == 26268628931 {
        Some(KeyCode::Comma)
    } else if n == 3465992254160 {
        Some(KeyCode::Period)
    } else if n == 28160063059 {
        Some(KeyCode::Slash)
    } else if n == 214568481290958 {
        Some(KeyCode::Numpad0)
    } else if n == 218966527802062 {
        Some(KeyCode::Numpad1)
    } else if n == 223364574313166 {
        Some(KeyCode::Numpad2)
    } else if n == 227762620824270 {
        Some(KeyCode::Numpad3)
    } else if n == 232160667335374 {
        Some(KeyCode::Numpad4)
    } else if n == 236558713846478 {
        Some(KeyCode::Numpad5)
    } else if n == 240956760357582 {
        Some(KeyCode::Numpad6)
    } else if n == 245354806868686 {
        Some(KeyCode::Numpad7)
    } else if n == 249752853379790 {
        Some(KeyCode::Numpad8)
    } else if n == 254150899890894 {
        Some(KeyCode::Numpad9)
    } else if n == 301687563324710469563743697614 {
        Some(KeyCode::NumpadMultiply)
    } else if n == 7262343734406904526 {
        Some(KeyCode::NumpadAdd)
    } else if n == 289131821502524419688493710030 {
        Some(KeyCode::NumpadSubtract)
    } else if n == 2103811701988490944681048782 {
        Some(KeyCode::NumpadDecimal)
    } else if n == 15381724650978675208714958 {
        Some(KeyCode::NumpadDivide)
    } else if n == 474022548306638 {
        Some(KeyCode::NumLock)
    } else {
        None
    }
}

#[verifier::rlimit(100)]
#[verifier::spinoff_prover]
proof fn lemma_name_code_decodes(k: KeyCode)
    ensures
        key_with_name_code(name_code(key_debug_name(k))) == Some(k),
{
    reveal_with_fuel(name_code, 15);
    match k {
        KeyCode::RightAlt => {
            reveal_strlit("RightAlt");
        },
        KeyCode::LeftAlt => {
            reveal_strlit("LeftAlt");
        },
        KeyCode::RightControl => {
            reveal_strlit("RightControl");
        },
        KeyCode::LeftControl => {
            reveal_strlit("LeftControl");
        },
        KeyCode::RightShift => {
            reveal_strlit("RightShift");
        },
        KeyCode::LeftShift => {
            reveal_strlit("LeftShift");
        },
        KeyCode::CapsLock => {
            reveal_strlit("CapsLock");
        },
        KeyCode::LeftMeta => {
            reveal_strlit("LeftMeta");
        },
        KeyCode::RightMeta => {
            reveal_strlit("RightMeta");
        },
        KeyCode::F1 => {
            reveal_strlit("F1");
        },
        KeyCode::F2 => {
            reveal_strlit("F2");
        },
        KeyCode::F3 => {
            reveal_strlit("F3");
        },
        KeyCode::F4 => {
            reveal_strlit("F4");
        },
        KeyCode::F5 => {
            reveal_strlit("F5");
        },
        KeyCode::F6 => {
            reveal_strlit("F6");
        },
        KeyCode::F7 => {
            reveal_strlit("F7");
        },
        KeyCode::F8 => {
            reveal_strlit("F8");
        },
        KeyCode::F9 => {
            reveal_strlit("F9");
        },
        KeyCode::F10 => {
            reveal_strlit("F10");
        },
        KeyCode::F11 => {
            reveal_strlit("F11");
        },
        KeyCode::F12 => {
            reveal_strlit("F12");
        },
        KeyCode::F13 => {
            reveal_strlit("F13");
        },
        KeyCode::F14 => {
            reveal_strlit("F14");
        },
        KeyCode::F15 => {
            reveal_strlit("F15");
        },
        KeyCode::F16 => {
            reveal_strlit("F16");
        },
        KeyCode::F17 => {
            reveal_strlit("F17");
        },
        KeyCode::F18 => {
            reveal_strlit("F18");
        },
        KeyCode::F19 => {
            reveal_strlit("F19");
        },
        KeyCode::F20 => {
            reveal_strlit("F20");
        },
        KeyCode::F21 => {
            reveal_strlit("F21");
        },
        KeyCode::F22 => {
            reveal_strlit("F22");
        },
        KeyCode::F23 => {
            reveal_strlit("F23");
        },
        KeyCode::F24 => {
            reveal_strlit("F24");
        },
        KeyCode::KeyA => {
            reveal_strlit("KeyA");
        },
        KeyCode::KeyB => {
            reveal_strlit("KeyB");
        },
        KeyCode::KeyC => {
            reveal_strlit("KeyC");
        },
        KeyCode::KeyD => {
            reveal_strlit("KeyD");
        },
        KeyCode::KeyE => {
            reveal_strlit("KeyE");
        },
        KeyCode::KeyF => {
            reveal_strlit("KeyF");
        },
        KeyCode::KeyG => {
            reveal_strlit("KeyG");
        },
        KeyCode::KeyH => {
            reveal_strlit("KeyH");
        },
        KeyCode::KeyI => {
            reveal_strlit("KeyI");
        },
        KeyCode::KeyJ => {
            reveal_strlit("KeyJ");
        },
        KeyCode::KeyK => {
            reveal_strlit("KeyK");
        },
        KeyCode::KeyL => {
            reveal_strlit("KeyL");
        },
        KeyCode::KeyM => {
            reveal_strlit("KeyM");
        },
        KeyCode::KeyN => {
            reveal_strlit("KeyN");
        },
        KeyCode::KeyO => {
            reveal_strlit("KeyO");
        },
        KeyCode::KeyP => {
            reveal_strlit("KeyP");
        },
        KeyCode::KeyQ => {
            reveal_strlit("KeyQ");
        },
        KeyCode::KeyR => {
            reveal_strlit("KeyR");
        },
        KeyCode::KeyS => {
            reveal_strlit("KeyS");
        },
        KeyCode::KeyT => {
            reveal_strlit("KeyT");
        },
        KeyCode::KeyU => {
            reveal_strlit("KeyU");
        },
        KeyCode::KeyV => {
            reveal_strlit("KeyV");
        },
        KeyCode::KeyW => {
            reveal_strlit("KeyW");
        },
        KeyCode::KeyX => {
            reveal_strlit("KeyX");
        },
        KeyCode::KeyY => {
            reveal_strlit("KeyY");
        },
        KeyCode::KeyZ => {
            reveal_strlit("KeyZ");
        },
        KeyCode::Digit0 => {
            reveal_strlit("Digit0");
        },
        KeyCode::Digit1 => {
            reveal_strlit("Digit1");
        },
        KeyCode::Digit2 => {
            reveal_strlit("Digit2");
        },
        KeyCode::Digit3 => {
            reveal_strlit("Digit3");
        },
        KeyCode::Digit4 => {
            reveal_strlit("Digit4");
        },
        KeyCode::Digit5 => {
            reveal_strlit("Digit5");
        },
        KeyCode::Digit6 => {
            reveal_strlit("Digit6");
        },
        KeyCode::Digit7 => {
            reveal_strlit("Digit7");
        },
        KeyCode::Digit8 => {
            reveal_strlit("Digit8");
        },
        KeyCode::Digit9 => {
            reveal_strlit("Digit9");
        },
        KeyCode::ArrowUp => {
            reveal_strlit("ArrowUp");
        },
        KeyCode::ArrowDown => {
            reveal_strlit("ArrowDown");
        },
        KeyCode::ArrowLeft => {
            reveal_strlit("ArrowLeft");
        },
        KeyCode::ArrowRight => {
            reveal_strlit("ArrowRight");
        },
        KeyCode::Home => {
            reveal_strlit("Home");
        },
        KeyCode::End => {
            reveal_strlit("End");
        },
        KeyCode::PageUp => {
            reveal_strlit("PageUp");
        },
        KeyCode::PageDown => {
            reveal_strlit("PageDown");
        },
        KeyCode::Insert => {
            reveal_strlit("Insert");
        },
        KeyCode::Delete => {
            reveal_strlit("Delete");
        },
        KeyCode::Escape => {
            reveal_strlit("Escape");
        },
        KeyCode::Tab => {
            reveal_strlit("Tab");
        },
        KeyCode::Space => {
            reveal_strlit("Space");
        },
        KeyCode::Enter => {
            reveal_strlit("Enter");
        },
        KeyCode::Backspace => {
            reveal_strlit("Backspace");
        },
        KeyCode::PrintScreen => {
            reveal_strlit("PrintScreen");
        },
        KeyCode::ScrollLock => {
            reveal_strlit("ScrollLock");
        },
        KeyCode::Pause => {
            reveal_strlit("Pause");
        },
        KeyCode::Minus => {
            reveal_strlit("Minus");
        },
        KeyCode::Equal => {
            reveal_strlit("Equal");
        },
        KeyCode::BracketLeft => {
            reveal_strlit("BracketLeft");
        },
        KeyCode::BracketRight => {
            reveal_strlit("BracketRight");
        },
        KeyCode::Backslash => {
            reveal_strlit("Backslash");
        },
        KeyCode::Semicolon => {
            reveal_strlit("Semicolon");
        },
        KeyCode::Quote => {
            reveal_strlit("Quote");
        },
        KeyCode::Backquote => {
            reveal_strlit("Backquote");
        },
        KeyCode::Comma => {
            reveal_strlit("Comma");
        },
        KeyCode::Period => {
            reveal_strlit("Period");
        },
        KeyCode::Slash => {
            reveal_strlit("Slash");
        },
        KeyCode::Numpad0 => {
            reveal_strlit("Numpad0");
        },
        KeyCode::Numpad1 => {
            reveal_strlit("Numpad1");
        },
        KeyCode::Numpad2 => {
            reveal_strlit("Numpad2");
        },
        KeyCode::Numpad3 => {
            reveal_strlit("Numpad3");
        },
        KeyCode::Numpad4 => {
            reveal_strlit("Numpad4");
        },
        KeyCode::Numpad5 => {
            reveal_strlit("Numpad5");
        },
        KeyCode::Numpad6 => {
            reveal_strlit("Numpad6");
        },
        KeyCode::Numpad7 => {
            reveal_strlit("Numpad7");
        },
        KeyCode::Numpad8 => {
            reveal_strlit("Numpad8");
        },
        KeyCode::Numpad9 => {
            reveal_strlit("Numpad9");
        },
        KeyCode::NumpadMultiply => {
            reveal_strlit("NumpadMultiply");
        },
        KeyCode::NumpadAdd => {
            reveal_strlit("NumpadAdd");
        },
        KeyCode::NumpadSubtract => {
            reveal_strlit("NumpadSubtract");
        },
        KeyCode::NumpadDecimal => {
            reveal_strlit("NumpadDecimal");
        },
        KeyCode::NumpadDivide => {
            reveal_strlit("NumpadDivide");
        },
        KeyCode::NumLock => {
            reveal_strlit("NumLock");
        },
    }
}

/// Distinct keys have distinct `Debug` names.
pub proof fn lemma_debug_name_injective(k1: KeyCode, k2: KeyCode)
    requires
        key_debug_name(k1) == key_debug_name(k2),
    ensures
        k1 == k2,
{
    lemma_name_code_decodes(k1);
    lemma_name_code_decodes(k2);
}

/// The key whose display name spells `n` (see `name_code`).
spec fn key_with_display_code(n: int) -> Option<KeyCode> {
    if n == 8419766507262309586 {
        Some(KeyCode::RightAlt)
    } else if n == 65779425837953740 {
        Some(KeyCode::LeftAlt)
    } else if n == 1004404343695222633682 {
        Some(KeyCode::RightControl)
    } else if n == 7846908935118893772 {
        Some(KeyCode::LeftControl)
    } else if n == 137897036911316766946514 {
        Some(KeyCode::RightShift)
    } else if n == 1077320600869662208716 {
        Some(KeyCode::LeftShift)
    } else if n == 7766385410782802115 {
        Some(KeyCode::CapsLock)
    } else if n == 62389287892136652 {
        Some(KeyCode::LeftMeta)
    } else if n == 7985828850197722322 {
        Some(KeyCode::RightMeta)
    } else if n == 6342 {
        Some(KeyCode::F1)
    } else if n == 6470 {
        Some(KeyCode::F2)
    } else if n == 6598 {
        Some(KeyCode::F3)
    } else if n == 6726 {
        Some(KeyCode::F4)
    } else if n == 6854 {
        Some(KeyCode::F5)
    } else if n == 6982 {
        Some(KeyCode::F6)
    } else if n == 7110 {
        Some(KeyCode::F7)
    } else if n == 7238 {
        Some(KeyCode::F8)
    } else if n == 7366 {
        Some(KeyCode::F9)
    } else if n == 792774 {
        Some(KeyCode::F10)
    } else if n == 809158 {
        Some(KeyCode::F11)
    } else if n == 825542 {
        Some(KeyCode::F12)
    } else if n == 841926 {
        Some(KeyCode::F13)
    } else if n == 858310 {
        Some(KeyCode::F14)
    } else if n == 874694 {
        Some(KeyCode::F15)
    } else if n == 891078 {
        Some(KeyCode::F16)
    } else if n == 907462 {
        Some(KeyCode::F17)
    } else if n == 923846 {
        Some(KeyCode::F18)
    } else if n == 940230 {
        Some(KeyCode::F19)
    } else if n == 792902 {
        Some(KeyCode::F20)
    } else if n == 809286 {
        Some(KeyCode::F21)
    } else if n == 825670 {
        Some(KeyCode::F22)
    } else if n == 842054 {
        Some(KeyCode::F23)
    } else if n == 858438 {
        Some(KeyCode::F24)
    } else if n == 65 {
        Some(KeyCode::KeyA)
    } else if n == 66 {
        Some(KeyCode::KeyB)
    } else if n == 67 {
        Some(KeyCode::KeyC)
    } else if n == 68 {
        Some(KeyCode::KeyD)
    } else if n == 69 {
        Some(KeyCode::KeyE)
    } else if n == 70 {
        Some(KeyCode::KeyF)
    } else if n == 71 {
        Some(KeyCode::KeyG)
    } else if n == 72 {
        Some(KeyCode::KeyH)
    } else if n == 73 {
        Some(KeyCode::KeyI)
    } else if n == 74 {
        Some(KeyCode::KeyJ)
    } else if n == 75 {
        Some(KeyCode::KeyK)
    } else if n == 76 {
        Some(KeyCode::KeyL)
    } else if n == 77 {
        Some(KeyCode::KeyM)
    } else if n == 78 {
        Some(KeyCode::KeyN)
    } else if n == 79 {
        Some(KeyCode::KeyO)
    } else if n == 80 {
        Some(KeyCode::KeyP)
    } else if n == 81 {
        Some(KeyCode::KeyQ)
    } else if n == 82 {
        Some(KeyCode::KeyR)
    } else if n == 83 {
        Some(KeyCode::KeyS)
    } else if n == 84 {
        Some(KeyCode::KeyT)
    } else if n == 85 {
        Some(KeyCode::KeyU)
    } else if n == 86 {
        Some(KeyCode::KeyV)
    } else if n == 87 {
        Some(KeyCode::KeyW)
    } else if n == 88 {
        Some(KeyCode::KeyX)
    } else if n == 89 {
        Some(KeyCode::KeyY)
    } else if n == 90 {
        Some(KeyCode::KeyZ)
    } else if n == 48 {
        Some(KeyCode::Digit0)
    } else if n == 49 {
        Some(KeyCode::Digit1)
    } else if n == 50 {
        Some(KeyCode::Digit2)
    } else if n == 51 {
        Some(KeyCode::Digit3)
    } else if n == 52 {
        Some(KeyCode::Digit4)
    } else if n == 53 {
        Some(KeyCode::Digit5)
    } else if n == 54 {
        Some(KeyCode::Digit6)
    } else if n == 55 {
        Some(KeyCode::Digit7)
    } else if n == 56 {
        Some(KeyCode::Digit8)
    } else if n == 57 {
        Some(KeyCode::Digit9)
    } else if n == 14421 {
        Some(KeyCode::ArrowUp)
    } else if n == 232650692 {
        Some(KeyCode::ArrowDown)
    } else if n == 244953804 {
        Some(KeyCode::ArrowLeft)
    } else if n == 31358317778 {
        Some(KeyCode::ArrowRight)
    } else if n == 213612488 {
        Some(KeyCode::Home)
    } else if n == 1652549 {
        Some(KeyCode::End)
    } else if n == 495510590451920 {
        Some(KeyCode::PageUp)
    } else if n == 7993816917057597648 {
        Some(KeyCode::PageDown)
    } else if n == 4016545003337 {
        Some(KeyCode::Insert)
    } else if n == 3501685682884 {
        Some(KeyCode::Delete)
    } else if n == 1636805 {
        Some(KeyCode::Escape)
    } else if n == 1618132 {
        Some(KeyCode::Tab)
    } else if n == 27321202771 {
        Some(KeyCode::Space)
    } else if n == 30815369029 {
        Some(KeyCode::Enter)
    } else if n == 7333979533117812930 {
        Some(KeyCode::Backspace)
    } else if n == 16742909604633266481690960 {
        Some(KeyCode::PrintScreen)
    } else if n == 127244458570023868084691 {
        Some(KeyCode::ScrollLock)
    } else if n == 27355082960 {
        Some(KeyCode::Pause)
    } else if n == 45 {
        Some(KeyCode::Minus)
    } else if n == 61 {
        Some(KeyCode::Equal)
    } else if n == 91 {
        Some(KeyCode::BracketLeft)
    } else if n == 93 {
        Some(KeyCode::BracketRight)
    } else if n == 92 {
        Some(KeyCode::Backslash)
    } else if n == 59 {
        Some(KeyCode::Semicolon)
    } else if n == 39 {
        Some(KeyCode::Quote)
    } else if n == 96 {
        Some(KeyCode::Backquote)
    } else if n == 44 {
        Some(KeyCode::Comma)
    } else if n == 46 {
        Some(KeyCode::Period)
    } else if n == 47 {
        Some(KeyCode::Slash)
    } else if n == 12953811662 {
        Some(KeyCode::Numpad0)
    } else if n == 13222247118 {
        Some(KeyCode::Numpad1)
    } else if n == 13490682574 {
        Some(KeyCode::Numpad2)
    } else if n == 13759118030 {
        Some(KeyCode::Numpad3)
    } else if n == 14027553486 {
        Some(KeyCode::Numpad4)
    } else if n == 14295988942 {
        Some(KeyCode::Numpad5)
    } else if n == 14564424398 {
        Some(KeyCode::Numpad6)
    } else if n == 14832859854 {
        Some(KeyCode::Numpad7)
    } else if n == 15101295310 {
        Some(KeyCode::Numpad8)
    } else if n == 15369730766 {
        Some(KeyCode::Numpad9)
    } else if n == 11343198926 {
        Some(KeyCode::NumpadMultiply)
    } else if n == 11611634382 {
        Some(KeyCode::NumpadAdd)
    } else if n == 12148505294 {
        Some(KeyCode::NumpadSubtract)
    } else if n == 12416940750 {
        Some(KeyCode::NumpadDecimal)
    } else if n == 12685376206 {
        Some(KeyCode::NumpadDivide)
    } else if n == 60674886021642958 {
        Some(KeyCode::NumLock)
    } else {
        None
    }
}

proof fn lemma_display_code_decodes(k: KeyCode)
    ensures
        key_with_display_code(name_code(key_display_name(k))) == Some(k),
{
    reveal_with_fuel(name_code, 13);
    match k {
        KeyCode::RightAlt => {
            reveal_strlit("Right Alt");
        },
        KeyCode::LeftAlt => {
            reveal_strlit("Left Alt");
        },
        KeyCode::RightControl => {
            reveal_strlit("Right Ctrl");
        },
        KeyCode::LeftControl => {
            reveal_strlit("Left Ctrl");
        },
        KeyCode::RightShift => {
            reveal_strlit("Right Shift");
        },
        KeyCode::LeftShift => {
            reveal_strlit("Left Shift");
        },
        KeyCode::CapsLock => {
            reveal_strlit("Caps Lock");
        },
        KeyCode::LeftMeta => {
            reveal_strlit("Left Win");
        },
        KeyCode::RightMeta => {
            reveal_strlit("Right Win");
        },
        KeyCode::F1 => {
            reveal_strlit("F1");
        },
        KeyCode::F2 => {
            reveal_strlit("F2");
        },
        KeyCode::F3 => {
            reveal_strlit("F3");
        },
        KeyCode::F4 => {
            reveal_strlit("F4");
        },
        KeyCode::F5 => {
            reveal_strlit("F5");
        },
        KeyCode::F6 => {
            reveal_strlit("F6");
        },
        KeyCode::F7 => {
            reveal_strlit("F7");
        },
        KeyCode::F8 => {
            reveal_strlit("F8");
        },
        KeyCode::F9 => {
            reveal_strlit("F9");
        },
        KeyCode::F10 => {
            reveal_strlit("F10");
        },
        KeyCode::F11 => {
            reveal_strlit("F11");
        },
        KeyCode::F12 => {
            reveal_strlit("F12");
        },
        KeyCode::F13 => {
            reveal_strlit("F13");
        },
        KeyCode::F14 => {
            reveal_strlit("F14");
        },
        KeyCode::F15 => {
            reveal_strlit("F15");
        },
        KeyCode::F16 => {
            reveal_strlit("F16");
        },
        KeyCode::F17 => {
            reveal_strlit("F17");
        },
        KeyCode::F18 => {
            reveal_strlit("F18");
        },
        KeyCode::F19 => {
            reveal_strlit("F19");
        },
        KeyCode::F20 => {
            reveal_strlit("F20");
        },
        KeyCode::F21 => {
            reveal_strlit("F21");
        },
        KeyCode::F22 => {
            reveal_strlit("F22");
        },
        KeyCode::F23 => {
            reveal_strlit("F23");
        },
        KeyCode::F24 => {
            reveal_strlit("F24");
        },
        KeyCode::KeyA => {
            reveal_strlit("A");
        },
        KeyCode::KeyB => {
            reveal_strlit("B");
        },
        KeyCode::KeyC => {
            reveal_strlit("C");
        },
        KeyCode::KeyD => {
            reveal_strlit("D");
        },
        KeyCode::KeyE => {
            reveal_strlit("E");
        },
        KeyCode::KeyF => {
            reveal_strlit("F");
        },
        KeyCode::KeyG => {
            reveal_strlit("G");
        },
        KeyCode::KeyH => {
            reveal_strlit("H");
        },
        KeyCode::KeyI => {
            reveal_strlit("I");
        },
        KeyCode::KeyJ => {
            reveal_strlit("J");
        },
        KeyCode::KeyK => {
            reveal_strlit("K");
        },
        KeyCode::KeyL => {
            reveal_strlit("L");
        },
        KeyCode::KeyM => {
            reveal_strlit("M");
        },
        KeyCode::KeyN => {
            reveal_strlit("N");
        },
        KeyCode::KeyO => {
            reveal_strlit("O");
        },
        KeyCode::KeyP => {
            reveal_strlit("P");
        },
        KeyCode::KeyQ => {
            reveal_strlit("Q");
        },
        KeyCode::KeyR => {
            reveal_strlit("R");
        },
        KeyCode::KeyS => {
            reveal_strlit("S");
        },
        KeyCode::KeyT => {
            reveal_strlit("T");
        },
        KeyCode::KeyU => {
            reveal_strlit("U");
        },
        KeyCode::KeyV => {
            reveal_strlit("V");
        },
        KeyCode::KeyW => {
            reveal_strlit("W");
        },
        KeyCode::KeyX => {
            reveal_strlit("X");
        },
        KeyCode::KeyY => {
            reveal_strlit("Y");
        },
        KeyCode::KeyZ => {
            reveal_strlit("Z");
        },
        KeyCode::Digit0 => {
            reveal_strlit("0");
        },
        KeyCode::Digit1 => {
            reveal_strlit("1");
        },
        KeyCode::Digit2 => {
            reveal_strlit("2");
        },
        KeyCode::Digit3 => {
            reveal_strlit("3");
        },
        KeyCode::Digit4 => {
            reveal_strlit("4");
        },
        KeyCode::Digit5 => {
            reveal_strlit("5");
        },
        KeyCode::Digit6 => {
            reveal_strlit("6");
        },
        KeyCode::Digit7 => {
            reveal_strlit("7");
        },
        KeyCode::Digit8 => {
            reveal_strlit("8");
        },
        KeyCode::Digit9 => {
            reveal_strlit("9");
        },
        KeyCode::ArrowUp => {
            reveal_strlit("Up");
        },
        KeyCode::ArrowDown => {
            reveal_strlit("Down");
        },
        KeyCode::ArrowLeft => {
            reveal_strlit("Left");
        },
        KeyCode::ArrowRight => {
            reveal_strlit("Right");
        },
        KeyCode::Home => {
            reveal_strlit("Home");
        },
        KeyCode::End => {
            reveal_strlit("End");
        },
        KeyCode::PageUp => {
            reveal_strlit("Page Up");
        },
        KeyCode::PageDown => {
            reveal_strlit("Page Down");
        },
        KeyCode::Insert => {
            reveal_strlit("Insert");
        },
        KeyCode::Delete => {
            reveal_strlit("Delete");
        },
        KeyCode::Escape => {
            reveal_strlit("Esc");
        },
        KeyCode::Tab => {
            reveal_strlit("Tab");
        },
        KeyCode::Space => {
            reveal_strlit("Space");
        },
        KeyCode::Enter => {
            reveal_strlit("Enter");
        },
        KeyCode::Backspace => {
            reveal_strlit("Backspace");
        },
        KeyCode::PrintScreen => {
            reveal_strlit("Print Screen");
        },
        KeyCode::ScrollLock => {
            reveal_strlit("Scroll Lock");
        },
        KeyCode::Pause => {
            reveal_strlit("Pause");
        },
        KeyCode::Minus => {
            reveal_strlit("-");
        },
        KeyCode::Equal => {
            reveal_strlit("=");
        },
        KeyCode::BracketLeft => {
            reveal_strlit("[");
        },
        KeyCode::BracketRight => {
            reveal_strlit("]");
        },
        KeyCode::Backslash => {
            reveal_strlit("\\");
        },
        KeyCode::Semicolon => {
            reveal_strlit(";");
        },
        KeyCode::Quote => {
            reveal_strlit("'");
        },
        KeyCode::Backquote => {
            reveal_strlit("`");
        },
        KeyCode::Comma => {
            reveal_strlit(",");
        },
        KeyCode::Period => {
            reveal_strlit(".");
        },
        KeyCode::Slash => {
            reveal_strlit("/");
        },
        KeyCode::Numpad0 => {
            reveal_strlit("Num 0");
        },
        KeyCode::Numpad1 => {
            reveal_strlit("Num 1");
        },
        KeyCode::Numpad2 => {
            reveal_strlit("Num 2");
        },
        KeyCode::Numpad3 => {
            reveal_strlit("Num 3");
        },
        KeyCode::Numpad4 => {
            reveal_strlit("Num 4");
        },
        KeyCode::Numpad5 => {
            reveal_strlit("Num 5");
        },
        KeyCode::Numpad6 => {
            reveal_strlit("Num 6");
        },
        KeyCode::Numpad7 => {
            reveal_strlit("Num 7");
        },
        KeyCode::Numpad8 => {
            reveal_strlit("Num 8");
        },
        KeyCode::Numpad9 => {
            reveal_strlit("Num 9");
        },
        KeyCode::NumpadMultiply => {
            reveal_strlit("Num *");
        },
        KeyCode::NumpadAdd => {
            reveal_strlit("Num +");
        },
        KeyCode::NumpadSubtract => {
            reveal_strlit("Num -");
        },
        KeyCode::NumpadDecimal => {
            reveal_strlit("Num .");
        },
        KeyCode::NumpadDivide => {
            reveal_strlit("Num /");
        },
        KeyCode::NumLock => {
            reveal_strlit("Num Lock");
        },
    }
}

/// Distinct keys have distinct display names, so a hotkey shown to the
/// user names its keys unambiguously.
pub proof fn lemma_display_name_injective(k1: KeyCode, k2: KeyCode)
    requires
        key_display_name(k1) == key_display_name(k2),
    ensures
        k1 == k2,
{
    lemma_display_code_decodes(k1);
    lemma_display_code_decodes(k2);
}

proof fn lemma_prefix_by_chars(s: Seq<char>, p: Seq<char>)
    ensures
        has_prefix(s, p) <==> (p.len() <= s.len() && forall|i: int| 0 <= i < p.len() ==> s[i] == p[i]),
        has_prefix(s, p) && 0 < p.len() ==> s[0] == p[0],
{
    if p.len() <= s.len() && forall|i: int| 0 <= i < p.len() ==> s[i] == p[i] {
        assert(s.subrange(0, p.len() as int) =~= p);
    }
    if has_prefix(s, p) {
        assert forall|i: int| 0 <= i < p.len() implies s[i] == p[i] by {
            assert(s.subrange(0, p.len() as int)[i] == p[i]);
        }
    }
}

/// The side of a key shows in its name: a key whose variant name begins
/// with `Left` or `Right` (the modifiers of either hand) is shown as
/// `Left ...` or `Right ...`, and no other key is.
pub proof fn lemma_display_name_shows_side(k: KeyCode)
    ensures
        has_prefix(key_debug_name(k), "Left"@) <==> has_prefix(key_display_name(k), "Left "@),
        has_prefix(key_debug_name(k), "Right"@) <==> has_prefix(key_display_name(k), "Right "@),
{
    reveal_strlit("Left");
    reveal_strlit("Left ");
    reveal_strlit("Right");
    reveal_strlit("Right ");
    lemma_prefix_by_chars(key_debug_name(k), "Left"@);
    lemma_prefix_by_chars(key_display_name(k), "Left "@);
    lemma_prefix_by_chars(key_debug_name(k), "Right"@);
    lemma_prefix_by_chars(key_display_name(k), "Right "@);
    match k {
        KeyCode::RightAlt => {
            reveal_strlit("Right Alt");
            reveal_strlit("RightAlt");
        },
        KeyCode::LeftAlt => {
            reveal_strlit("Left Alt");
            reveal_strlit("LeftAlt");
        },
        KeyCode::RightControl => {
            reveal_strlit("Right Ctrl");
            reveal_strlit("RightControl");
        },
        KeyCode::LeftControl => {
            reveal_strlit("Left Ctrl");
            reveal_strlit("LeftControl");
        },
        KeyCode::RightShift => {
            reveal_strlit("Right Shift");
            reveal_strlit("RightShift");
        },
        KeyCode::LeftShift => {
            reveal_strlit("Left Shift");
            reveal_strlit("LeftShift");
        },
        KeyCode::CapsLock => {
            reveal_strlit("Caps Lock");
            reveal_strlit("CapsLock");
        },
        KeyCode::LeftMeta => {
            reveal_strlit("Left Win");
            reveal_strlit("LeftMeta");
        },
        KeyCode::RightMeta => {
            reveal_strlit("Right Win");
            reveal_strlit("RightMeta");
        },
        KeyCode::F1 => {
            reveal_strlit("F1");
            reveal_strlit("F1");
        },
        KeyCode::F2 => {
            reveal_strlit("F2");
            reveal_strlit("F2");
        },
        KeyCode::F3 => {
            reveal_strlit("F3");
            reveal_strlit("F3");
        },
        KeyCode::F4 => {
            reveal_strlit("F4");
            reveal_strlit("F4");
        },
        KeyCode::F5 => {
            reveal_strlit("F5");
            reveal_strlit("F5");
        },
        KeyCode::F6 => {
            reveal_strlit("F6");
            reveal_strlit("F6");
        },
        KeyCode::F7 => {
            reveal_strlit("F7");
            reveal_strlit("F7");
        },
        KeyCode::F8 => {
            reveal_strlit("F8");
            reveal_strlit("F8");
        },
        KeyCode::F9 => {
            reveal_strlit("F9");
            reveal_strlit("F9");
        },
        KeyCode::F10 => {
            reveal_strlit("F10");
            reveal_strlit("F10");
        },
        KeyCode::F11 => {
            reveal_strlit("F11");
            reveal_strlit("F11");
        },
        KeyCode::F12 => {
            reveal_strlit("F12");
            reveal_strlit("F12");
        },
        KeyCode::F13 => {
            reveal_strlit("F13");
            reveal_strlit("F13");
        },
        KeyCode::F14 => {
            reveal_strlit("F14");
            reveal_strlit("F14");
        },
        KeyCode::F15 => {
            reveal_strlit("F15");
            reveal_strlit("F15");
        },
        KeyCode::F16 => {
            reveal_strlit("F16");
            reveal_strlit("F16");
        },
        KeyCode::F17 => {
            reveal_strlit("F17");
            reveal_strlit("F17");
        },
        KeyCode::F18 => {
            reveal_strlit("F18");
            reveal_strlit("F18");
        },
        KeyCode::F19 => {
            reveal_strlit("F19");
            reveal_strlit("F19");
        },
        KeyCode::F20 => {
            reveal_strlit("F20");
            reveal_strlit("F20");
        },
        KeyCode::F21 => {
            reveal_strlit("F21");
            reveal_strlit("F21");
        },
        KeyCode::F22 => {
            reveal_strlit("F22");
            reveal_strlit("F22");
        },
        KeyCode::F23 => {
            reveal_strlit("F23");
            reveal_strlit("F23");
        },
        KeyCode::F24 => {
            reveal_strlit("F24");
            reveal_strlit("F24");
        },
        KeyCode::KeyA => {
            reveal_strlit("A");
            reveal_strlit("KeyA");
        },
        KeyCode::KeyB => {
            reveal_strlit("B");
            reveal_strlit("KeyB");
        },
        KeyCode::KeyC => {
            reveal_strlit("C");
            reveal_strlit("KeyC");
        },
        KeyCode::KeyD => {
            reveal_strlit("D");
            reveal_strlit("KeyD");
        },
        KeyCode::KeyE => {
            reveal_strlit("E");
            reveal_strlit("KeyE");
        },
        KeyCode::KeyF => {
            reveal_strlit("F");
            reveal_strlit("KeyF");
        },
        KeyCode::KeyG => {
            reveal_strlit("G");
            reveal_strlit("KeyG");
        },
        KeyCode::KeyH => {
            reveal_strlit("H");
            reveal_strlit("KeyH");
        },
        KeyCode::KeyI => {
            reveal_strlit("I");
            reveal_strlit("KeyI");
        },
        KeyCode::KeyJ => {
            reveal_strlit("J");
            reveal_strlit("KeyJ");
        },
        KeyCode::KeyK => {
            reveal_strlit("K");
            reveal_strlit("KeyK");
        },
        KeyCode::KeyL => {
            reveal_strlit("L");
            reveal_strlit("KeyL");
        },
        KeyCode::KeyM => {
            reveal_strlit("M");
            reveal_strlit("KeyM");
        },
        KeyCode::KeyN => {
            reveal_strlit("N");
            reveal_strlit("KeyN");
        },
        KeyCode::KeyO => {
            reveal_strlit("O");
            reveal_strlit("KeyO");
        },
        KeyCode::KeyP => {
            reveal_strlit("P");
            reveal_strlit("KeyP");
        },
        KeyCode::KeyQ => {
            reveal_strlit("Q");
            reveal_strlit("KeyQ");
        },
        KeyCode::KeyR => {
            reveal_strlit("R");
            reveal_strlit("KeyR");
        },
        KeyCode::KeyS => {
            reveal_strlit("S");
            reveal_strlit("KeyS");
        },
        KeyCode::KeyT => {
            reveal_strlit("T");
            reveal_strlit("KeyT");
        },
        KeyCode::KeyU => {
            reveal_strlit("U");
            reveal_strlit("KeyU");
        },
        KeyCode::KeyV => {
            reveal_strlit("V");
            reveal_strlit("KeyV");
        },
        KeyCode::KeyW => {
            reveal_strlit("W");
            reveal_strlit("KeyW");
        },
        KeyCode::KeyX => {
            reveal_strlit("X");
            reveal_strlit("KeyX");
        },
        KeyCode::KeyY => {
            reveal_strlit("Y");
            reveal_strlit("KeyY");
        },
        KeyCode::KeyZ => {
            reveal_strlit("Z");
            reveal_strlit("KeyZ");
        },
        KeyCode::Digit0 => {
            reveal_strlit("0");
            reveal_strlit("Digit0");
        },
        KeyCode::Digit1 => {
            reveal_strlit("1");
            reveal_strlit("Digit1");
        },
        KeyCode::Digit2 => {
            reveal_strlit("2");
            reveal_strlit("Digit2");
        },
        KeyCode::Digit3 => {
            reveal_strlit("3");
            reveal_strlit("Digit3");
        },
        KeyCode::Digit4 => {
            reveal_strlit("4");
            reveal_strlit("Digit4");
        },
        KeyCode::Digit5 => {
            reveal_strlit("5");
            reveal_strlit("Digit5");
        },
        KeyCode::Digit6 => {
            reveal_strlit("6");
            reveal_strlit("Digit6");
        },
        KeyCode::Digit7 => {
            reveal_strlit("7");
            reveal_strlit("Digit7");
        },
        KeyCode::Digit8 => {
            reveal_strlit("8");
            reveal_strlit("Digit8");
        },
        KeyCode::Digit9 => {
            reveal_strlit("9");
            reveal_strlit("Digit9");
        },
        KeyCode::ArrowUp => {
            reveal_strlit("Up");
            reveal_strlit("ArrowUp");
        },
        KeyCode::ArrowDown => {
            reveal_strlit("Down");
            reveal_strlit("ArrowDown");
        },
        KeyCode::ArrowLeft => {
            reveal_strlit("Left");
            reveal_strlit("ArrowLeft");
        },
        KeyCode::ArrowRight => {
            reveal_strlit("Right");
            reveal_strlit("ArrowRight");
        },
        KeyCode::Home => {
            reveal_strlit("Home");
            reveal_strlit("Home");
        },
        KeyCode::End => {
            reveal_strlit("End");
            reveal_strlit("End");
        },
        KeyCode::PageUp => {
            reveal_strlit("Page Up");
            reveal_strlit("PageUp");
        },
        KeyCode::PageDown => {
            reveal_strlit("Page Down");
            reveal_strlit("PageDown");
        },
        KeyCode::Insert => {
            reveal_strlit("Insert");
            reveal_strlit("Insert");
        },
        KeyCode::Delete => {
            reveal_strlit("Delete");
            reveal_strlit("Delete");
        },
        KeyCode::Escape => {
            reveal_strlit("Esc");
            reveal_strlit("Escape");
        },
        KeyCode::Tab => {
            reveal_strlit("Tab");
            reveal_strlit("Tab");
        },
        KeyCode::Space => {
            reveal_strlit("Space");
            reveal_strlit("Space");
        },
        KeyCode::Enter => {
            reveal_strlit("Enter");
            reveal_strlit("Enter");
        },
        KeyCode::Backspace => {
            reveal_strlit("Backspace");
            reveal_strlit("Backspace");
        },
        KeyCode::PrintScreen => {
            reveal_strlit("Print Screen");
            reveal_strlit("PrintScreen");
        },
        KeyCode::ScrollLock => {
            reveal_strlit("Scroll Lock");
            reveal_strlit("ScrollLock");
        },
        KeyCode::Pause => {
            reveal_strlit("Pause");
            reveal_strlit("Pause");
        },
        KeyCode::Minus => {
            reveal_strlit("-");
            reveal_strlit("Minus");
        },
        KeyCode::Equal => {
            reveal_strlit("=");
            reveal_strlit("Equal");
        },
        KeyCode::BracketLeft => {
            reveal_strlit("[");
            reveal_strlit("BracketLeft");
        },
        KeyCode::BracketRight => {
            reveal_strlit("]");
            reveal_strlit("BracketRight");
        },
        KeyCode::Backslash => {
            reveal_strlit("\\");
            reveal_strlit("Backslash");
        },
        KeyCode::Semicolon => {
            reveal_strlit(";");
            reveal_strlit("Semicolon");
        },
        KeyCode::Quote => {
            reveal_strlit("'");
            reveal_strlit("Quote");
        },
        KeyCode::Backquote => {
            reveal_strlit("`");
            reveal_strlit("Backquote");
        },
        KeyCode::Comma => {
            reveal_strlit(",");
            reveal_strlit("Comma");
        },
        KeyCode::Period => {
            reveal_strlit(".");
            reveal_strlit("Period");
        },
        KeyCode::Slash => {
            reveal_strlit("/");
            reveal_strlit("Slash");
        },
        KeyCode::Numpad0 => {
            reveal_strlit("Num 0");
            reveal_strlit("Numpad0");
        },
        KeyCode::Numpad1 => {
            reveal_strlit("Num 1");
            reveal_strlit("Numpad1");
        },
        KeyCode::Numpad2 => {
            reveal_strlit("Num 2");
            reveal_strlit("Numpad2");
        },
        KeyCode::Numpad3 => {
            reveal_strlit("Num 3");
            reveal_strlit("Numpad3");
        },
        KeyCode::Numpad4 => {
            reveal_strlit("Num 4");
            reveal_strlit("Numpad4");
        },
        KeyCode::Numpad5 => {
            reveal_strlit("Num 5");
            reveal_strlit("Numpad5");
        },
        KeyCode::Numpad6 => {
            reveal_strlit("Num 6");
            reveal_strlit("Numpad6");
        },
        KeyCode::Numpad7 => {
            reveal_strlit("Num 7");
            reveal_strlit("Numpad7");
        },
        KeyCode::Numpad8 => {
            reveal_strlit("Num 8");
            reveal_strlit("Numpad8");
        },
        KeyCode::Numpad9 => {
            reveal_strlit("Num 9");
            reveal_strlit("Numpad9");
        },
        KeyCode::NumpadMultiply => {
            reveal_strlit("Num *");
            reveal_strlit("NumpadMultiply");
        },
        KeyCode::NumpadAdd => {
            reveal_strlit("Num +");
            reveal_strlit("NumpadAdd");
        },
        KeyCode::NumpadSubtract => {
            reveal_strlit("Num -");
            reveal_strlit("NumpadSubtract");
        },
        KeyCode::NumpadDecimal => {
            reveal_strlit("Num .");
            reveal_strlit("NumpadDecimal");
        },
        KeyCode::NumpadDivide => {
            reveal_strlit("Num /");
            reveal_strlit("NumpadDivide");
        },
        KeyCode::NumLock => {
            reveal_strlit("Num Lock");
            reveal_strlit("NumLock");
        },
    }
}

/// What each modifier key is called on screen.
pub proof fn lemma_modifier_display_names()
    ensures
        key_display_name(KeyCode::LeftAlt) == "Left Alt"@,
        key_display_name(KeyCode::RightAlt) == "Right Alt"@,
        key_display_name(KeyCode::LeftControl) == "Left Ctrl"@,
        key_display_name(KeyCode::RightControl) == "Right Ctrl"@,
        key_display_name(KeyCode::LeftShift) == "Left Shift"@,
        key_display_name(KeyCode::RightShift) == "Right Shift"@,
        key_display_name(KeyCode::LeftMeta) == "Left Win"@,
        key_display_name(KeyCode::RightMeta) == "Right Win"@,
{
}

/// `out` is the canonical form of the key list `keys`: each of its keys
/// once, sorted by `Debug` name.
pub open spec fn is_canonical_keys(keys: Seq<KeyCode>, out: Seq<KeyCode>) -> bool {
    &&& out.no_duplicates()
    &&& out.to_set() == keys.to_set()
    &&& keys_sorted_by_name(out)
}

/// Two duplicate-free, name-sorted key sequences with the same keys are equal.
proof fn lemma_sorted_keys_unique(r1: Seq<KeyCode>, r2: Seq<KeyCode>)
    requires
        r1.no_duplicates(),
        r2.no_duplicates(),
        keys_sorted_by_name(r1),
        keys_sorted_by_name(r2),
        r1.to_set() == r2.to_set(),
    ensures
        r1 == r2,
    decreases r1.len(),
{
    if r1.len() == 0 || r2.len() == 0 {
        if r2.len() > 0 {
            assert(r2.to_set().contains(r2[0]));
        }
        if r1.len() > 0 {
            assert(r1.to_set().contains(r1[0]));
        }
        assert(r1 =~= r2);
    } else {
        let x = r1[0];
        let y = r2[0];
        assert(r1.to_set().contains(x));
        assert(r2.to_set().contains(y));
        let j = choose|j: int| 0 <= j < r2.len() && r2[j] == x;
        let i = choose|i: int| 0 <= i < r1.len() && r1[i] == y;
        if x != y {
            if key_debug_name(x) == key_debug_name(y) {
                lemma_debug_name_injective(x, y);
            }
            assert(i > 0 && j > 0);
            assert(!seq_lt(key_debug_name(r1[i]), key_debug_name(r1[0])));
            assert(!seq_lt(key_debug_name(r2[j]), key_debug_name(r2[0])));
            lemma_seq_lt_total(key_debug_name(x), key_debug_name(y));
        }
        let t1 = r1.drop_first();
        let t2 = r2.drop_first();
        assert(t1.to_set() =~= t2.to_set()) by {
            assert forall|k: KeyCode| t1.to_set().contains(k) implies t2.to_set().contains(k) by {
                let a = choose|a: int| 0 <= a < t1.len() && t1[a] == k;
                assert(r1[a + 1] == k);
                assert(r1.to_set().contains(k));
                let b = choose|b: int| 0 <= b < r2.len() && r2[b] == k;
                assert(b != 0);
                assert(t2[b - 1] == k);
            }
            assert forall|k: KeyCode| t2.to_set().contains(k) implies t1.to_set().contains(k) by {
                let a = choose|a: int| 0 <= a < t2.len() && t2[a] == k;
                assert(r2[a + 1] == k);
                assert(r2.to_set().contains(k));
                let b = choose|b: int| 0 <= b < r1.len() && r1[b] == k;
                assert(b != 0);
                assert(t1[b - 1] == k);
            }
        }
        assert forall|p: int, q: int| 0 <= p < q < t1.len() implies !seq_lt(
            #[trigger] key_debug_name(t1[q]),
            #[trigger] key_debug_name(t1[p]),
        ) by {
            assert(t1[q] == r1[q + 1] && t1[p] == r1[p + 1]);
        }
        assert forall|p: int, q: int| 0 <= p < q < t2.len() implies !seq_lt(
            #[trigger] key_debug_name(t2[q]),
            #[trigger] key_debug_name(t2[p]),
        ) by {
            assert(t2[q] == r2[q + 1] && t2[p] == r2[p + 1]);
        }
        lemma_sorted_keys_unique(t1, t2);
        assert(r1 =~= seq![x] + t1);
        assert(r2 =~= seq![y] + t2);
    }
}

/// Making a combination is canonical: key lists that hold the same keys,
/// in any order and with any repetitions, give the same keys in the same
/// order.
pub proof fn lemma_combination_keys_canonical(
    a: Seq<KeyCode>,
    b: Seq<KeyCode>,
    ra: Seq<KeyCode>,
    rb: Seq<KeyCode>,
)
    requires
        is_canonical_keys(a, ra),
        is_canonical_keys(b, rb),
        a.to_set() == b.to_set(),
    ensures
        ra == rb,
{
    lemma_sorted_keys_unique(ra, rb);
}

/// Filtering keeps, of each key the predicate admits, every occurrence.
proof fn lemma_filter_counts(s: Seq<KeyCode>, pred: spec_fn(KeyCode) -> bool, x: KeyCode)
    ensures
        s.filter(pred).to_multiset().count(x) == (if pred(x) {
            s.to_multiset().count(x)
        } else {
            0
        }),
    decreases s.len(),
{
    broadcast use vstd::multiset::group_multiset_axioms;

    reveal_with_fuel(Seq::<_>::filter, 1);
    if s.len() == 0 {
        vstd::seq_lib::to_multiset_contains(s, x);
        vstd::seq_lib::to_multiset_contains(s.filter(pred), x);
        assert(s.filter(pred).len() == 0);
    } else {
        let init = s.drop_last();
        let last = s.last();
        lemma_filter_counts(init, pred, x);
        assert(init.push(last) =~= s);
        vstd::seq_lib::to_multiset_build(init, last);
        if pred(last) {
            assert(s.filter(pred) == init.filter(pred).push(last));
            vstd::seq_lib::to_multiset_build(init.filter(pred), last);
        } else {
            assert(s.filter(pred) == init.filter(pred));
        }
    }
}

/// Key sequences holding the same keys, each as often, filter to sequences
/// holding the same keys.
proof fn lemma_filter_same_multiset(a: Seq<KeyCode>, b: Seq<KeyCode>, pred: spec_fn(KeyCode) -> bool)
    requires
        a.to_multiset() == b.to_multiset(),
    ensures
        a.filter(pred).to_multiset() == b.filter(pred).to_multiset(),
{
    assert forall|x: KeyCode| a.filter(pred).to_multiset().count(x) == b.filter(pred).to_multiset().count(x) by {
        lemma_filter_counts(a, pred, x);
        lemma_filter_counts(b, pred, x);
    }
    assert(a.filter(pred).to_multiset() =~= b.filter(pred).to_multiset());
}

/// Two name-sorted key sequences holding the same keys, each as often, are
/// equal.
proof fn lemma_sorted_multiset_unique(m1: Seq<KeyCode>, m2: Seq<KeyCode>)
    requires
        keys_sorted_by_name(m1),
        keys_sorted_by_name(m2),
        m1.to_multiset() == m2.to_multiset(),
    ensures
        m1 == m2,
    decreases m1.len(),
{
    vstd::seq_lib::to_multiset_len(m1);
    vstd::seq_lib::to_multiset_len(m2);
    if m1.len() == 0 {
        assert(m1 =~= m2);
    } else {
        let x = m1[0];
        let y = m2[0];
        vstd::seq_lib::to_multiset_contains(m1, x);
        vstd::seq_lib::to_multiset_contains(m2, x);
        vstd::seq_lib::to_multiset_contains(m1, y);
        vstd::seq_lib::to_multiset_contains(m2, y);
        assert(m1.contains(x));
        assert(m2.contains(y));
        let j = choose|j: int| 0 <= j < m2.len() && m2[j] == x;
        let i = choose|i: int| 0 <= i < m1.len() && m1[i] == y;
        if x != y {
            if key_debug_name(x) == key_debug_name(y) {
                lemma_debug_name_injective(x, y);
            }
            assert(i > 0 && j > 0);
            assert(!seq_lt(key_debug_name(m1[i]), key_debug_name(m1[0])));
            assert(!seq_lt(key_debug_name(m2[j]), key_debug_name(m2[0])));
            lemma_seq_lt_total(key_debug_name(x), key_debug_name(y));
        }
        let t1 = m1.drop_first();
        let t2 = m2.drop_first();
        assert(m1.remove(0) =~= t1);
        assert(m2.remove(0) =~= t2);
        vstd::seq_lib::to_multiset_remove(m1, 0);
        vstd::seq_lib::to_multiset_remove(m2, 0);
        assert forall|p: int, q: int| 0 <= p < q < t1.len() implies !seq_lt(
            #[trigger] key_debug_name(t1[q]),
            #[trigger] key_debug_name(t1[p]),
        ) by {
            assert(t1[q] == m1[q + 1] && t1[p] == m1[p + 1]);
        }
        assert forall|p: int, q: int| 0 <= p < q < t2.len() implies !seq_lt(
            #[trigger] key_debug_name(t2[q]),
            #[trigger] key_debug_name(t2[p]),
        ) by {
            assert(t2[q] == m2[q + 1] && t2[p] == m2[p + 1]);
        }
        lemma_sorted_multiset_unique(t1, t2);
        assert(m1 =~= seq![x] + t1);
        assert(m2 =~= seq![y] + t2);
    }
}

/// A combination's display does not depend on the order of its keys: key
/// lists holding the same keys, each as often, are shown by the same text.
pub proof fn lemma_display_ignores_key_order(
    a: Seq<KeyCode>,
    b: Seq<KeyCode>,
    ta: Seq<char>,
    tb: Seq<char>,
)
    requires
        a.to_multiset() == b.to_multiset(),
        is_combination_display(a, ta),
        is_combination_display(b, tb),
    ensures
        ta == tb,
{
    let ma = choose|m: Seq<KeyCode>, o: Seq<KeyCode>|
        {
            &&& m.to_multiset() == a.filter(|k: KeyCode| key_is_modifier(k)).to_multiset()
            &&& o.to_multiset() == a.filter(|k: KeyCode| !key_is_modifier(k)).to_multiset()
            &&& keys_sorted_by_name(m)
            &&& keys_sorted_by_name(o)
            &&& ta == join_display_names(m + o)
        };
    let mb = choose|m: Seq<KeyCode>, o: Seq<KeyCode>|
        {
            &&& m.to_multiset() == b.filter(|k: KeyCode| key_is_modifier(k)).to_multiset()
            &&& o.to_multiset() == b.filter(|k: KeyCode| !key_is_modifier(k)).to_multiset()
            &&& keys_sorted_by_name(m)
            &&& keys_sorted_by_name(o)
            &&& tb == join_display_names(m + o)
        };
    lemma_filter_same_multiset(a, b, |k: KeyCode| key_is_modifier(k));
    lemma_filter_same_multiset(a, b, |k: KeyCode| !key_is_modifier(k));
    lemma_sorted_multiset_unique(ma.0, mb.0);
    lemma_sorted_multiset_unique(ma.1, mb.1);
}
} // verus!
