//! Platform key codes: Windows Raw Input virtual keys and macOS virtual key
//! codes, and how they map to and from the platform-independent key codes.

use vstd::prelude::*;
use crate::types::KeyCode;

verus! {

/// Raw input flag: key up (break).
pub const RI_KEY_BREAK: u16 = 1;

/// Raw input flag: extended key (E0 prefix).
pub const RI_KEY_E0: u16 = 2;

/// The key a Windows Raw Input event names: the virtual key, the E0 flag that
/// tells right Alt/Control from left, and the make (scan) code that tells
/// right Shift (0x36) from left.
pub open spec fn raw_input_key(vk_code: u16, is_e0: bool, make_code: u16) -> Option<KeyCode> {
    match (vk_code, is_e0, make_code) {
        (0x12, true, _) => Some(KeyCode::RightAlt),
        (0x12, false, _) => Some(KeyCode::LeftAlt),
        (0x11, true, _) => Some(KeyCode::RightControl),
        (0x11, false, _) => Some(KeyCode::LeftControl),
        (0x10, _, 0x36) => Some(KeyCode::RightShift),
        (0x10, _, _) => Some(KeyCode::LeftShift),
        (0x14, _, _) => Some(KeyCode::CapsLock),
        (0x5B, _, _) => Some(KeyCode::LeftMeta),
        (0x5C, _, _) => Some(KeyCode::RightMeta),
        (0x70, _, _) => Some(KeyCode::F1),
        (0x71, _, _) => Some(KeyCode::F2),
        (0x72, _, _) => Some(KeyCode::F3),
        (0x73, _, _) => Some(KeyCode::F4),
        (0x74, _, _) => Some(KeyCode::F5),
        (0x75, _, _) => Some(KeyCode::F6),
        (0x76, _, _) => Some(KeyCode::F7),
        (0x77, _, _) => Some(KeyCode::F8),
        (0x78, _, _) => Some(KeyCode::F9),
        (0x79, _, _) => Some(KeyCode::F10),
        (0x7A, _, _) => Some(KeyCode::F11),
        (0x7B, _, _) => Some(KeyCode::F12),
        (0x7C, _, _) => Some(KeyCode::F13),
        (0x7D, _, _) => Some(KeyCode::F14),
        (0x7E, _, _) => Some(KeyCode::F15),
        (0x7F, _, _) => Some(KeyCode::F16),
        (0x80, _, _) => Some(KeyCode::F17),
        (0x81, _, _) => Some(KeyCode::F18),
        (0x82, _, _) => Some(KeyCode::F19),
        (0x83, _, _) => Some(KeyCode::F20),
        (0x84, _, _) => Some(KeyCode::F21),
        (0x85, _, _) => Some(KeyCode::F22),
        (0x86, _, _) => Some(KeyCode::F23),
        (0x87, _, _) => Some(KeyCode::F24),
        (0x41, _, _) => Some(KeyCode::KeyA),
        (0x42, _, _) => Some(KeyCode::KeyB),
        (0x43, _, _) => Some(KeyCode::KeyC),
        (0x44, _, _) => Some(KeyCode::KeyD),
        (0x45, _, _) => Some(KeyCode::KeyE),
        (0x46, _, _) => Some(KeyCode::KeyF),
        (0x47, _, _) => Some(KeyCode::KeyG),
        (0x48, _, _) => Some(KeyCode::KeyH),
        (0x49, _, _) => Some(KeyCode::KeyI),
        (0x4A, _, _) => Some(KeyCode::KeyJ),
        (0x4B, _, _) => Some(KeyCode::KeyK),
        (0x4C, _, _) => Some(KeyCode::KeyL),
        (0x4D, _, _) => Some(KeyCode::KeyM),
        (0x4E, _, _) => Some(KeyCode::KeyN),
        (0x4F, _, _) => Some(KeyCode::KeyO),
        (0x50, _, _) => Some(KeyCode::KeyP),
        (0x51, _, _) => Some(KeyCode::KeyQ),
        (0x52, _, _) => Some(KeyCode::KeyR),
        (0x53, _, _) => Some(KeyCode::KeyS),
        (0x54, _, _) => Some(KeyCode::KeyT),
        (0x55, _, _) => Some(KeyCode::KeyU),
        (0x56, _, _) => Some(KeyCode::KeyV),
        (0x57, _, _) => Some(KeyCode::KeyW),
        (0x58, _, _) => Some(KeyCode::KeyX),
        (0x59, _, _) => Some(KeyCode::KeyY),
        (0x5A, _, _) => Some(KeyCode::KeyZ),
        (0x30, _, _) => Some(KeyCode::Digit0),
        (0x31, _, _) => Some(KeyCode::Digit1),
        (0x32, _, _) => Some(KeyCode::Digit2),
        (0x33, _, _) => Some(KeyCode::Digit3),
        (0x34, _, _) => Some(KeyCode::Digit4),
        (0x35, _, _) => Some(KeyCode::Digit5),
        (0x36, _, _) => Some(KeyCode::Digit6),
        (0x37, _, _) => Some(KeyCode::Digit7),
        (0x38, _, _) => Some(KeyCode::Digit8),
        (0x39, _, _) => Some(KeyCode::Digit9),
        (0x26, _, _) => Some(KeyCode::ArrowUp),
        (0x28, _, _) => Some(KeyCode::ArrowDown),
        (0x25, _, _) => Some(KeyCode::ArrowLeft),
        (0x27, _, _) => Some(KeyCode::ArrowRight),
        (0x24, _, _) => Some(KeyCode::Home),
        (0x23, _, _) => Some(KeyCode::End),
        (0x21, _, _) => Some(KeyCode::PageUp),
        (0x22, _, _) => Some(KeyCode::PageDown),
        (0x2D, _, _) => Some(KeyCode::Insert),
        (0x2E, _, _) => Some(KeyCode::Delete),
        (0x1B, _, _) => Some(KeyCode::Escape),
        (0x09, _, _) => Some(KeyCode::Tab),
        (0x20, _, _) => Some(KeyCode::Space),
        (0x0D, _, _) => Some(KeyCode::Enter),
        (0x08, _, _) => Some(KeyCode::Backspace),
        (0x2C, _, _) => Some(KeyCode::PrintScreen),
        (0x91, _, _) => Some(KeyCode::ScrollLock),
        (0x13, _, _) => Some(KeyCode::Pause),
        (0xBD, _, _) => Some(KeyCode::Minus),
        (0xBB, _, _) => Some(KeyCode::Equal),
        (0xDB, _, _) => Some(KeyCode::BracketLeft),
        (0xDD, _, _) => Some(KeyCode::BracketRight),
        (0xDC, _, _) => Some(KeyCode::Backslash),
        (0xBA, _, _) => Some(KeyCode::Semicolon),
        (0xDE, _, _) => Some(KeyCode::Quote),
        (0xC0, _, _) => Some(KeyCode::Backquote),
        (0xBC, _, _) => Some(KeyCode::Comma),
        (0xBE, _, _) => Some(KeyCode::Period),
        (0xBF, _, _) => Some(KeyCode::Slash),
        (0x60, _, _) => Some(KeyCode::Numpad0),
        (0x61, _, _) => Some(KeyCode::Numpad1),
        (0x62, _, _) => Some(KeyCode::Numpad2),
        (0x63, _, _) => Some(KeyCode::Numpad3),
        (0x64, _, _) => Some(KeyCode::Numpad4),
        (0x65, _, _) => Some(KeyCode::Numpad5),
        (0x66, _, _) => Some(KeyCode::Numpad6),
        (0x67, _, _) => Some(KeyCode::Numpad7),
        (0x68, _, _) => Some(KeyCode::Numpad8),
        (0x69, _, _) => Some(KeyCode::Numpad9),
        (0x6A, _, _) => Some(KeyCode::NumpadMultiply),
        (0x6B, _, _) => Some(KeyCode::NumpadAdd),
        (0x6D, _, _) => Some(KeyCode::NumpadSubtract),
        (0x6E, _, _) => Some(KeyCode::NumpadDecimal),
        (0x6F, _, _) => Some(KeyCode::NumpadDivide),
        (0x90, _, _) => Some(KeyCode::NumLock),
        _ => None,
    }
}

/// Convert a Raw Input virtual key, E0 flag and make code to a key code.
/// Returns `None` for unmapped keys.
pub fn raw_input_to_keycode(vk_code: u16, is_e0: bool, make_code: u16) -> (r: Option<KeyCode>)
    ensures
        r == raw_input_key(vk_code, is_e0, make_code),
{
    match (vk_code, is_e0, make_code) {
        (0x12, true, _) => Some(KeyCode::RightAlt),
        (0x12, false, _) => Some(KeyCode::LeftAlt),
        (0x11, true, _) => Some(KeyCode::RightControl),
        (0x11, false, _) => Some(KeyCode::LeftControl),
        (0x10, _, 0x36) => Some(KeyCode::RightShift),
        (0x10, _, _) => Some(KeyCode::LeftShift),
        (0x14, _, _) => Some(KeyCode::CapsLock),
        (0x5B, _, _) => Some(KeyCode::LeftMeta),
        (0x5C, _, _) => Some(KeyCode::RightMeta),
        (0x70, _, _) => Some(KeyCode::F1),
        (0x71, _, _) => Some(KeyCode::F2),
        (0x72, _, _) => Some(KeyCode::F3),
        (0x73, _, _) => Some(KeyCode::F4),
        (0x74, _, _) => Some(KeyCode::F5),
        (0x75, _, _) => Some(KeyCode::F6),
        (0x76, _, _) => Some(KeyCode::F7),
        (0x77, _, _) => Some(KeyCode::F8),
        (0x78, _, _) => Some(KeyCode::F9),
        (0x79, _, _) => Some(KeyCode::F10),
        (0x7A, _, _) => Some(KeyCode::F11),
        (0x7B, _, _) => Some(KeyCode::F12),
        (0x7C, _, _) => Some(KeyCode::F13),
        (0x7D, _, _) => Some(KeyCode::F14),
        (0x7E, _, _) => Some(KeyCode::F15),
        (0x7F, _, _) => Some(KeyCode::F16),
        (0x80, _, _) => Some(KeyCode::F17),
        (0x81, _, _) => Some(KeyCode::F18),
        (0x82, _, _) => Some(KeyCode::F19),
        (0x83, _, _) => Some(KeyCode::F20),
        (0x84, _, _) => Some(KeyCode::F21),
        (0x85, _, _) => Some(KeyCode::F22),
        (0x86, _, _) => Some(KeyCode::F23),
        (0x87, _, _) => Some(KeyCode::F24),
        (0x41, _, _) => Some(KeyCode::KeyA),
        (0x42, _, _) => Some(KeyCode::KeyB),
        (0x43, _, _) => Some(KeyCode::KeyC),
        (0x44, _, _) => Some(KeyCode::KeyD),
        (0x45, _, _) => Some(KeyCode::KeyE),
        (0x46, _, _) => Some(KeyCode::KeyF),
        (0x47, _, _) => Some(KeyCode::KeyG),
        (0x48, _, _) => Some(KeyCode::KeyH),
        (0x49, _, _) => Some(KeyCode::KeyI),
        (0x4A, _, _) => Some(KeyCode::KeyJ),
        (0x4B, _, _) => Some(KeyCode::KeyK),
        (0x4C, _, _) => Some(KeyCode::KeyL),
        (0x4D, _, _) => Some(KeyCode::KeyM),
        (0x4E, _, _) => Some(KeyCode::KeyN),
        (0x4F, _, _) => Some(KeyCode::KeyO),
        (0x50, _, _) => Some(KeyCode::KeyP),
        (0x51, _, _) => Some(KeyCode::KeyQ),
        (0x52, _, _) => Some(KeyCode::KeyR),
        (0x53, _, _) => Some(KeyCode::KeyS),
        (0x54, _, _) => Some(KeyCode::KeyT),
        (0x55, _, _) => Some(KeyCode::KeyU),
        (0x56, _, _) => Some(KeyCode::KeyV),
        (0x57, _, _) => Some(KeyCode::KeyW),
        (0x58, _, _) => Some(KeyCode::KeyX),
        (0x59, _, _) => Some(KeyCode::KeyY),
        (0x5A, _, _) => Some(KeyCode::KeyZ),
        (0x30, _, _) => Some(KeyCode::Digit0),
        (0x31, _, _) => Some(KeyCode::Digit1),
        (0x32, _, _) => Some(KeyCode::Digit2),
        (0x33, _, _) => Some(KeyCode::Digit3),
        (0x34, _, _) => Some(KeyCode::Digit4),
        (0x35, _, _) => Some(KeyCode::Digit5),
        (0x36, _, _) => Some(KeyCode::Digit6),
        (0x37, _, _) => Some(KeyCode::Digit7),
        (0x38, _, _) => Some(KeyCode::Digit8),
        (0x39, _, _) => Some(KeyCode::Digit9),
        (0x26, _, _) => Some(KeyCode::ArrowUp),
        (0x28, _, _) => Some(KeyCode::ArrowDown),
        (0x25, _, _) => Some(KeyCode::ArrowLeft),
        (0x27, _, _) => Some(KeyCode::ArrowRight),
        (0x24, _, _) => Some(KeyCode::Home),
        (0x23, _, _) => Some(KeyCode::End),
        (0x21, _, _) => Some(KeyCode::PageUp),
        (0x22, _, _) => Some(KeyCode::PageDown),
        (0x2D, _, _) => Some(KeyCode::Insert),
        (0x2E, _, _) => Some(KeyCode::Delete),
        (0x1B, _, _) => Some(KeyCode::Escape),
        (0x09, _, _) => Some(KeyCode::Tab),
        (0x20, _, _) => Some(KeyCode::Space),
        (0x0D, _, _) => Some(KeyCode::Enter),
        (0x08, _, _) => Some(KeyCode::Backspace),
        (0x2C, _, _) => Some(KeyCode::PrintScreen),
        (0x91, _, _) => Some(KeyCode::ScrollLock),
        (0x13, _, _) => Some(KeyCode::Pause),
        (0xBD, _, _) => Some(KeyCode::Minus),
        (0xBB, _, _) => Some(KeyCode::Equal),
        (0xDB, _, _) => Some(KeyCode::BracketLeft),
        (0xDD, _, _) => Some(KeyCode::BracketRight),
        (0xDC, _, _) => Some(KeyCode::Backslash),
        (0xBA, _, _) => Some(KeyCode::Semicolon),
        (0xDE, _, _) => Some(KeyCode::Quote),
        (0xC0, _, _) => Some(KeyCode::Backquote),
        (0xBC, _, _) => Some(KeyCode::Comma),
        (0xBE, _, _) => Some(KeyCode::Period),
        (0xBF, _, _) => Some(KeyCode::Slash),
        (0x60, _, _) => Some(KeyCode::Numpad0),
        (0x61, _, _) => Some(KeyCode::Numpad1),
        (0x62, _, _) => Some(KeyCode::Numpad2),
        (0x63, _, _) => Some(KeyCode::Numpad3),
        (0x64, _, _) => Some(KeyCode::Numpad4),
        (0x65, _, _) => Some(KeyCode::Numpad5),
        (0x66, _, _) => Some(KeyCode::Numpad6),
        (0x67, _, _) => Some(KeyCode::Numpad7),
        (0x68, _, _) => Some(KeyCode::Numpad8),
        (0x69, _, _) => Some(KeyCode::Numpad9),
        (0x6A, _, _) => Some(KeyCode::NumpadMultiply),
        (0x6B, _, _) => Some(KeyCode::NumpadAdd),
        (0x6D, _, _) => Some(KeyCode::NumpadSubtract),
        (0x6E, _, _) => Some(KeyCode::NumpadDecimal),
        (0x6F, _, _) => Some(KeyCode::NumpadDivide),
        (0x90, _, _) => Some(KeyCode::NumLock),
        _ => None,
    }
}

/// Whether a Raw Input event is a key release, and whether it carries the E0 flag.
pub fn raw_input_flags(flags: u16) -> (r: (bool, bool))
    ensures
        r.0 == (flags & RI_KEY_BREAK != 0),
        r.1 == (flags & RI_KEY_E0 != 0),
{
    ((flags & RI_KEY_BREAK) != 0, (flags & RI_KEY_E0) != 0)
}

/// The macOS virtual key code of each key.
pub open spec fn macos_code(key: KeyCode) -> u16 {
    match key {
        KeyCode::RightAlt => 0x3D,
        KeyCode::LeftAlt => 0x3A,
        KeyCode::RightControl => 0x3E,
        KeyCode::LeftControl => 0x3B,
        KeyCode::RightShift => 0x3C,
        KeyCode::LeftShift => 0x38,
        KeyCode::CapsLock => 0x39,
        KeyCode::LeftMeta => 0x37,
        KeyCode::RightMeta => 0x36,
        KeyCode::F1 => 0x7A,
        KeyCode::F2 => 0x78,
        KeyCode::F3 => 0x63,
        KeyCode::F4 => 0x76,
        KeyCode::F5 => 0x60,
        KeyCode::F6 => 0x61,
        KeyCode::F7 => 0x62,
        KeyCode::F8 => 0x64,
        KeyCode::F9 => 0x65,
        KeyCode::F10 => 0x6D,
        KeyCode::F11 => 0x67,
        KeyCode::F12 => 0x6F,
        KeyCode::F13 => 0x69,
        KeyCode::F14 => 0x6B,
        KeyCode::F15 => 0x71,
        KeyCode::F16 => 0x6A,
        KeyCode::F17 => 0x40,
        KeyCode::F18 => 0x4F,
        KeyCode::F19 => 0x50,
        KeyCode::F20 => 0x5A,
        KeyCode::F21 => 0x5C,
        KeyCode::F22 => 0x58,
        KeyCode::F23 => 0x56,
        KeyCode::F24 => 0x57,
        KeyCode::KeyA => 0x00,
        KeyCode::KeyS => 0x01,
        KeyCode::KeyD => 0x02,
        KeyCode::KeyF => 0x03,
        KeyCode::KeyH => 0x04,
        KeyCode::KeyG => 0x05,
        KeyCode::KeyZ => 0x06,
        KeyCode::KeyX => 0x07,
        KeyCode::KeyC => 0x08,
        KeyCode::KeyV => 0x09,
        KeyCode::KeyB => 0x0B,
        KeyCode::KeyQ => 0x0C,
        KeyCode::KeyW => 0x0D,
        KeyCode::KeyE => 0x0E,
        KeyCode::KeyR => 0x0F,
        KeyCode::KeyY => 0x10,
        KeyCode::KeyT => 0x11,
        KeyCode::KeyO => 0x1F,
        KeyCode::KeyU => 0x20,
        KeyCode::KeyI => 0x22,
        KeyCode::KeyP => 0x23,
        KeyCode::KeyL => 0x25,
        KeyCode::KeyJ => 0x26,
        KeyCode::KeyK => 0x28,
        KeyCode::KeyN => 0x2D,
        KeyCode::KeyM => 0x2E,
        KeyCode::Digit1 => 0x12,
        KeyCode::Digit2 => 0x13,
        KeyCode::Digit3 => 0x14,
        KeyCode::Digit4 => 0x15,
        KeyCode::Digit5 => 0x17,
        KeyCode::Digit6 => 0x16,
        KeyCode::Digit7 => 0x1A,
        KeyCode::Digit8 => 0x1C,
        KeyCode::Digit9 => 0x19,
        KeyCode::Digit0 => 0x1D,
        KeyCode::ArrowUp => 0x7E,
        KeyCode::ArrowDown => 0x7D,
        KeyCode::ArrowLeft => 0x7B,
        KeyCode::ArrowRight => 0x7C,
        KeyCode::Home => 0x73,
        KeyCode::End => 0x77,
        KeyCode::PageUp => 0x74,
        KeyCode::PageDown => 0x79,
        KeyCode::Insert => 0x72,
        KeyCode::Delete => 0x75,
        KeyCode::Escape => 0x35,
        KeyCode::Tab => 0x30,
        KeyCode::Space => 0x31,
        KeyCode::Enter => 0x24,
        KeyCode::Backspace => 0x33,
        KeyCode::PrintScreen => 0x6B,
        KeyCode::ScrollLock => 0x71,
        KeyCode::Pause => 0x71,
        KeyCode::Minus => 0x1B,
        KeyCode::Equal => 0x18,
        KeyCode::BracketLeft => 0x21,
        KeyCode::BracketRight => 0x1E,
        KeyCode::Backslash => 0x2A,
        KeyCode::Semicolon => 0x29,
        KeyCode::Quote => 0x27,
        KeyCode::Backquote => 0x32,
        KeyCode::Comma => 0x2B,
        KeyCode::Period => 0x2F,
        KeyCode::Slash => 0x2C,
        KeyCode::Numpad0 => 0x52,
        KeyCode::Numpad1 => 0x53,
        KeyCode::Numpad2 => 0x54,
        KeyCode::Numpad3 => 0x55,
        KeyCode::Numpad4 => 0x56,
        KeyCode::Numpad5 => 0x57,
        KeyCode::Numpad6 => 0x58,
        KeyCode::Numpad7 => 0x59,
        KeyCode::Numpad8 => 0x5B,
        KeyCode::Numpad9 => 0x5C,
        KeyCode::NumpadMultiply => 0x43,
        KeyCode::NumpadAdd => 0x45,
        KeyCode::NumpadSubtract => 0x4E,
        KeyCode::NumpadDecimal => 0x41,
        KeyCode::NumpadDivide => 0x4B,
        KeyCode::NumLock => 0x47,
    }
}

/// Map a key code to its macOS virtual key code.
pub fn keycode_to_macos(key: KeyCode) -> (r: u16)
    ensures
        r == macos_code(key),
{
    match key {
        KeyCode::RightAlt => 0x3D,
        KeyCode::LeftAlt => 0x3A,
        KeyCode::RightControl => 0x3E,
        KeyCode::LeftControl => 0x3B,
        KeyCode::RightShift => 0x3C,
        KeyCode::LeftShift => 0x38,
        KeyCode::CapsLock => 0x39,
        KeyCode::LeftMeta => 0x37,
        KeyCode::RightMeta => 0x36,
        KeyCode::F1 => 0x7A,
        KeyCode::F2 => 0x78,
        KeyCode::F3 => 0x63,
        KeyCode::F4 => 0x76,
        KeyCode::F5 => 0x60,
        KeyCode::F6 => 0x61,
        KeyCode::F7 => 0x62,
        KeyCode::F8 => 0x64,
        KeyCode::F9 => 0x65,
        KeyCode::F10 => 0x6D,
        KeyCode::F11 => 0x67,
        KeyCode::F12 => 0x6F,
        KeyCode::F13 => 0x69,
        KeyCode::F14 => 0x6B,
        KeyCode::F15 => 0x71,
        KeyCode::F16 => 0x6A,
        KeyCode::F17 => 0x40,
        KeyCode::F18 => 0x4F,
        KeyCode::F19 => 0x50,
        KeyCode::F20 => 0x5A,
        KeyCode::F21 => 0x5C,
        KeyCode::F22 => 0x58,
        KeyCode::F23 => 0x56,
        KeyCode::F24 => 0x57,
        KeyCode::KeyA => 0x00,
        KeyCode::KeyS => 0x01,
        KeyCode::KeyD => 0x02,
        KeyCode::KeyF => 0x03,
        KeyCode::KeyH => 0x04,
        KeyCode::KeyG => 0x05,
        KeyCode::KeyZ => 0x06,
        KeyCode::KeyX => 0x07,
        KeyCode::KeyC => 0x08,
        KeyCode::KeyV => 0x09,
        KeyCode::KeyB => 0x0B,
        KeyCode::KeyQ => 0x0C,
        KeyCode::KeyW => 0x0D,
        KeyCode::KeyE => 0x0E,
        KeyCode::KeyR => 0x0F,
        KeyCode::KeyY => 0x10,
        KeyCode::KeyT => 0x11,
        KeyCode::KeyO => 0x1F,
        KeyCode::KeyU => 0x20,
        KeyCode::KeyI => 0x22,
        KeyCode::KeyP => 0x23,
        KeyCode::KeyL => 0x25,
        KeyCode::KeyJ => 0x26,
        KeyCode::KeyK => 0x28,
        KeyCode::KeyN => 0x2D,
        KeyCode::KeyM => 0x2E,
        KeyCode::Digit1 => 0x12,
        KeyCode::Digit2 => 0x13,
        KeyCode::Digit3 => 0x14,
        KeyCode::Digit4 => 0x15,
        KeyCode::Digit5 => 0x17,
        KeyCode::Digit6 => 0x16,
        KeyCode::Digit7 => 0x1A,
        KeyCode::Digit8 => 0x1C,
        KeyCode::Digit9 => 0x19,
        KeyCode::Digit0 => 0x1D,
        KeyCode::ArrowUp => 0x7E,
        KeyCode::ArrowDown => 0x7D,
        KeyCode::ArrowLeft => 0x7B,
        KeyCode::ArrowRight => 0x7C,
        KeyCode::Home => 0x73,
        KeyCode::End => 0x77,
        KeyCode::PageUp => 0x74,
        KeyCode::PageDown => 0x79,
        KeyCode::Insert => 0x72,
        KeyCode::Delete => 0x75,
        KeyCode::Escape => 0x35,
        KeyCode::Tab => 0x30,
        KeyCode::Space => 0x31,
        KeyCode::Enter => 0x24,
        KeyCode::Backspace => 0x33,
        KeyCode::PrintScreen => 0x6B,
        KeyCode::ScrollLock => 0x71,
        KeyCode::Pause => 0x71,
        KeyCode::Minus => 0x1B,
        KeyCode::Equal => 0x18,
        KeyCode::BracketLeft => 0x21,
        KeyCode::BracketRight => 0x1E,
        KeyCode::Backslash => 0x2A,
        KeyCode::Semicolon => 0x29,
        KeyCode::Quote => 0x27,
        KeyCode::Backquote => 0x32,
        KeyCode::Comma => 0x2B,
        KeyCode::Period => 0x2F,
        KeyCode::Slash => 0x2C,
        KeyCode::Numpad0 => 0x52,
        KeyCode::Numpad1 => 0x53,
        KeyCode::Numpad2 => 0x54,
        KeyCode::Numpad3 => 0x55,
        KeyCode::Numpad4 => 0x56,
        KeyCode::Numpad5 => 0x57,
        KeyCode::Numpad6 => 0x58,
        KeyCode::Numpad7 => 0x59,
        KeyCode::Numpad8 => 0x5B,
        KeyCode::Numpad9 => 0x5C,
        KeyCode::NumpadMultiply => 0x43,
        KeyCode::NumpadAdd => 0x45,
        KeyCode::NumpadSubtract => 0x4E,
        KeyCode::NumpadDecimal => 0x41,
        KeyCode::NumpadDivide => 0x4B,
        KeyCode::NumLock => 0x47,
    }
}

/// The key a macOS virtual key code names, where it is recognised.
pub open spec fn macos_key(code: u16) -> Option<KeyCode> {
    match code {
        0x3D => Some(KeyCode::RightAlt),
        0x3A => Some(KeyCode::LeftAlt),
        0x3E => Some(KeyCode::RightControl),
        0x3B => Some(KeyCode::LeftControl),
        0x3C => Some(KeyCode::RightShift),
        0x38 => Some(KeyCode::LeftShift),
        0x39 => Some(KeyCode::CapsLock),
        0x37 => Some(KeyCode::LeftMeta),
        0x36 => Some(KeyCode::RightMeta),
        0x7A => Some(KeyCode::F1),
        0x78 => Some(KeyCode::F2),
        0x63 => Some(KeyCode::F3),
        0x76 => Some(KeyCode::F4),
        0x60 => Some(KeyCode::F5),
        0x61 => Some(KeyCode::F6),
        0x62 => Some(KeyCode::F7),
        0x64 => Some(KeyCode::F8),
        0x65 => Some(KeyCode::F9),
        0x6D => Some(KeyCode::F10),
        0x67 => Some(KeyCode::F11),
        0x6F => Some(KeyCode::F12),
        0x69 => Some(KeyCode::F13),
        0x6B => Some(KeyCode::F14),
        0x71 => Some(KeyCode::F15),
        0x6A => Some(KeyCode::F16),
        0x40 => Some(KeyCode::F17),
        0x4F => Some(KeyCode::F18),
        0x50 => Some(KeyCode::F19),
        0x5A => Some(KeyCode::F20),
        0x5C => Some(KeyCode::F21),
        0x58 => Some(KeyCode::F22),
        0x56 => Some(KeyCode::F23),
        0x57 => Some(KeyCode::F24),
        0x00 => Some(KeyCode::KeyA),
        0x01 => Some(KeyCode::KeyS),
        0x02 => Some(KeyCode::KeyD),
        0x03 => Some(KeyCode::KeyF),
        0x04 => Some(KeyCode::KeyH),
        0x05 => Some(KeyCode::KeyG),
        0x06 => Some(KeyCode::KeyZ),
        0x07 => Some(KeyCode::KeyX),
        0x08 => Some(KeyCode::KeyC),
        0x09 => Some(KeyCode::KeyV),
        0x0B => Some(KeyCode::KeyB),
        0x0C => Some(KeyCode::KeyQ),
        0x0D => Some(KeyCode::KeyW),
        0x0E => Some(KeyCode::KeyE),
        0x0F => Some(KeyCode::KeyR),
        0x10 => Some(KeyCode::KeyY),
        0x11 => Some(KeyCode::KeyT),
        0x1F => Some(KeyCode::KeyO),
        0x20 => Some(KeyCode::KeyU),
        0x22 => Some(KeyCode::KeyI),
        0x23 => Some(KeyCode::KeyP),
        0x25 => Some(KeyCode::KeyL),
        0x26 => Some(KeyCode::KeyJ),
        0x28 => Some(KeyCode::KeyK),
        0x2D => Some(KeyCode::KeyN),
        0x2E => Some(KeyCode::KeyM),
        0x12 => Some(KeyCode::Digit1),
        0x13 => Some(KeyCode::Digit2),
        0x14 => Some(KeyCode::Digit3),
        0x15 => Some(KeyCode::Digit4),
        0x17 => Some(KeyCode::Digit5),
        0x16 => Some(KeyCode::Digit6),
        0x1A => Some(KeyCode::Digit7),
        0x1C => Some(KeyCode::Digit8),
        0x19 => Some(KeyCode::Digit9),
        0x1D => Some(KeyCode::Digit0),
        0x7E => Some(KeyCode::ArrowUp),
        0x7D => Some(KeyCode::ArrowDown),
        0x7B => Some(KeyCode::ArrowLeft),
        0x7C => Some(KeyCode::ArrowRight),
        0x73 => Some(KeyCode::Home),
        0x77 => Some(KeyCode::End),
        0x74 => Some(KeyCode::PageUp),
        0x79 => Some(KeyCode::PageDown),
        0x72 => Some(KeyCode::Insert),
        0x75 => Some(KeyCode::Delete),
        0x35 => Some(KeyCode::Escape),
        0x30 => Some(KeyCode::Tab),
        0x31 => Some(KeyCode::Space),
        0x24 => Some(KeyCode::Enter),
        0x33 => Some(KeyCode::Backspace),
        0x1B => Some(KeyCode::Minus),
        0x18 => Some(KeyCode::Equal),
        0x21 => Some(KeyCode::BracketLeft),
        0x1E => Some(KeyCode::BracketRight),
        0x2A => Some(KeyCode::Backslash),
        0x29 => Some(KeyCode::Semicolon),
        0x27 => Some(KeyCode::Quote),
        0x32 => Some(KeyCode::Backquote),
        0x2B => Some(KeyCode::Comma),
        0x2F => Some(KeyCode::Period),
        0x2C => Some(KeyCode::Slash),
        0x52 => Some(KeyCode::Numpad0),
        0x53 => Some(KeyCode::Numpad1),
        0x54 => Some(KeyCode::Numpad2),
        0x55 => Some(KeyCode::Numpad3),
        0x43 => Some(KeyCode::NumpadMultiply),
        0x45 => Some(KeyCode::NumpadAdd),
        0x4E => Some(KeyCode::NumpadSubtract),
        0x41 => Some(KeyCode::NumpadDecimal),
        0x4B => Some(KeyCode::NumpadDivide),
        0x47 => Some(KeyCode::NumLock),
        _ => None,
    }
}

/// Map a macOS virtual key code to a key code.
pub fn macos_to_keycode(code: u16) -> (r: Option<KeyCode>)
    ensures
        r == macos_key(code),
{
    match code {
        0x3D => Some(KeyCode::RightAlt),
        0x3A => Some(KeyCode::LeftAlt),
        0x3E => Some(KeyCode::RightControl),
        0x3B => Some(KeyCode::LeftControl),
        0x3C => Some(KeyCode::RightShift),
        0x38 => Some(KeyCode::LeftShift),
        0x39 => Some(KeyCode::CapsLock),
        0x37 => Some(KeyCode::LeftMeta),
        0x36 => Some(KeyCode::RightMeta),
        0x7A => Some(KeyCode::F1),
        0x78 => Some(KeyCode::F2),
        0x63 => Some(KeyCode::F3),
        0x76 => Some(KeyCode::F4),
        0x60 => Some(KeyCode::F5),
        0x61 => Some(KeyCode::F6),
        0x62 => Some(KeyCode::F7),
        0x64 => Some(KeyCode::F8),
        0x65 => Some(KeyCode::F9),
        0x6D => Some(KeyCode::F10),
        0x67 => Some(KeyCode::F11),
        0x6F => Some(KeyCode::F12),
        0x69 => Some(KeyCode::F13),
        0x6B => Some(KeyCode::F14),
        0x71 => Some(KeyCode::F15),
        0x6A => Some(KeyCode::F16),
        0x40 => Some(KeyCode::F17),
        0x4F => Some(KeyCode::F18),
        0x50 => Some(KeyCode::F19),
        0x5A => Some(KeyCode::F20),
        0x5C => Some(KeyCode::F21),
        0x58 => Some(KeyCode::F22),
        0x56 => Some(KeyCode::F23),
        0x57 => Some(KeyCode::F24),
        0x00 => Some(KeyCode::KeyA),
        0x01 => Some(KeyCode::KeyS),
        0x02 => Some(KeyCode::KeyD),
        0x03 => Some(KeyCode::KeyF),
        0x04 => Some(KeyCode::KeyH),
        0x05 => Some(KeyCode::KeyG),
        0x06 => Some(KeyCode::KeyZ),
        0x07 => Some(KeyCode::KeyX),
        0x08 => Some(KeyCode::KeyC),
        0x09 => Some(KeyCode::KeyV),
        0x0B => Some(KeyCode::KeyB),
        0x0C => Some(KeyCode::KeyQ),
        0x0D => Some(KeyCode::KeyW),
        0x0E => Some(KeyCode::KeyE),
        0x0F => Some(KeyCode::KeyR),
        0x10 => Some(KeyCode::KeyY),
        0x11 => Some(KeyCode::KeyT),
        0x1F => Some(KeyCode::KeyO),
        0x20 => Some(KeyCode::KeyU),
        0x22 => Some(KeyCode::KeyI),
        0x23 => Some(KeyCode::KeyP),
        0x25 => Some(KeyCode::KeyL),
        0x26 => Some(KeyCode::KeyJ),
        0x28 => Some(KeyCode::KeyK),
        0x2D => Some(KeyCode::KeyN),
        0x2E => Some(KeyCode::KeyM),
        0x12 => Some(KeyCode::Digit1),
        0x13 => Some(KeyCode::Digit2),
        0x14 => Some(KeyCode::Digit3),
        0x15 => Some(KeyCode::Digit4),
        0x17 => Some(KeyCode::Digit5),
        0x16 => Some(KeyCode::Digit6),
        0x1A => Some(KeyCode::Digit7),
        0x1C => Some(KeyCode::Digit8),
        0x19 => Some(KeyCode::Digit9),
        0x1D => Some(KeyCode::Digit0),
        0x7E => Some(KeyCode::ArrowUp),
        0x7D => Some(KeyCode::ArrowDown),
        0x7B => Some(KeyCode::ArrowLeft),
        0x7C => Some(KeyCode::ArrowRight),
        0x73 => Some(KeyCode::Home),
        0x77 => Some(KeyCode::End),
        0x74 => Some(KeyCode::PageUp),
        0x79 => Some(KeyCode::PageDown),
        0x72 => Some(KeyCode::Insert),
        0x75 => Some(KeyCode::Delete),
        0x35 => Some(KeyCode::Escape),
        0x30 => Some(KeyCode::Tab),
        0x31 => Some(KeyCode::Space),
        0x24 => Some(KeyCode::Enter),
        0x33 => Some(KeyCode::Backspace),
        0x1B => Some(KeyCode::Minus),
        0x18 => Some(KeyCode::Equal),
        0x21 => Some(KeyCode::BracketLeft),
        0x1E => Some(KeyCode::BracketRight),
        0x2A => Some(KeyCode::Backslash),
        0x29 => Some(KeyCode::Semicolon),
        0x27 => Some(KeyCode::Quote),
        0x32 => Some(KeyCode::Backquote),
        0x2B => Some(KeyCode::Comma),
        0x2F => Some(KeyCode::Period),
        0x2C => Some(KeyCode::Slash),
        0x52 => Some(KeyCode::Numpad0),
        0x53 => Some(KeyCode::Numpad1),
        0x54 => Some(KeyCode::Numpad2),
        0x55 => Some(KeyCode::Numpad3),
        0x43 => Some(KeyCode::NumpadMultiply),
        0x45 => Some(KeyCode::NumpadAdd),
        0x4E => Some(KeyCode::NumpadSubtract),
        0x41 => Some(KeyCode::NumpadDecimal),
        0x4B => Some(KeyCode::NumpadDivide),
        0x47 => Some(KeyCode::NumLock),
        _ => None,
    }
}

/// Decoding a key's macOS code gives the key back, except for the keys
/// whose codes the table shares with other keys or leaves undecoded.
pub proof fn lemma_macos_roundtrip(key: KeyCode)
    requires
        key != KeyCode::PrintScreen,
        key != KeyCode::ScrollLock,
        key != KeyCode::Pause,
        key != KeyCode::Numpad4,
        key != KeyCode::Numpad5,
        key != KeyCode::Numpad6,
        key != KeyCode::Numpad7,
        key != KeyCode::Numpad8,
        key != KeyCode::Numpad9,
    ensures
        macos_key(macos_code(key)) == Some(key),
{
    match key {
        KeyCode::RightAlt => {},
        KeyCode::LeftAlt => {},
        KeyCode::RightControl => {},
        KeyCode::LeftControl => {},
        KeyCode::RightShift => {},
        KeyCode::LeftShift => {},
        KeyCode::CapsLock => {},
        KeyCode::LeftMeta => {},
        KeyCode::RightMeta => {},
        KeyCode::F1 => {},
        KeyCode::F2 => {},
        KeyCode::F3 => {},
        KeyCode::F4 => {},
        KeyCode::F5 => {},
        KeyCode::F6 => {},
        KeyCode::F7 => {},
        KeyCode::F8 => {},
        KeyCode::F9 => {},
        KeyCode::F10 => {},
        KeyCode::F11 => {},
        KeyCode::F12 => {},
        KeyCode::F13 => {},
        KeyCode::F14 => {},
        KeyCode::F15 => {},
        KeyCode::F16 => {},
        KeyCode::F17 => {},
        KeyCode::F18 => {},
        KeyCode::F19 => {},
        KeyCode::F20 => {},
        KeyCode::F21 => {},
        KeyCode::F22 => {},
        KeyCode::F23 => {},
        KeyCode::F24 => {},
        KeyCode::KeyA => {},
        KeyCode::KeyS => {},
        KeyCode::KeyD => {},
        KeyCode::KeyF => {},
        KeyCode::KeyH => {},
        KeyCode::KeyG => {},
        KeyCode::KeyZ => {},
        KeyCode::KeyX => {},
        KeyCode::KeyC => {},
        KeyCode::KeyV => {},
        KeyCode::KeyB => {},
        KeyCode::KeyQ => {},
        KeyCode::KeyW => {},
        KeyCode::KeyE => {},
        KeyCode::KeyR => {},
        KeyCode::KeyY => {},
        KeyCode::KeyT => {},
        KeyCode::KeyO => {},
        KeyCode::KeyU => {},
        KeyCode::KeyI => {},
        KeyCode::KeyP => {},
        KeyCode::KeyL => {},
        KeyCode::KeyJ => {},
        KeyCode::KeyK => {},
        KeyCode::KeyN => {},
        KeyCode::KeyM => {},
        KeyCode::Digit1 => {},
        KeyCode::Digit2 => {},
        KeyCode::Digit3 => {},
        KeyCode::Digit4 => {},
        KeyCode::Digit5 => {},
        KeyCode::Digit6 => {},
        KeyCode::Digit7 => {},
        KeyCode::Digit8 => {},
        KeyCode::Digit9 => {},
        KeyCode::Digit0 => {},
        KeyCode::ArrowUp => {},
        KeyCode::ArrowDown => {},
        KeyCode::ArrowLeft => {},
        KeyCode::ArrowRight => {},
        KeyCode::Home => {},
        KeyCode::End => {},
        KeyCode::PageUp => {},
        KeyCode::PageDown => {},
        KeyCode::Insert => {},
        KeyCode::Delete => {},
        KeyCode::Escape => {},
        KeyCode::Tab => {},
        KeyCode::Space => {},
        KeyCode::Enter => {},
        KeyCode::Backspace => {},
        KeyCode::Minus => {},
        KeyCode::Equal => {},
        KeyCode::BracketLeft => {},
        KeyCode::BracketRight => {},
        KeyCode::Backslash => {},
        KeyCode::Semicolon => {},
        KeyCode::Quote => {},
        KeyCode::Backquote => {},
        KeyCode::Comma => {},
        KeyCode::Period => {},
        KeyCode::Slash => {},
        KeyCode::Numpad0 => {},
        KeyCode::Numpad1 => {},
        KeyCode::Numpad2 => {},
        KeyCode::Numpad3 => {},
        KeyCode::NumpadMultiply => {},
        KeyCode::NumpadAdd => {},
        KeyCode::NumpadSubtract => {},
        KeyCode::NumpadDecimal => {},
        KeyCode::NumpadDivide => {},
        KeyCode::NumLock => {},
        _ => {},
    }
}

/// Every code the macOS decoder recognises encodes back to itself.
pub proof fn lemma_macos_decode_encode(code: u16)
    requires
        macos_key(code) is Some,
    ensures
        macos_code(macos_key(code)->0) == code,
{
}

/// macOS event type: key down.
pub const CG_EVENT_KEY_DOWN: u32 = 10;

/// macOS event type: key up.
pub const CG_EVENT_KEY_UP: u32 = 11;

/// macOS event type: modifier flags changed.
pub const CG_EVENT_FLAGS_CHANGED: u32 = 12;

/// For a modifier key's macOS code, whether the event flags say it is held:
/// each modifier pair is read from its own flag bit.
pub open spec fn macos_modifier_held(code: u16, flags: u64) -> Option<bool> {
    if code == 0x3D || code == 0x3A {
        Some(flags & 0x00080000 != 0)
    } else if code == 0x3E || code == 0x3B {
        Some(flags & 0x00040000 != 0)
    } else if code == 0x3C || code == 0x38 {
        Some(flags & 0x00020000 != 0)
    } else if code == 0x39 {
        Some(flags & 0x00010000 != 0)
    } else if code == 0x37 || code == 0x36 {
        Some(flags & 0x00100000 != 0)
    } else {
        None
    }
}

/// What a macOS keyboard event does to the held keys: which key, and whether
/// it is now held. Modifier keys are read from the flags of a flags-changed
/// event; other keys from key-down and key-up events. Unrecognised keys and
/// other events change nothing.
pub open spec fn macos_key_transition(event_type: u32, code: u16, flags: u64) -> Option<(KeyCode, bool)> {
    match macos_key(code) {
        None => None,
        Some(k) => if event_type == CG_EVENT_FLAGS_CHANGED {
            match macos_modifier_held(code, flags) {
                Some(held) => Some((k, held)),
                None => None,
            }
        } else if event_type == CG_EVENT_KEY_DOWN {
            Some((k, true))
        } else if event_type == CG_EVENT_KEY_UP {
            Some((k, false))
        } else {
            None
        },
    }
}

/// Decode a macOS keyboard event into a key and whether it is now held.
pub fn macos_event_key(event_type: u32, code: u16, flags: u64) -> (r: Option<(KeyCode, bool)>)
    ensures
        r == macos_key_transition(event_type, code, flags),
{
    let key = match macos_to_keycode(code) {
        Some(k) => k,
        None => return None,
    };
    if event_type == CG_EVENT_FLAGS_CHANGED {
        let held = if code == 0x3D || code == 0x3A {
            flags & 0x00080000 != 0
        } else if code == 0x3E || code == 0x3B {
            flags & 0x00040000 != 0
        } else if code == 0x3C || code == 0x38 {
            flags & 0x00020000 != 0
        } else if code == 0x39 {
            flags & 0x00010000 != 0
        } else if code == 0x37 || code == 0x36 {
            flags & 0x00100000 != 0
        } else {
            return None;
        };
        Some((key, held))
    } else if event_type == CG_EVENT_KEY_DOWN {
        Some((key, true))
    } else if event_type == CG_EVENT_KEY_UP {
        Some((key, false))
    } else {
        None
    }
}

} // verus!
