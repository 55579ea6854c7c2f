//! Events of the mouse and of the keyboard.

use vstd::prelude::*;
use crate::codec::primitives::{
    got, lemma_concat_assoc, lemma_parse_u32, parse_u32, read_u32, reads, ser_u32, write_u32,
};
use crate::message::{
    EndPointInput, InputEvent, KeyboardEvent, KeyboardKey, MouseEvent, MouseKey,
};

verus! {

/// The number that stands for a mouse button.
pub open spec fn mouse_key_code(value: MouseKey) -> u32 {
    match value {
        MouseKey::NoButton => 0,
        MouseKey::Left => 1,
        MouseKey::Right => 2,
        MouseKey::Wheel => 3,
    }
}

/// The inverse of `mouse_key_code`; `None` for a number that stands for nothing.
pub open spec fn mouse_key_of_code(code: u32) -> Option<MouseKey> {
    if code >= 4 {
        None
    } else {
        Some(mouse_key_at(code))
    }
}

/// The variant with a given number, for numbers below 4.
pub open spec fn mouse_key_at(code: u32) -> MouseKey {
    if code == 0 {
        MouseKey::NoButton
    } else if code == 1 {
        MouseKey::Left
    } else if code == 2 {
        MouseKey::Right
    } else {
        MouseKey::Wheel
    }
}

impl MouseKey {
    /// The number that stands for this value on the wire.
    pub fn code(&self) -> (code: u32)
        ensures
            code == mouse_key_code(*self),
    {
        match self {
            MouseKey::NoButton => 0,
            MouseKey::Left => 1,
            MouseKey::Right => 2,
            MouseKey::Wheel => 3,
        }
    }

    /// The value that `code` stands for, if any.
    pub fn from_code(code: u32) -> (value: Option<Self>)
        ensures
            value == mouse_key_of_code(code),
    {
        match code {
            0 => Some(MouseKey::NoButton),
            1 => Some(MouseKey::Left),
            2 => Some(MouseKey::Right),
            3 => Some(MouseKey::Wheel),
            _ => None,
        }
    }
}

/// The binary form of a mouse button: its number as a `u32`.
pub open spec fn ser_mouse_key(value: MouseKey) -> Seq<u8> {
    ser_u32(mouse_key_code(value))
}

/// What `bytes` starts with, read as a mouse button, and what follows it.
pub open spec fn parse_mouse_key(bytes: Seq<u8>) -> Option<(MouseKey, Seq<u8>)> {
    match parse_u32(bytes) {
        Some((code, rest)) => match mouse_key_of_code(code) {
            Some(value) => Some((value, rest)),
            None => None,
        },
        None => None,
    }
}

/// Parsing undoes serializing, whatever follows.
pub proof fn lemma_parse_mouse_key(value: MouseKey, rest: Seq<u8>)
    ensures
        parse_mouse_key(ser_mouse_key(value) + rest) == Some((value, rest)),
{
    lemma_parse_u32(mouse_key_code(value), rest);
}

/// Appends the binary form of `value` to `out`.
pub fn write_mouse_key(out: &mut Vec<u8>, value: &MouseKey)
    ensures
        final(out)@ == old(out)@ + ser_mouse_key(*value),
{
    write_u32(out, value.code());
}

/// Reads a mouse button at `pos`. Returns it with the position behind it.
pub fn read_mouse_key(bytes: &[u8], pos: usize) -> (r: Option<(MouseKey, usize)>)
    ensures
        reads(bytes@, pos as int, parse_mouse_key(bytes@.skip(pos as int)), got(r)),
{
    let (code, end) = read_u32(bytes, pos)?;
    let value: MouseKey = MouseKey::from_code(code)?;
    Some((value, end))
}

/// The number that stands for a key.
pub open spec fn keyboard_key_code(value: KeyboardKey) -> u32 {
    match value {
        KeyboardKey::A => 0,
        KeyboardKey::B => 1,
        KeyboardKey::C => 2,
        KeyboardKey::D => 3,
        KeyboardKey::E => 4,
        KeyboardKey::F => 5,
        KeyboardKey::G => 6,
        KeyboardKey::H => 7,
        KeyboardKey::I => 8,
        KeyboardKey::J => 9,
        KeyboardKey::K => 10,
        KeyboardKey::L => 11,
        KeyboardKey::M => 12,
        KeyboardKey::N => 13,
        KeyboardKey::O => 14,
        KeyboardKey::P => 15,
        KeyboardKey::Q => 16,
        KeyboardKey::R => 17,
        KeyboardKey::S => 18,
        KeyboardKey::T => 19,
        KeyboardKey::U => 20,
        KeyboardKey::V => 21,
        KeyboardKey::W => 22,
        KeyboardKey::X => 23,
        KeyboardKey::Y => 24,
        KeyboardKey::Z => 25,
        KeyboardKey::Digit0 => 26,
        KeyboardKey::Digit1 => 27,
        KeyboardKey::Digit2 => 28,
        KeyboardKey::Digit3 => 29,
        KeyboardKey::Digit4 => 30,
        KeyboardKey::Digit5 => 31,
        KeyboardKey::Digit6 => 32,
        KeyboardKey::Digit7 => 33,
        KeyboardKey::Digit8 => 34,
        KeyboardKey::Digit9 => 35,
        KeyboardKey::BackQuote => 36,
        KeyboardKey::Minus => 37,
        KeyboardKey::Equal => 38,
        KeyboardKey::BracketLeft => 39,
        KeyboardKey::BracketRight => 40,
        KeyboardKey::BackSlash => 41,
        KeyboardKey::Semicolon => 42,
        KeyboardKey::Quote => 43,
        KeyboardKey::Comma => 44,
        KeyboardKey::Period => 45,
        KeyboardKey::Slash => 46,
        KeyboardKey::Escape => 47,
        KeyboardKey::Tab => 48,
        KeyboardKey::CapsLock => 49,
        KeyboardKey::Space => 50,
        KeyboardKey::Enter => 51,
        KeyboardKey::Backspace => 52,
        KeyboardKey::Insert => 53,
        KeyboardKey::Delete => 54,
        KeyboardKey::Home => 55,
        KeyboardKey::End => 56,
        KeyboardKey::PageUp => 57,
        KeyboardKey::PageDown => 58,
        KeyboardKey::ArrowLeft => 59,
        KeyboardKey::ArrowRight => 60,
        KeyboardKey::ArrowUp => 61,
        KeyboardKey::ArrowDown => 62,
        KeyboardKey::LeftShift => 63,
        KeyboardKey::RightShift => 64,
        KeyboardKey::LeftControl => 65,
        KeyboardKey::RightControl => 66,
        KeyboardKey::LeftAlt => 67,
        KeyboardKey::RightAlt => 68,
        KeyboardKey::LeftMeta => 69,
        KeyboardKey::RightMeta => 70,
        KeyboardKey::F1 => 71,
        KeyboardKey::F2 => 72,
        KeyboardKey::F3 => 73,
        KeyboardKey::F4 => 74,
        KeyboardKey::F5 => 75,
        KeyboardKey::F6 => 76,
        KeyboardKey::F7 => 77,
        KeyboardKey::F8 => 78,
        KeyboardKey::F9 => 79,
        KeyboardKey::F10 => 80,
        KeyboardKey::F11 => 81,
        KeyboardKey::F12 => 82,
        KeyboardKey::PrintScreen => 83,
        KeyboardKey::ScrollLock => 84,
        KeyboardKey::Pause => 85,
        KeyboardKey::NumLock => 86,
        KeyboardKey::Numpad0 => 87,
        KeyboardKey::Numpad1 => 88,
        KeyboardKey::Numpad2 => 89,
        KeyboardKey::Numpad3 => 90,
        KeyboardKey::Numpad4 => 91,
        KeyboardKey::Numpad5 => 92,
        KeyboardKey::Numpad6 => 93,
        KeyboardKey::Numpad7 => 94,
        KeyboardKey::Numpad8 => 95,
        KeyboardKey::Numpad9 => 96,
        KeyboardKey::NumpadAdd => 97,
        KeyboardKey::NumpadSubtract => 98,
        KeyboardKey::NumpadMultiply => 99,
        KeyboardKey::NumpadDivide => 100,
        KeyboardKey::NumpadDecimal => 101,
        KeyboardKey::NumpadEnter => 102,
    }
}

/// The inverse of `keyboard_key_code`; `None` for a number that stands for nothing.
pub open spec fn keyboard_key_of_code(code: u32) -> Option<KeyboardKey> {
    if code >= 103 {
        None
    } else {
        Some(keyboard_key_at(code))
    }
}

/// The variant with a given number, for numbers below 103.
pub open spec fn keyboard_key_at(code: u32) -> KeyboardKey {
    if code == 0 {
        KeyboardKey::A
    } else if code == 1 {
        KeyboardKey::B
    } else if code == 2 {
        KeyboardKey::C
    } else if code == 3 {
        KeyboardKey::D
    } else if code == 4 {
        KeyboardKey::E
    } else if code == 5 {
        KeyboardKey::F
    } else if code == 6 {
        KeyboardKey::G
    } else if code == 7 {
        KeyboardKey::H
    } else if code == 8 {
        KeyboardKey::I
    } else if code == 9 {
        KeyboardKey::J
    } else if code == 10 {
        KeyboardKey::K
    } else if code == 11 {
        KeyboardKey::L
    } else if code == 12 {
        KeyboardKey::M
    } else if code == 13 {
        KeyboardKey::N
    } else if code == 14 {
        KeyboardKey::O
    } else if code == 15 {
        KeyboardKey::P
    } else if code == 16 {
        KeyboardKey::Q
    } else if code == 17 {
        KeyboardKey::R
    } else if code == 18 {
        KeyboardKey::S
    } else if code == 19 {
        KeyboardKey::T
    } else if code == 20 {
        KeyboardKey::U
    } else if code == 21 {
        KeyboardKey::V
    } else if code == 22 {
        KeyboardKey::W
    } else if code == 23 {
        KeyboardKey::X
    } else if code == 24 {
        KeyboardKey::Y
    } else if code == 25 {
        KeyboardKey::Z
    } else if code == 26 {
        KeyboardKey::Digit0
    } else if code == 27 {
        KeyboardKey::Digit1
    } else if code == 28 {
        KeyboardKey::Digit2
    } else if code == 29 {
        KeyboardKey::Digit3
    } else if code == 30 {
        KeyboardKey::Digit4
    } else if code == 31 {
        KeyboardKey::Digit5
    } else if code == 32 {
        KeyboardKey::Digit6
    } else if code == 33 {
        KeyboardKey::Digit7
    } else if code == 34 {
        KeyboardKey::Digit8
    } else if code == 35 {
        KeyboardKey::Digit9
    } else if code == 36 {
        KeyboardKey::BackQuote
    } else if code == 37 {
        KeyboardKey::Minus
    } else if code == 38 {
        KeyboardKey::Equal
    } else if code == 39 {
        KeyboardKey::BracketLeft
    } else if code == 40 {
        KeyboardKey::BracketRight
    } else if code == 41 {
        KeyboardKey::BackSlash
    } else if code == 42 {
        KeyboardKey::Semicolon
    } else if code == 43 {
        KeyboardKey::Quote
    } else if code == 44 {
        KeyboardKey::Comma
    } else if code == 45 {
        KeyboardKey::Period
    } else if code == 46 {
        KeyboardKey::Slash
    } else if code == 47 {
        KeyboardKey::Escape
    } else if code == 48 {
        KeyboardKey::Tab
    } else if code == 49 {
        KeyboardKey::CapsLock
    } else if code == 50 {
        KeyboardKey::Space
    } else if code == 51 {
        KeyboardKey::Enter
    } else if code == 52 {
        KeyboardKey::Backspace
    } else if code == 53 {
        KeyboardKey::Insert
    } else if code == 54 {
        KeyboardKey::Delete
    } else if code == 55 {
        KeyboardKey::Home
    } else if code == 56 {
        KeyboardKey::End
    } else if code == 57 {
        KeyboardKey::PageUp
    } else if code == 58 {
        KeyboardKey::PageDown
    } else if code == 59 {
        KeyboardKey::ArrowLeft
    } else if code == 60 {
        KeyboardKey::ArrowRight
    } else if code == 61 {
        KeyboardKey::ArrowUp
    } else if code == 62 {
        KeyboardKey::ArrowDown
    } else if code == 63 {
        KeyboardKey::LeftShift
    } else if code == 64 {
        KeyboardKey::RightShift
    } else if code == 65 {
        KeyboardKey::LeftControl
    } else if code == 66 {
        KeyboardKey::RightControl
    } else if code == 67 {
        KeyboardKey::LeftAlt
    } else if code == 68 {
        KeyboardKey::RightAlt
    } else if code == 69 {
        KeyboardKey::LeftMeta
    } else if code == 70 {
        KeyboardKey::RightMeta
    } else if code == 71 {
        KeyboardKey::F1
    } else if code == 72 {
        KeyboardKey::F2
    } else if code == 73 {
        KeyboardKey::F3
    } else if code == 74 {
        KeyboardKey::F4
    } else if code == 75 {
        KeyboardKey::F5
    } else if code == 76 {
        KeyboardKey::F6
    } else if code == 77 {
        KeyboardKey::F7
    } else if code == 78 {
        KeyboardKey::F8
    } else if code == 79 {
        KeyboardKey::F9
    } else if code == 80 {
        KeyboardKey::F10
    } else if code == 81 {
        KeyboardKey::F11
    } else if code == 82 {
        KeyboardKey::F12
    } else if code == 83 {
        KeyboardKey::PrintScreen
    } else if code == 84 {
        KeyboardKey::ScrollLock
    } else if code == 85 {
        KeyboardKey::Pause
    } else if code == 86 {
        KeyboardKey::NumLock
    } else if code == 87 {
        KeyboardKey::Numpad0
    } else if code == 88 {
        KeyboardKey::Numpad1
    } else if code == 89 {
        KeyboardKey::Numpad2
    } else if code == 90 {
        KeyboardKey::Numpad3
    } else if code == 91 {
        KeyboardKey::Numpad4
    } else if code == 92 {
        KeyboardKey::Numpad5
    } else if code == 93 {
        KeyboardKey::Numpad6
    } else if code == 94 {
        KeyboardKey::Numpad7
    } else if code == 95 {
        KeyboardKey::Numpad8
    } else if code == 96 {
        KeyboardKey::Numpad9
    } else if code == 97 {
        KeyboardKey::NumpadAdd
    } else if code == 98 {
        KeyboardKey::NumpadSubtract
    } else if code == 99 {
        KeyboardKey::NumpadMultiply
    } else if code == 100 {
        KeyboardKey::NumpadDivide
    } else if code == 101 {
        KeyboardKey::NumpadDecimal
    } else {
        KeyboardKey::NumpadEnter
    }
}

impl KeyboardKey {
    /// The number that stands for this value on the wire.
    pub fn code(&self) -> (code: u32)
        ensures
            code == keyboard_key_code(*self),
    {
        match self {
            KeyboardKey::A => 0,
            KeyboardKey::B => 1,
            KeyboardKey::C => 2,
            KeyboardKey::D => 3,
            KeyboardKey::E => 4,
            KeyboardKey::F => 5,
            KeyboardKey::G => 6,
            KeyboardKey::H => 7,
            KeyboardKey::I => 8,
            KeyboardKey::J => 9,
            KeyboardKey::K => 10,
            KeyboardKey::L => 11,
            KeyboardKey::M => 12,
            KeyboardKey::N => 13,
            KeyboardKey::O => 14,
            KeyboardKey::P => 15,
            KeyboardKey::Q => 16,
            KeyboardKey::R => 17,
            KeyboardKey::S => 18,
            KeyboardKey::T => 19,
            KeyboardKey::U => 20,
            KeyboardKey::V => 21,
            KeyboardKey::W => 22,
            KeyboardKey::X => 23,
            KeyboardKey::Y => 24,
            KeyboardKey::Z => 25,
            KeyboardKey::Digit0 => 26,
            KeyboardKey::Digit1 => 27,
            KeyboardKey::Digit2 => 28,
            KeyboardKey::Digit3 => 29,
            KeyboardKey::Digit4 => 30,
            KeyboardKey::Digit5 => 31,
            KeyboardKey::Digit6 => 32,
            KeyboardKey::Digit7 => 33,
            KeyboardKey::Digit8 => 34,
            KeyboardKey::Digit9 => 35,
            KeyboardKey::BackQuote => 36,
            KeyboardKey::Minus => 37,
            KeyboardKey::Equal => 38,
            KeyboardKey::BracketLeft => 39,
            KeyboardKey::BracketRight => 40,
            KeyboardKey::BackSlash => 41,
            KeyboardKey::Semicolon => 42,
            KeyboardKey::Quote => 43,
            KeyboardKey::Comma => 44,
            KeyboardKey::Period => 45,
            KeyboardKey::Slash => 46,
            KeyboardKey::Escape => 47,
            KeyboardKey::Tab => 48,
            KeyboardKey::CapsLock => 49,
            KeyboardKey::Space => 50,
            KeyboardKey::Enter => 51,
            KeyboardKey::Backspace => 52,
            KeyboardKey::Insert => 53,
            KeyboardKey::Delete => 54,
            KeyboardKey::Home => 55,
            KeyboardKey::End => 56,
            KeyboardKey::PageUp => 57,
            KeyboardKey::PageDown => 58,
            KeyboardKey::ArrowLeft => 59,
            KeyboardKey::ArrowRight => 60,
            KeyboardKey::ArrowUp => 61,
            KeyboardKey::ArrowDown => 62,
            KeyboardKey::LeftShift => 63,
            KeyboardKey::RightShift => 64,
            KeyboardKey::LeftControl => 65,
            KeyboardKey::RightControl => 66,
            KeyboardKey::LeftAlt => 67,
            KeyboardKey::RightAlt => 68,
            KeyboardKey::LeftMeta => 69,
            KeyboardKey::RightMeta => 70,
            KeyboardKey::F1 => 71,
            KeyboardKey::F2 => 72,
            KeyboardKey::F3 => 73,
            KeyboardKey::F4 => 74,
            KeyboardKey::F5 => 75,
            KeyboardKey::F6 => 76,
            KeyboardKey::F7 => 77,
            KeyboardKey::F8 => 78,
            KeyboardKey::F9 => 79,
            KeyboardKey::F10 => 80,
            KeyboardKey::F11 => 81,
            KeyboardKey::F12 => 82,
            KeyboardKey::PrintScreen => 83,
            KeyboardKey::ScrollLock => 84,
            KeyboardKey::Pause => 85,
            KeyboardKey::NumLock => 86,
            KeyboardKey::Numpad0 => 87,
            KeyboardKey::Numpad1 => 88,
            KeyboardKey::Numpad2 => 89,
            KeyboardKey::Numpad3 => 90,
            KeyboardKey::Numpad4 => 91,
            KeyboardKey::Numpad5 => 92,
            KeyboardKey::Numpad6 => 93,
            KeyboardKey::Numpad7 => 94,
            KeyboardKey::Numpad8 => 95,
            KeyboardKey::Numpad9 => 96,
            KeyboardKey::NumpadAdd => 97,
            KeyboardKey::NumpadSubtract => 98,
            KeyboardKey::NumpadMultiply => 99,
            KeyboardKey::NumpadDivide => 100,
            KeyboardKey::NumpadDecimal => 101,
            KeyboardKey::NumpadEnter => 102,
        }
    }

    /// The value that `code` stands for, if any.
    pub fn from_code(code: u32) -> (value: Option<Self>)
        ensures
            value == keyboard_key_of_code(code),
    {
        match code {
            0 => Some(KeyboardKey::A),
            1 => Some(KeyboardKey::B),
            2 => Some(KeyboardKey::C),
            3 => Some(KeyboardKey::D),
            4 => Some(KeyboardKey::E),
            5 => Some(KeyboardKey::F),
            6 => Some(KeyboardKey::G),
            7 => Some(KeyboardKey::H),
            8 => Some(KeyboardKey::I),
            9 => Some(KeyboardKey::J),
            10 => Some(KeyboardKey::K),
            11 => Some(KeyboardKey::L),
            12 => Some(KeyboardKey::M),
            13 => Some(KeyboardKey::N),
            14 => Some(KeyboardKey::O),
            15 => Some(KeyboardKey::P),
            16 => Some(KeyboardKey::Q),
            17 => Some(KeyboardKey::R),
            18 => Some(KeyboardKey::S),
            19 => Some(KeyboardKey::T),
            20 => Some(KeyboardKey::U),
            21 => Some(KeyboardKey::V),
            22 => Some(KeyboardKey::W),
            23 => Some(KeyboardKey::X),
            24 => Some(KeyboardKey::Y),
            25 => Some(KeyboardKey::Z),
            26 => Some(KeyboardKey::Digit0),
            27 => Some(KeyboardKey::Digit1),
            28 => Some(KeyboardKey::Digit2),
            29 => Some(KeyboardKey::Digit3),
            30 => Some(KeyboardKey::Digit4),
            31 => Some(KeyboardKey::Digit5),
            32 => Some(KeyboardKey::Digit6),
            33 => Some(KeyboardKey::Digit7),
            34 => Some(KeyboardKey::Digit8),
            35 => Some(KeyboardKey::Digit9),
            36 => Some(KeyboardKey::BackQuote),
            37 => Some(KeyboardKey::Minus),
            38 => Some(KeyboardKey::Equal),
            39 => Some(KeyboardKey::BracketLeft),
            40 => Some(KeyboardKey::BracketRight),
            41 => Some(KeyboardKey::BackSlash),
            42 => Some(KeyboardKey::Semicolon),
            43 => Some(KeyboardKey::Quote),
            44 => Some(KeyboardKey::Comma),
            45 => Some(KeyboardKey::Period),
            46 => Some(KeyboardKey::Slash),
            47 => Some(KeyboardKey::Escape),
            48 => Some(KeyboardKey::Tab),
            49 => Some(KeyboardKey::CapsLock),
            50 => Some(KeyboardKey::Space),
            51 => Some(KeyboardKey::Enter),
            52 => Some(KeyboardKey::Backspace),
            53 => Some(KeyboardKey::Insert),
            54 => Some(KeyboardKey::Delete),
            55 => Some(KeyboardKey::Home),
            56 => Some(KeyboardKey::End),
            57 => Some(KeyboardKey::PageUp),
            58 => Some(KeyboardKey::PageDown),
            59 => Some(KeyboardKey::ArrowLeft),
            60 => Some(KeyboardKey::ArrowRight),
            61 => Some(KeyboardKey::ArrowUp),
            62 => Some(KeyboardKey::ArrowDown),
            63 => Some(KeyboardKey::LeftShift),
            64 => Some(KeyboardKey::RightShift),
            65 => Some(KeyboardKey::LeftControl),
            66 => Some(KeyboardKey::RightControl),
            67 => Some(KeyboardKey::LeftAlt),
            68 => Some(KeyboardKey::RightAlt),
            69 => Some(KeyboardKey::LeftMeta),
            70 => Some(KeyboardKey::RightMeta),
            71 => Some(KeyboardKey::F1),
            72 => Some(KeyboardKey::F2),
            73 => Some(KeyboardKey::F3),
            74 => Some(KeyboardKey::F4),
            75 => Some(KeyboardKey::F5),
            76 => Some(KeyboardKey::F6),
            77 => Some(KeyboardKey::F7),
            78 => Some(KeyboardKey::F8),
            79 => Some(KeyboardKey::F9),
            80 => Some(KeyboardKey::F10),
            81 => Some(KeyboardKey::F11),
            82 => Some(KeyboardKey::F12),
            83 => Some(KeyboardKey::PrintScreen),
            84 => Some(KeyboardKey::ScrollLock),
            85 => Some(KeyboardKey::Pause),
            86 => Some(KeyboardKey::NumLock),
            87 => Some(KeyboardKey::Numpad0),
            88 => Some(KeyboardKey::Numpad1),
            89 => Some(KeyboardKey::Numpad2),
            90 => Some(KeyboardKey::Numpad3),
            91 => Some(KeyboardKey::Numpad4),
            92 => Some(KeyboardKey::Numpad5),
            93 => Some(KeyboardKey::Numpad6),
            94 => Some(KeyboardKey::Numpad7),
            95 => Some(KeyboardKey::Numpad8),
            96 => Some(KeyboardKey::Numpad9),
            97 => Some(KeyboardKey::NumpadAdd),
            98 => Some(KeyboardKey::NumpadSubtract),
            99 => Some(KeyboardKey::NumpadMultiply),
            100 => Some(KeyboardKey::NumpadDivide),
            101 => Some(KeyboardKey::NumpadDecimal),
            102 => Some(KeyboardKey::NumpadEnter),
            _ => None,
        }
    }
}

/// The binary form of a key: its number as a `u32`.
pub open spec fn ser_keyboard_key(value: KeyboardKey) -> Seq<u8> {
    ser_u32(keyboard_key_code(value))
}

/// What `bytes` starts with, read as a key, and what follows it.
pub open spec fn parse_keyboard_key(bytes: Seq<u8>) -> Option<(KeyboardKey, Seq<u8>)> {
    match parse_u32(bytes) {
        Some((code, rest)) => match keyboard_key_of_code(code) {
            Some(value) => Some((value, rest)),
            None => None,
        },
        None => None,
    }
}

/// Parsing undoes serializing, whatever follows.
pub proof fn lemma_parse_keyboard_key(value: KeyboardKey, rest: Seq<u8>)
    ensures
        parse_keyboard_key(ser_keyboard_key(value) + rest) == Some((value, rest)),
{
    lemma_parse_u32(keyboard_key_code(value), rest);
}

/// Appends the binary form of `value` to `out`.
pub fn write_keyboard_key(out: &mut Vec<u8>, value: &KeyboardKey)
    ensures
        final(out)@ == old(out)@ + ser_keyboard_key(*value),
{
    write_u32(out, value.code());
}

/// Reads a key at `pos`. Returns it with the position behind it.
pub fn read_keyboard_key(bytes: &[u8], pos: usize) -> (r: Option<(KeyboardKey, usize)>)
    ensures
        reads(bytes@, pos as int, parse_keyboard_key(bytes@.skip(pos as int)), got(r)),
{
    let (code, end) = read_u32(bytes, pos)?;
    let value: KeyboardKey = KeyboardKey::from_code(code)?;
    Some((value, end))
}

/// The binary form of a mouse event: the number of the variant as a `u32`, then what it holds.
#[verifier::opaque]
pub open spec fn ser_mouse_event(value: MouseEvent) -> Seq<u8> {
    match value {
        MouseEvent::MouseUp(f0, f1, f2) => ser_u32(0)
            + ser_mouse_key(f0)
            + ser_u32(f1)
            + ser_u32(f2),
        MouseEvent::MouseDown(f0, f1, f2) => ser_u32(1)
            + ser_mouse_key(f0)
            + ser_u32(f1)
            + ser_u32(f2),
        MouseEvent::MouseMove(f0, f1, f2) => ser_u32(2)
            + ser_mouse_key(f0)
            + ser_u32(f1)
            + ser_u32(f2),
        MouseEvent::MouseScrollWheel(m) => ser_u32(3) + ser_u32(m),
    }
}

/// What `bytes` starts with, read as a mouse event, and what follows it.
#[verifier::opaque]
pub open spec fn parse_mouse_event(bytes: Seq<u8>) -> Option<(MouseEvent, Seq<u8>)> {
    match parse_u32(bytes) {
        Some((tag, rest)) => {
            if tag == 0 {
                let f0 = parse_mouse_key(rest);
                let f1 = parse_u32(f0.unwrap().1);
                let f2 = parse_u32(f1.unwrap().1);
                if f0 is Some && f1 is Some && f2 is Some {
                    Some(
                        (
                            MouseEvent::MouseUp(f0.unwrap().0, f1.unwrap().0, f2.unwrap().0),
                            f2.unwrap().1,
                        )
                    )
                } else {
                    None
                }
            } else if tag == 1 {
                let f0 = parse_mouse_key(rest);
                let f1 = parse_u32(f0.unwrap().1);
                let f2 = parse_u32(f1.unwrap().1);
                if f0 is Some && f1 is Some && f2 is Some {
                    Some(
                        (
                            MouseEvent::MouseDown(f0.unwrap().0, f1.unwrap().0, f2.unwrap().0),
                            f2.unwrap().1,
                        )
                    )
                } else {
                    None
                }
            } else if tag == 2 {
                let f0 = parse_mouse_key(rest);
                let f1 = parse_u32(f0.unwrap().1);
                let f2 = parse_u32(f1.unwrap().1);
                if f0 is Some && f1 is Some && f2 is Some {
                    Some(
                        (
                            MouseEvent::MouseMove(f0.unwrap().0, f1.unwrap().0, f2.unwrap().0),
                            f2.unwrap().1,
                        )
                    )
                } else {
                    None
                }
            } else if tag == 3 {
                match parse_u32(rest) {
                    Some((m, rest2)) => Some((MouseEvent::MouseScrollWheel(m), rest2)),
                    None => None,
                }
            } else {
                None
            }
        },
        None => None,
    }
}

/// Parsing undoes serializing, whatever follows.
pub proof fn lemma_parse_mouse_event(value: MouseEvent, rest: Seq<u8>)
    ensures
        parse_mouse_event(ser_mouse_event(value) + rest) == Some((value, rest)),
{
    reveal(ser_mouse_event);
    reveal(parse_mouse_event);
    match value {
        MouseEvent::MouseUp(f0, f1, f2) => {
            let after2 = ser_u32(f2) + rest;
            let after1 = ser_u32(f1) + after2;
            let after0 = ser_mouse_key(f0) + after1;
            let upto0 = ser_u32(0);
            let upto1 = upto0 + ser_mouse_key(f0);
            let upto2 = upto1 + ser_u32(f1);
            lemma_concat_assoc(upto2, ser_u32(f2), rest);
            lemma_concat_assoc(upto1, ser_u32(f1), after2);
            lemma_concat_assoc(upto0, ser_mouse_key(f0), after1);
            lemma_parse_u32(0, after0);
            lemma_parse_mouse_key(f0, after1);
            lemma_parse_u32(f1, after2);
            lemma_parse_u32(f2, rest);
        },
        MouseEvent::MouseDown(f0, f1, f2) => {
            let after2 = ser_u32(f2) + rest;
            let after1 = ser_u32(f1) + after2;
            let after0 = ser_mouse_key(f0) + after1;
            let upto0 = ser_u32(1);
            let upto1 = upto0 + ser_mouse_key(f0);
            let upto2 = upto1 + ser_u32(f1);
            lemma_concat_assoc(upto2, ser_u32(f2), rest);
            lemma_concat_assoc(upto1, ser_u32(f1), after2);
            lemma_concat_assoc(upto0, ser_mouse_key(f0), after1);
            lemma_parse_u32(1, after0);
            lemma_parse_mouse_key(f0, after1);
            lemma_parse_u32(f1, after2);
            lemma_parse_u32(f2, rest);
        },
        MouseEvent::MouseMove(f0, f1, f2) => {
            let after2 = ser_u32(f2) + rest;
            let after1 = ser_u32(f1) + after2;
            let after0 = ser_mouse_key(f0) + after1;
            let upto0 = ser_u32(2);
            let upto1 = upto0 + ser_mouse_key(f0);
            let upto2 = upto1 + ser_u32(f1);
            lemma_concat_assoc(upto2, ser_u32(f2), rest);
            lemma_concat_assoc(upto1, ser_u32(f1), after2);
            lemma_concat_assoc(upto0, ser_mouse_key(f0), after1);
            lemma_parse_u32(2, after0);
            lemma_parse_mouse_key(f0, after1);
            lemma_parse_u32(f1, after2);
            lemma_parse_u32(f2, rest);
        },
        MouseEvent::MouseScrollWheel(m) => {
            let after0 = ser_u32(m) + rest;
            let upto0 = ser_u32(3);
            lemma_concat_assoc(upto0, ser_u32(m), rest);
            lemma_parse_u32(3, after0);
            lemma_parse_u32(m, rest);
        },
    }
}

/// Appends the binary form of `value` to `out`.
pub fn write_mouse_event(out: &mut Vec<u8>, value: &MouseEvent)
    ensures
        final(out)@ == old(out)@ + ser_mouse_event(*value),
{
    proof {
        reveal(ser_mouse_event);
    }
    match value {
        MouseEvent::MouseUp(f0, f1, f2) => {
            write_u32(out, 0);
            write_mouse_key(out, f0);
            write_u32(out, *f1);
            write_u32(out, *f2);
            assert(out@ =~= old(out)@ + ser_mouse_event(*value));
        },
        MouseEvent::MouseDown(f0, f1, f2) => {
            write_u32(out, 1);
            write_mouse_key(out, f0);
            write_u32(out, *f1);
            write_u32(out, *f2);
            assert(out@ =~= old(out)@ + ser_mouse_event(*value));
        },
        MouseEvent::MouseMove(f0, f1, f2) => {
            write_u32(out, 2);
            write_mouse_key(out, f0);
            write_u32(out, *f1);
            write_u32(out, *f2);
            assert(out@ =~= old(out)@ + ser_mouse_event(*value));
        },
        MouseEvent::MouseScrollWheel(m) => {
            write_u32(out, 3);
            write_u32(out, *m);
            assert(out@ =~= old(out)@ + ser_mouse_event(*value));
        },
    }
}

/// Reads a mouse event at `pos`. Returns it with the position behind it.
pub fn read_mouse_event(bytes: &[u8], pos: usize) -> (r: Option<(MouseEvent, usize)>)
    ensures
        reads(bytes@, pos as int, parse_mouse_event(bytes@.skip(pos as int)), got(r)),
{
    proof {
        reveal(parse_mouse_event);
    }
    let (tag, start) = read_u32(bytes, pos)?;
    match tag {
        0 => {
            let (f0, pos0) = read_mouse_key(bytes, start)?;
            let (f1, pos1) = read_u32(bytes, pos0)?;
            let (f2, pos2) = read_u32(bytes, pos1)?;
            Some((MouseEvent::MouseUp(f0, f1, f2), pos2))
        },
        1 => {
            let (f0, pos0) = read_mouse_key(bytes, start)?;
            let (f1, pos1) = read_u32(bytes, pos0)?;
            let (f2, pos2) = read_u32(bytes, pos1)?;
            Some((MouseEvent::MouseDown(f0, f1, f2), pos2))
        },
        2 => {
            let (f0, pos0) = read_mouse_key(bytes, start)?;
            let (f1, pos1) = read_u32(bytes, pos0)?;
            let (f2, pos2) = read_u32(bytes, pos1)?;
            Some((MouseEvent::MouseMove(f0, f1, f2), pos2))
        },
        3 => {
            let (m, pos0) = read_u32(bytes, start)?;
            Some((MouseEvent::MouseScrollWheel(m), pos0))
        },
        _ => None,
    }
}

/// The binary form of a keyboard event: the number of the variant as a `u32`, then what it holds.
#[verifier::opaque]
pub open spec fn ser_keyboard_event(value: KeyboardEvent) -> Seq<u8> {
    match value {
        KeyboardEvent::KeyUp(m) => ser_u32(0) + ser_keyboard_key(m),
        KeyboardEvent::KeyDown(m) => ser_u32(1) + ser_keyboard_key(m),
    }
}

/// What `bytes` starts with, read as a keyboard event, and what follows it.
#[verifier::opaque]
pub open spec fn parse_keyboard_event(bytes: Seq<u8>) -> Option<(KeyboardEvent, Seq<u8>)> {
    match parse_u32(bytes) {
        Some((tag, rest)) => {
            if tag == 0 {
                match parse_keyboard_key(rest) {
                    Some((m, rest2)) => Some((KeyboardEvent::KeyUp(m), rest2)),
                    None => None,
                }
            } else if tag == 1 {
                match parse_keyboard_key(rest) {
                    Some((m, rest2)) => Some((KeyboardEvent::KeyDown(m), rest2)),
                    None => None,
                }
            } else {
                None
            }
        },
        None => None,
    }
}

/// Parsing undoes serializing, whatever follows.
pub proof fn lemma_parse_keyboard_event(value: KeyboardEvent, rest: Seq<u8>)
    ensures
        parse_keyboard_event(ser_keyboard_event(value) + rest) == Some((value, rest)),
{
    reveal(ser_keyboard_event);
    reveal(parse_keyboard_event);
    match value {
        KeyboardEvent::KeyUp(m) => {
            let after0 = ser_keyboard_key(m) + rest;
            let upto0 = ser_u32(0);
            lemma_concat_assoc(upto0, ser_keyboard_key(m), rest);
            lemma_parse_u32(0, after0);
            lemma_parse_keyboard_key(m, rest);
        },
        KeyboardEvent::KeyDown(m) => {
            let after0 = ser_keyboard_key(m) + rest;
            let upto0 = ser_u32(1);
            lemma_concat_assoc(upto0, ser_keyboard_key(m), rest);
            lemma_parse_u32(1, after0);
            lemma_parse_keyboard_key(m, rest);
        },
    }
}

/// Appends the binary form of `value` to `out`.
pub fn write_keyboard_event(out: &mut Vec<u8>, value: &KeyboardEvent)
    ensures
        final(out)@ == old(out)@ + ser_keyboard_event(*value),
{
    proof {
        reveal(ser_keyboard_event);
    }
    match value {
        KeyboardEvent::KeyUp(m) => {
            write_u32(out, 0);
            write_keyboard_key(out, m);
            assert(out@ =~= old(out)@ + ser_keyboard_event(*value));
        },
        KeyboardEvent::KeyDown(m) => {
            write_u32(out, 1);
            write_keyboard_key(out, m);
            assert(out@ =~= old(out)@ + ser_keyboard_event(*value));
        },
    }
}

/// Reads a keyboard event at `pos`. Returns it with the position behind it.
pub fn read_keyboard_event(bytes: &[u8], pos: usize) -> (r: Option<(KeyboardEvent, usize)>)
    ensures
        reads(bytes@, pos as int, parse_keyboard_event(bytes@.skip(pos as int)), got(r)),
{
    proof {
        reveal(parse_keyboard_event);
    }
    let (tag, start) = read_u32(bytes, pos)?;
    match tag {
        0 => {
            let (m, pos0) = read_keyboard_key(bytes, start)?;
            Some((KeyboardEvent::KeyUp(m), pos0))
        },
        1 => {
            let (m, pos0) = read_keyboard_key(bytes, start)?;
            Some((KeyboardEvent::KeyDown(m), pos0))
        },
        _ => None,
    }
}

/// The binary form of an input event: the number of the variant as a `u32`, then what it holds.
#[verifier::opaque]
pub open spec fn ser_input_event(value: InputEvent) -> Seq<u8> {
    match value {
        InputEvent::Mouse(m) => ser_u32(0) + ser_mouse_event(m),
        InputEvent::Keyboard(m) => ser_u32(1) + ser_keyboard_event(m),
    }
}

/// What `bytes` starts with, read as an input event, and what follows it.
#[verifier::opaque]
pub open spec fn parse_input_event(bytes: Seq<u8>) -> Option<(InputEvent, Seq<u8>)> {
    match parse_u32(bytes) {
        Some((tag, rest)) => {
            if tag == 0 {
                match parse_mouse_event(rest) {
                    Some((m, rest2)) => Some((InputEvent::Mouse(m), rest2)),
                    None => None,
                }
            } else if tag == 1 {
                match parse_keyboard_event(rest) {
                    Some((m, rest2)) => Some((InputEvent::Keyboard(m), rest2)),
                    None => None,
                }
            } else {
                None
            }
        },
        None => None,
    }
}

/// Parsing undoes serializing, whatever follows.
pub proof fn lemma_parse_input_event(value: InputEvent, rest: Seq<u8>)
    ensures
        parse_input_event(ser_input_event(value) + rest) == Some((value, rest)),
{
    reveal(ser_input_event);
    reveal(parse_input_event);
    match value {
        InputEvent::Mouse(m) => {
            let after0 = ser_mouse_event(m) + rest;
            let upto0 = ser_u32(0);
            lemma_concat_assoc(upto0, ser_mouse_event(m), rest);
            lemma_parse_u32(0, after0);
            lemma_parse_mouse_event(m, rest);
        },
        InputEvent::Keyboard(m) => {
            let after0 = ser_keyboard_event(m) + rest;
            let upto0 = ser_u32(1);
            lemma_concat_assoc(upto0, ser_keyboard_event(m), rest);
            lemma_parse_u32(1, after0);
            lemma_parse_keyboard_event(m, rest);
        },
    }
}

/// Appends the binary form of `value` to `out`.
pub fn write_input_event(out: &mut Vec<u8>, value: &InputEvent)
    ensures
        final(out)@ == old(out)@ + ser_input_event(*value),
{
    proof {
        reveal(ser_input_event);
    }
    match value {
        InputEvent::Mouse(m) => {
            write_u32(out, 0);
            write_mouse_event(out, m);
            assert(out@ =~= old(out)@ + ser_input_event(*value));
        },
        InputEvent::Keyboard(m) => {
            write_u32(out, 1);
            write_keyboard_event(out, m);
            assert(out@ =~= old(out)@ + ser_input_event(*value));
        },
    }
}

/// Reads an input event at `pos`. Returns it with the position behind it.
pub fn read_input_event(bytes: &[u8], pos: usize) -> (r: Option<(InputEvent, usize)>)
    ensures
        reads(bytes@, pos as int, parse_input_event(bytes@.skip(pos as int)), got(r)),
{
    proof {
        reveal(parse_input_event);
    }
    let (tag, start) = read_u32(bytes, pos)?;
    match tag {
        0 => {
            let (m, pos0) = read_mouse_event(bytes, start)?;
            Some((InputEvent::Mouse(m), pos0))
        },
        1 => {
            let (m, pos0) = read_keyboard_event(bytes, start)?;
            Some((InputEvent::Keyboard(m), pos0))
        },
        _ => None,
    }
}

/// The binary form of an input message: its fields in order.
#[verifier::opaque]
pub open spec fn ser_input(value: EndPointInput) -> Seq<u8> {
    ser_input_event(value.event)
}

/// What `bytes` starts with, read as an input message, and what follows it.
#[verifier::opaque]
pub open spec fn parse_input(bytes: Seq<u8>) -> Option<(EndPointInput, Seq<u8>)> {
    let event = parse_input_event(bytes);
    if event is Some {
        Some(
            (
                EndPointInput {
                    event: event.unwrap().0,
                },
                event.unwrap().1,
            ),
        )
    } else {
        None
    }
}

/// Parsing undoes serializing, whatever follows.
pub proof fn lemma_parse_input(value: EndPointInput, rest: Seq<u8>)
    ensures
        parse_input(ser_input(value) + rest) == Some((value, rest)),
{
    reveal(ser_input);
    reveal(parse_input);
    lemma_parse_input_event(value.event, rest);
}

/// Appends the binary form of `value` to `out`.
pub fn write_input(out: &mut Vec<u8>, value: &EndPointInput)
    ensures
        final(out)@ == old(out)@ + ser_input(*value),
{
    proof {
        reveal(ser_input);
    }
    write_input_event(out, &value.event);
}

/// Reads an input message at `pos`. Returns it with the position behind it.
pub fn read_input(bytes: &[u8], pos: usize) -> (r: Option<(EndPointInput, usize)>)
    ensures
        reads(bytes@, pos as int, parse_input(bytes@.skip(pos as int)), got(r)),
{
    proof {
        reveal(parse_input);
    }
    let (event, pos0) = read_input_event(bytes, pos)?;
    Some((EndPointInput { event }, pos0))
}

} // verus!
