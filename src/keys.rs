use vstd::prelude::*;

verus! {

/// The physical key behind a virtual-key code, independent of the platform's numbering.
///
/// Every code that has no named key maps to `Unknown`, which keeps the raw value so that
/// the mapping can be reversed.
#[derive(Clone, Copy, Debug, PartialEq, Eq, Hash, Structural)]
pub enum Key {
    Alt,
    AltGr,
    Backspace,
    CapsLock,
    ControlLeft,
    ControlRight,
    Delete,
    DownArrow,
    End,
    Escape,
    F1,
    F10,
    F11,
    F12,
    F2,
    F3,
    F4,
    F5,
    F6,
    F7,
    F8,
    F9,
    Home,
    LeftArrow,
    MetaLeft,
    PageDown,
    PageUp,
    Return,
    RightArrow,
    ShiftLeft,
    ShiftRight,
    Space,
    Tab,
    UpArrow,
    PrintScreen,
    ScrollLock,
    Pause,
    NumLock,
    BackQuote,
    Key1,
    Key2,
    Key3,
    Key4,
    Key5,
    Key6,
    Key7,
    Key8,
    Key9,
    Key0,
    Minus,
    Equal,
    Q,
    W,
    E,
    R,
    T,
    Y,
    U,
    I,
    O,
    P,
    LeftBracket,
    RightBracket,
    A,
    S,
    D,
    F,
    G,
    H,
    J,
    K,
    L,
    SemiColon,
    Quote,
    BackSlash,
    IntlBackslash,
    Z,
    X,
    C,
    V,
    B,
    N,
    M,
    Comma,
    Dot,
    Slash,
    Insert,
    NumpadMinus,
    NumpadPlus,
    NumpadMultiply,
    NumpadDivide,
    Numpad0,
    Numpad1,
    Numpad2,
    Numpad3,
    Numpad4,
    Numpad5,
    Numpad6,
    Numpad7,
    Numpad8,
    Numpad9,
    NumpadDecimal,
    Unknown(u32),
}

/// The key that the table assigns to a virtual-key code.
pub open spec fn key_of_code(code: u32) -> Key {
    match code {
        0xA4 => Key::Alt,
        0xA5 => Key::AltGr,
        0x08 => Key::Backspace,
        0x14 => Key::CapsLock,
        0xA2 => Key::ControlLeft,
        0xA3 => Key::ControlRight,
        0x2E => Key::Delete,
        0x28 => Key::DownArrow,
        0x23 => Key::End,
        0x1B => Key::Escape,
        0x70 => Key::F1,
        0x79 => Key::F10,
        0x7A => Key::F11,
        0x7B => Key::F12,
        0x71 => Key::F2,
        0x72 => Key::F3,
        0x73 => Key::F4,
        0x74 => Key::F5,
        0x75 => Key::F6,
        0x76 => Key::F7,
        0x77 => Key::F8,
        0x78 => Key::F9,
        0x24 => Key::Home,
        0x25 => Key::LeftArrow,
        0x5B => Key::MetaLeft,
        0x22 => Key::PageDown,
        0x21 => Key::PageUp,
        0x0D => Key::Return,
        0x27 => Key::RightArrow,
        0xA0 => Key::ShiftLeft,
        0xA1 => Key::ShiftRight,
        0x20 => Key::Space,
        0x09 => Key::Tab,
        0x26 => Key::UpArrow,
        0x2C => Key::PrintScreen,
        0x91 => Key::ScrollLock,
        0x13 => Key::Pause,
        0x90 => Key::NumLock,
        0xC0 => Key::BackQuote,
        0x31 => Key::Key1,
        0x32 => Key::Key2,
        0x33 => Key::Key3,
        0x34 => Key::Key4,
        0x35 => Key::Key5,
        0x36 => Key::Key6,
        0x37 => Key::Key7,
        0x38 => Key::Key8,
        0x39 => Key::Key9,
        0x30 => Key::Key0,
        0xBD => Key::Minus,
        0xBB => Key::Equal,
        0x51 => Key::Q,
        0x57 => Key::W,
        0x45 => Key::E,
        0x52 => Key::R,
        0x54 => Key::T,
        0x59 => Key::Y,
        0x55 => Key::U,
        0x49 => Key::I,
        0x4F => Key::O,
        0x50 => Key::P,
        0xDB => Key::LeftBracket,
        0xDD => Key::RightBracket,
        0x41 => Key::A,
        0x53 => Key::S,
        0x44 => Key::D,
        0x46 => Key::F,
        0x47 => Key::G,
        0x48 => Key::H,
        0x4A => Key::J,
        0x4B => Key::K,
        0x4C => Key::L,
        0xBA => Key::SemiColon,
        0xDE => Key::Quote,
        0xDC => Key::BackSlash,
        0xE2 => Key::IntlBackslash,
        0x5A => Key::Z,
        0x58 => Key::X,
        0x43 => Key::C,
        0x56 => Key::V,
        0x42 => Key::B,
        0x4E => Key::N,
        0x4D => Key::M,
        0xBC => Key::Comma,
        0xBE => Key::Dot,
        0xBF => Key::Slash,
        0x2D => Key::Insert,
        0x6D => Key::NumpadMinus,
        0x6B => Key::NumpadPlus,
        0x6A => Key::NumpadMultiply,
        0x6F => Key::NumpadDivide,
        0x60 => Key::Numpad0,
        0x61 => Key::Numpad1,
        0x62 => Key::Numpad2,
        0x63 => Key::Numpad3,
        0x64 => Key::Numpad4,
        0x65 => Key::Numpad5,
        0x66 => Key::Numpad6,
        0x67 => Key::Numpad7,
        0x68 => Key::Numpad8,
        0x69 => Key::Numpad9,
        0x6E => Key::NumpadDecimal,
        _ => Key::Unknown(code),
    }
}

/// The virtual-key code that the table assigns to a key.
pub open spec fn code_of_key(key: Key) -> u32 {
    match key {
        Key::Alt => 0xA4,
        Key::AltGr => 0xA5,
        Key::Backspace => 0x08,
        Key::CapsLock => 0x14,
        Key::ControlLeft => 0xA2,
        Key::ControlRight => 0xA3,
        Key::Delete => 0x2E,
        Key::DownArrow => 0x28,
        Key::End => 0x23,
        Key::Escape => 0x1B,
        Key::F1 => 0x70,
        Key::F10 => 0x79,
        Key::F11 => 0x7A,
        Key::F12 => 0x7B,
        Key::F2 => 0x71,
        Key::F3 => 0x72,
        Key::F4 => 0x73,
        Key::F5 => 0x74,
        Key::F6 => 0x75,
        Key::F7 => 0x76,
        Key::F8 => 0x77,
        Key::F9 => 0x78,
        Key::Home => 0x24,
        Key::LeftArrow => 0x25,
        Key::MetaLeft => 0x5B,
        Key::PageDown => 0x22,
        Key::PageUp => 0x21,
        Key::Return => 0x0D,
        Key::RightArrow => 0x27,
        Key::ShiftLeft => 0xA0,
        Key::ShiftRight => 0xA1,
        Key::Space => 0x20,
        Key::Tab => 0x09,
        Key::UpArrow => 0x26,
        Key::PrintScreen => 0x2C,
        Key::ScrollLock => 0x91,
        Key::Pause => 0x13,
        Key::NumLock => 0x90,
        Key::BackQuote => 0xC0,
        Key::Key1 => 0x31,
        Key::Key2 => 0x32,
        Key::Key3 => 0x33,
        Key::Key4 => 0x34,
        Key::Key5 => 0x35,
        Key::Key6 => 0x36,
        Key::Key7 => 0x37,
        Key::Key8 => 0x38,
        Key::Key9 => 0x39,
        Key::Key0 => 0x30,
        Key::Minus => 0xBD,
        Key::Equal => 0xBB,
        Key::Q => 0x51,
        Key::W => 0x57,
        Key::E => 0x45,
        Key::R => 0x52,
        Key::T => 0x54,
        Key::Y => 0x59,
        Key::U => 0x55,
        Key::I => 0x49,
        Key::O => 0x4F,
        Key::P => 0x50,
        Key::LeftBracket => 0xDB,
        Key::RightBracket => 0xDD,
        Key::A => 0x41,
        Key::S => 0x53,
        Key::D => 0x44,
        Key::F => 0x46,
        Key::G => 0x47,
        Key::H => 0x48,
        Key::J => 0x4A,
        Key::K => 0x4B,
        Key::L => 0x4C,
        Key::SemiColon => 0xBA,
        Key::Quote => 0xDE,
        Key::BackSlash => 0xDC,
        Key::IntlBackslash => 0xE2,
        Key::Z => 0x5A,
        Key::X => 0x58,
        Key::C => 0x43,
        Key::V => 0x56,
        Key::B => 0x42,
        Key::N => 0x4E,
        Key::M => 0x4D,
        Key::Comma => 0xBC,
        Key::Dot => 0xBE,
        Key::Slash => 0xBF,
        Key::Insert => 0x2D,
        Key::NumpadMinus => 0x6D,
        Key::NumpadPlus => 0x6B,
        Key::NumpadMultiply => 0x6A,
        Key::NumpadDivide => 0x6F,
        Key::Numpad0 => 0x60,
        Key::Numpad1 => 0x61,
        Key::Numpad2 => 0x62,
        Key::Numpad3 => 0x63,
        Key::Numpad4 => 0x64,
        Key::Numpad5 => 0x65,
        Key::Numpad6 => 0x66,
        Key::Numpad7 => 0x67,
        Key::Numpad8 => 0x68,
        Key::Numpad9 => 0x69,
        Key::NumpadDecimal => 0x6E,
        Key::Unknown(code) => code,
    }
}

/// Whether pressing the key moves the caret or the focus, so that the characters typed
/// so far can no longer be combined with the next one.
pub open spec fn is_change_focus_key(key: Key) -> bool {
    match key {
        Key::Tab | Key::Return | Key::Escape => true,
        Key::UpArrow | Key::DownArrow | Key::LeftArrow | Key::RightArrow => true,
        Key::Home | Key::End | Key::PageUp | Key::PageDown => true,
        Key::F1 | Key::F2 | Key::F3 | Key::F4 | Key::F5 | Key::F6 => true,
        Key::F7 | Key::F8 | Key::F9 | Key::F10 | Key::F11 | Key::F12 => true,
        _ => false,
    }
}

impl Key {
    /// Whether the key belongs to the focus-changing keys (tab, enter, escape, arrows,
    /// page navigation and function keys).
    pub fn changes_focus(&self) -> (r: bool)
        ensures
            r == is_change_focus_key(*self),
    {
        match self {
            Key::Tab | Key::Return | Key::Escape => true,
            Key::UpArrow | Key::DownArrow | Key::LeftArrow | Key::RightArrow => true,
            Key::Home | Key::End | Key::PageUp | Key::PageDown => true,
            Key::F1 | Key::F2 | Key::F3 | Key::F4 | Key::F5 | Key::F6 => true,
            Key::F7 | Key::F8 | Key::F9 | Key::F10 | Key::F11 | Key::F12 => true,
            _ => false,
        }
    }
}

/// Conversion between a key and the platform's virtual-key code.
pub trait KeyConverter: Sized {
    fn to_virtual_key_code(&self) -> Option<u32>;

    fn from_virtual_key_code(virtual_key_code: u32) -> Self;
}

impl KeyConverter for Key {
    fn to_virtual_key_code(&self) -> (r: Option<u32>)
        ensures
            r == Some(code_of_key(*self)),
    {
        let code: u32 = match self {
            Key::Alt => 0xA4,
            Key::AltGr => 0xA5,
            Key::Backspace => 0x08,
            Key::CapsLock => 0x14,
            Key::ControlLeft => 0xA2,
            Key::ControlRight => 0xA3,
            Key::Delete => 0x2E,
            Key::DownArrow => 0x28,
            Key::End => 0x23,
            Key::Escape => 0x1B,
            Key::F1 => 0x70,
            Key::F10 => 0x79,
            Key::F11 => 0x7A,
            Key::F12 => 0x7B,
            Key::F2 => 0x71,
            Key::F3 => 0x72,
            Key::F4 => 0x73,
            Key::F5 => 0x74,
            Key::F6 => 0x75,
            Key::F7 => 0x76,
            Key::F8 => 0x77,
            Key::F9 => 0x78,
            Key::Home => 0x24,
            Key::LeftArrow => 0x25,
            Key::MetaLeft => 0x5B,
            Key::PageDown => 0x22,
            Key::PageUp => 0x21,
            Key::Return => 0x0D,
            Key::RightArrow => 0x27,
            Key::ShiftLeft => 0xA0,
            Key::ShiftRight => 0xA1,
            Key::Space => 0x20,
            Key::Tab => 0x09,
            Key::UpArrow => 0x26,
            Key::PrintScreen => 0x2C,
            Key::ScrollLock => 0x91,
            Key::Pause => 0x13,
            Key::NumLock => 0x90,
            Key::BackQuote => 0xC0,
            Key::Key1 => 0x31,
            Key::Key2 => 0x32,
            Key::Key3 => 0x33,
            Key::Key4 => 0x34,
            Key::Key5 => 0x35,
            Key::Key6 => 0x36,
            Key::Key7 => 0x37,
            Key::Key8 => 0x38,
            Key::Key9 => 0x39,
            Key::Key0 => 0x30,
            Key::Minus => 0xBD,
            Key::Equal => 0xBB,
            Key::Q => 0x51,
            Key::W => 0x57,
            Key::E => 0x45,
            Key::R => 0x52,
            Key::T => 0x54,
            Key::Y => 0x59,
            Key::U => 0x55,
            Key::I => 0x49,
            Key::O => 0x4F,
            Key::P => 0x50,
            Key::LeftBracket => 0xDB,
            Key::RightBracket => 0xDD,
            Key::A => 0x41,
            Key::S => 0x53,
            Key::D => 0x44,
            Key::F => 0x46,
            Key::G => 0x47,
            Key::H => 0x48,
            Key::J => 0x4A,
            Key::K => 0x4B,
            Key::L => 0x4C,
            Key::SemiColon => 0xBA,
            Key::Quote => 0xDE,
            Key::BackSlash => 0xDC,
            Key::IntlBackslash => 0xE2,
            Key::Z => 0x5A,
            Key::X => 0x58,
            Key::C => 0x43,
            Key::V => 0x56,
            Key::B => 0x42,
            Key::N => 0x4E,
            Key::M => 0x4D,
            Key::Comma => 0xBC,
            Key::Dot => 0xBE,
            Key::Slash => 0xBF,
            Key::Insert => 0x2D,
            Key::NumpadMinus => 0x6D,
            Key::NumpadPlus => 0x6B,
            Key::NumpadMultiply => 0x6A,
            Key::NumpadDivide => 0x6F,
            Key::Numpad0 => 0x60,
            Key::Numpad1 => 0x61,
            Key::Numpad2 => 0x62,
            Key::Numpad3 => 0x63,
            Key::Numpad4 => 0x64,
            Key::Numpad5 => 0x65,
            Key::Numpad6 => 0x66,
            Key::Numpad7 => 0x67,
            Key::Numpad8 => 0x68,
            Key::Numpad9 => 0x69,
            Key::NumpadDecimal => 0x6E,
            Key::Unknown(code) => *code,
        };
        Some(code)
    }

    fn from_virtual_key_code(virtual_key_code: u32) -> (r: Key)
        ensures
            r == key_of_code(virtual_key_code),
    {
        match virtual_key_code {
            0xA4 => Key::Alt,
            0xA5 => Key::AltGr,
            0x08 => Key::Backspace,
            0x14 => Key::CapsLock,
            0xA2 => Key::ControlLeft,
            0xA3 => Key::ControlRight,
            0x2E => Key::Delete,
            0x28 => Key::DownArrow,
            0x23 => Key::End,
            0x1B => Key::Escape,
            0x70 => Key::F1,
            0x79 => Key::F10,
            0x7A => Key::F11,
            0x7B => Key::F12,
            0x71 => Key::F2,
            0x72 => Key::F3,
            0x73 => Key::F4,
            0x74 => Key::F5,
            0x75 => Key::F6,
            0x76 => Key::F7,
            0x77 => Key::F8,
            0x78 => Key::F9,
            0x24 => Key::Home,
            0x25 => Key::LeftArrow,
            0x5B => Key::MetaLeft,
            0x22 => Key::PageDown,
            0x21 => Key::PageUp,
            0x0D => Key::Return,
            0x27 => Key::RightArrow,
            0xA0 => Key::ShiftLeft,
            0xA1 => Key::ShiftRight,
            0x20 => Key::Space,
            0x09 => Key::Tab,
            0x26 => Key::UpArrow,
            0x2C => Key::PrintScreen,
            0x91 => Key::ScrollLock,
            0x13 => Key::Pause,
            0x90 => Key::NumLock,
            0xC0 => Key::BackQuote,
            0x31 => Key::Key1,
            0x32 => Key::Key2,
            0x33 => Key::Key3,
            0x34 => Key::Key4,
            0x35 => Key::Key5,
            0x36 => Key::Key6,
            0x37 => Key::Key7,
            0x38 => Key::Key8,
            0x39 => Key::Key9,
            0x30 => Key::Key0,
            0xBD => Key::Minus,
            0xBB => Key::Equal,
            0x51 => Key::Q,
            0x57 => Key::W,
            0x45 => Key::E,
            0x52 => Key::R,
            0x54 => Key::T,
            0x59 => Key::Y,
            0x55 => Key::U,
            0x49 => Key::I,
            0x4F => Key::O,
            0x50 => Key::P,
            0xDB => Key::LeftBracket,
            0xDD => Key::RightBracket,
            0x41 => Key::A,
            0x53 => Key::S,
            0x44 => Key::D,
            0x46 => Key::F,
            0x47 => Key::G,
            0x48 => Key::H,
            0x4A => Key::J,
            0x4B => Key::K,
            0x4C => Key::L,
            0xBA => Key::SemiColon,
            0xDE => Key::Quote,
            0xDC => Key::BackSlash,
            0xE2 => Key::IntlBackslash,
            0x5A => Key::Z,
            0x58 => Key::X,
            0x43 => Key::C,
            0x56 => Key::V,
            0x42 => Key::B,
            0x4E => Key::N,
            0x4D => Key::M,
            0xBC => Key::Comma,
            0xBE => Key::Dot,
            0xBF => Key::Slash,
            0x2D => Key::Insert,
            0x6D => Key::NumpadMinus,
            0x6B => Key::NumpadPlus,
            0x6A => Key::NumpadMultiply,
            0x6F => Key::NumpadDivide,
            0x60 => Key::Numpad0,
            0x61 => Key::Numpad1,
            0x62 => Key::Numpad2,
            0x63 => Key::Numpad3,
            0x64 => Key::Numpad4,
            0x65 => Key::Numpad5,
            0x66 => Key::Numpad6,
            0x67 => Key::Numpad7,
            0x68 => Key::Numpad8,
            0x69 => Key::Numpad9,
            0x6E => Key::NumpadDecimal,
            _ => Key::Unknown(virtual_key_code),
        }
    }
}

/// Every virtual-key code comes back unchanged from its key: reading a code as a key and
/// writing the key as a code is the identity on all of `u32`.
pub proof fn lemma_code_round_trip(code: u32)
    ensures
        code_of_key(key_of_code(code)) == code,
{
}

/// Two codes that read as the same key are the same code.
pub proof fn lemma_key_of_code_injective(a: u32, b: u32)
    ensures
        key_of_code(a) == key_of_code(b) ==> a == b,
{
    lemma_code_round_trip(a);
    lemma_code_round_trip(b);
}

} // verus!
