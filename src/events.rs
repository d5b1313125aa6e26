use vstd::prelude::*;
use crate::keys::{Key, KeyConverter, key_of_code};
use crate::unicode::{char_from_u32, char_of_scalar};

verus! {

/// Hook code under which the platform hands over an event to be processed.
pub const HC_ACTION: i32 = 0;
/// Virtual-key code of a key event that carries an arbitrary character in its scan code.
pub const VK_PACKET: u32 = 0xE7;
/// Flag of a low-level keyboard event that was injected rather than typed.
pub const LLKHF_INJECTED: u32 = 0x10;
/// Flag of a low-level mouse event that was injected rather than made by a device.
pub const LLMHF_INJECTED: u32 = 0x01;

pub const WM_KEYDOWN: u32 = 0x0100;
pub const WM_KEYUP: u32 = 0x0101;
pub const WM_SYSKEYDOWN: u32 = 0x0104;
pub const WM_SYSKEYUP: u32 = 0x0105;
pub const WM_LBUTTONDOWN: u32 = 0x0201;
pub const WM_LBUTTONUP: u32 = 0x0202;
pub const WM_RBUTTONDOWN: u32 = 0x0204;
pub const WM_RBUTTONUP: u32 = 0x0205;
pub const WM_MBUTTONDOWN: u32 = 0x0207;
pub const WM_MBUTTONUP: u32 = 0x0208;

/// The kind of a low-level hook message.
#[derive(Clone, Copy, Debug, PartialEq, Eq, Structural)]
pub enum MessageKind {
    KeyDown,
    SysKeyDown,
    KeyUp,
    SysKeyUp,
    LeftButtonDown,
    LeftButtonUp,
    RightButtonDown,
    RightButtonUp,
    MiddleButtonDown,
    MiddleButtonUp,
    Other,
}

pub open spec fn message_kind_of(message: u32) -> MessageKind {
    if message == WM_KEYDOWN {
        MessageKind::KeyDown
    } else if message == WM_SYSKEYDOWN {
        MessageKind::SysKeyDown
    } else if message == WM_KEYUP {
        MessageKind::KeyUp
    } else if message == WM_SYSKEYUP {
        MessageKind::SysKeyUp
    } else if message == WM_LBUTTONDOWN {
        MessageKind::LeftButtonDown
    } else if message == WM_LBUTTONUP {
        MessageKind::LeftButtonUp
    } else if message == WM_RBUTTONDOWN {
        MessageKind::RightButtonDown
    } else if message == WM_RBUTTONUP {
        MessageKind::RightButtonUp
    } else if message == WM_MBUTTONDOWN {
        MessageKind::MiddleButtonDown
    } else if message == WM_MBUTTONUP {
        MessageKind::MiddleButtonUp
    } else {
        MessageKind::Other
    }
}

impl MessageKind {
    pub open spec fn is_key_down_spec(self) -> bool {
        self == MessageKind::KeyDown || self == MessageKind::SysKeyDown
    }

    pub open spec fn is_mouse_button_spec(self) -> bool {
        match self {
            MessageKind::LeftButtonDown | MessageKind::LeftButtonUp => true,
            MessageKind::RightButtonDown | MessageKind::RightButtonUp => true,
            MessageKind::MiddleButtonDown | MessageKind::MiddleButtonUp => true,
            _ => false,
        }
    }

    /// Reads the message number of a hook call.
    pub fn from_message(message: u32) -> (r: MessageKind)
        ensures
            r == message_kind_of(message),
    {
        if message == WM_KEYDOWN {
            MessageKind::KeyDown
        } else if message == WM_SYSKEYDOWN {
            MessageKind::SysKeyDown
        } else if message == WM_KEYUP {
            MessageKind::KeyUp
        } else if message == WM_SYSKEYUP {
            MessageKind::SysKeyUp
        } else if message == WM_LBUTTONDOWN {
            MessageKind::LeftButtonDown
        } else if message == WM_LBUTTONUP {
            MessageKind::LeftButtonUp
        } else if message == WM_RBUTTONDOWN {
            MessageKind::RightButtonDown
        } else if message == WM_RBUTTONUP {
            MessageKind::RightButtonUp
        } else if message == WM_MBUTTONDOWN {
            MessageKind::MiddleButtonDown
        } else if message == WM_MBUTTONUP {
            MessageKind::MiddleButtonUp
        } else {
            MessageKind::Other
        }
    }

    /// Whether the message is a key press (plain or with the system modifier).
    pub fn is_key_down(&self) -> (r: bool)
        ensures
            r == self.is_key_down_spec(),
    {
        match self {
            MessageKind::KeyDown | MessageKind::SysKeyDown => true,
            _ => false,
        }
    }

    /// Whether the message is a press or release of a mouse button.
    pub fn is_mouse_button(&self) -> (r: bool)
        ensures
            r == self.is_mouse_button_spec(),
    {
        match self {
            MessageKind::LeftButtonDown | MessageKind::LeftButtonUp => true,
            MessageKind::RightButtonDown | MessageKind::RightButtonUp => true,
            MessageKind::MiddleButtonDown | MessageKind::MiddleButtonUp => true,
            _ => false,
        }
    }
}

/// A hook event, decoded from the platform's payload at the point where it is received.
#[derive(Clone, Copy, Debug, PartialEq, Eq, Structural)]
pub struct RawKeyEvent {
    pub message: MessageKind,
    pub virtual_key: u32,
    pub scan_code: u32,
    /// The event was synthesised by a program rather than made by a device.
    pub injected: bool,
}

impl RawKeyEvent {
    /// Decodes a call of the low-level keyboard hook; `None` when the hook code asks for
    /// the event to be passed on untouched.
    pub fn from_keyboard_hook(
        hook_code: i32,
        message: u32,
        virtual_key: u32,
        scan_code: u32,
        flags: u32,
    ) -> (r: Option<RawKeyEvent>)
        ensures
            hook_code != HC_ACTION ==> r is None,
            hook_code == HC_ACTION ==> r == Some(
                RawKeyEvent {
                    message: message_kind_of(message),
                    virtual_key,
                    scan_code,
                    injected: flags & LLKHF_INJECTED != 0,
                },
            ),
    {
        if hook_code != HC_ACTION {
            return None;
        }
        Some(
            RawKeyEvent {
                message: MessageKind::from_message(message),
                virtual_key,
                scan_code,
                injected: flags & LLKHF_INJECTED != 0,
            },
        )
    }

    /// Decodes a call of the low-level mouse hook, which carries no key.
    pub fn from_mouse_hook(hook_code: i32, message: u32, flags: u32) -> (r: Option<RawKeyEvent>)
        ensures
            hook_code != HC_ACTION ==> r is None,
            hook_code == HC_ACTION ==> r == Some(
                RawKeyEvent {
                    message: message_kind_of(message),
                    virtual_key: 0,
                    scan_code: 0,
                    injected: flags & LLMHF_INJECTED != 0,
                },
            ),
    {
        if hook_code != HC_ACTION {
            return None;
        }
        Some(
            RawKeyEvent {
                message: MessageKind::from_message(message),
                virtual_key: 0,
                scan_code: 0,
                injected: flags & LLMHF_INJECTED != 0,
            },
        )
    }
}

/// An event handed from the hook to the combination dispatcher.
#[derive(Clone, Copy, Debug, PartialEq, Eq, Structural)]
pub enum MouseKeyEvent {
    /// Any mouse button went down or up.
    Mouse,
    /// A key went down; `unicode_char` is the character it types, if any.
    Key { unicode_char: Option<char>, key: Key },
}

/// Whether the event is a key press whose character must come from the keyboard layout:
/// a device key press other than a packet key.
pub open spec fn needs_translation_spec(raw: RawKeyEvent) -> bool {
    !raw.injected && raw.message.is_key_down_spec() && raw.virtual_key != VK_PACKET
}

/// The event that the dispatcher receives for `raw`, given the layout's character
/// `translated` for it. Injected events never produce one.
pub open spec fn domain_event_of(raw: RawKeyEvent, translated: Option<char>) -> Option<MouseKeyEvent> {
    if raw.injected {
        None
    } else if raw.message.is_mouse_button_spec() {
        Some(MouseKeyEvent::Mouse)
    } else if raw.message.is_key_down_spec() {
        let unicode_char = if raw.virtual_key == VK_PACKET {
            char_of_scalar(raw.scan_code)
        } else {
            translated
        };
        Some(MouseKeyEvent::Key { unicode_char, key: key_of_code(raw.virtual_key) })
    } else {
        None
    }
}

/// Whether the layout must be asked for the character of `raw` before classifying it.
pub fn needs_translation(raw: &RawKeyEvent) -> (r: bool)
    ensures
        r == needs_translation_spec(*raw),
{
    !raw.injected && raw.message.is_key_down() && raw.virtual_key != VK_PACKET
}

/// Drops injected events and turns the rest into dispatcher events. A packet key takes its
/// character from the scan code; any other key press takes `translated`.
pub fn classify(raw: &RawKeyEvent, translated: Option<char>) -> (r: Option<MouseKeyEvent>)
    ensures
        r == domain_event_of(*raw, translated),
{
    if raw.injected {
        None
    } else if raw.message.is_mouse_button() {
        Some(MouseKeyEvent::Mouse)
    } else if raw.message.is_key_down() {
        let unicode_char = if raw.virtual_key == VK_PACKET {
            char_from_u32(raw.scan_code)
        } else {
            translated
        };
        Some(MouseKeyEvent::Key { unicode_char, key: Key::from_virtual_key_code(raw.virtual_key) })
    } else {
        None
    }
}

/// No injected event reaches the dispatcher, whatever its kind, codes or character.
pub proof fn lemma_injected_events_dropped(raw: RawKeyEvent, translated: Option<char>)
    requires
        raw.injected,
    ensures
        domain_event_of(raw, translated) is None,
        !needs_translation_spec(raw),
{
}

} // verus!
