use vstd::prelude::*;
use crate::unicode::{utf16_of, utf16_units};

verus! {

/// Virtual-key code of the backspace key.
pub const VK_BACK: u16 = 0x08;
/// Input flag: the event releases the key.
pub const KEYEVENTF_KEYUP: u32 = 0x0002;
/// Input flag: the scan code carries a UTF-16 code unit to type.
pub const KEYEVENTF_UNICODE: u32 = 0x0004;
/// Extra information attached to every synthetic event, identifying this program as its
/// source.
pub const INJECTION_TAG: usize = 1000;

/// One keyboard event to submit to the platform's input queue.
#[derive(Clone, Copy, Debug, PartialEq, Eq, Structural)]
pub struct KeyboardInput {
    pub virtual_key: u16,
    pub scan_code: u16,
    pub flags: u32,
    pub extra_info: usize,
}

pub open spec fn unicode_input(unit: u16, up: bool) -> KeyboardInput {
    KeyboardInput {
        virtual_key: 0,
        scan_code: unit,
        flags: if up {
            KEYEVENTF_UNICODE | KEYEVENTF_KEYUP
        } else {
            KEYEVENTF_UNICODE
        },
        extra_info: INJECTION_TAG,
    }
}

pub open spec fn backspace_input(up: bool) -> KeyboardInput {
    KeyboardInput {
        virtual_key: VK_BACK,
        scan_code: 0,
        flags: if up {
            KEYEVENTF_KEYUP
        } else {
            0
        },
        extra_info: INJECTION_TAG,
    }
}

/// The events that type `c`: a press and a release for each of its UTF-16 code units.
pub open spec fn character_inputs(c: char) -> Seq<KeyboardInput> {
    let units = utf16_of(c);
    if units.len() == 1 {
        seq![unicode_input(units[0], false), unicode_input(units[0], true)]
    } else {
        seq![
            unicode_input(units[0], false),
            unicode_input(units[0], true),
            unicode_input(units[1], false),
            unicode_input(units[1], true),
        ]
    }
}

/// The events of one backspace stroke: a press and a release.
pub open spec fn backspace_inputs() -> Seq<KeyboardInput> {
    seq![backspace_input(false), backspace_input(true)]
}

/// Builds the batches of synthetic keyboard events that type a character or erase one.
/// Each batch is submitted whole before the next one is built.
pub trait InputSimulator {
    fn character(c: char) -> Vec<KeyboardInput>;

    fn backspace() -> Vec<KeyboardInput>;
}

/// The simulator for the platform's input queue: every event carries `INJECTION_TAG`.
pub struct WindowsInputSimulator;

impl InputSimulator for WindowsInputSimulator {
    fn character(c: char) -> (r: Vec<KeyboardInput>)
        ensures
            r@ == character_inputs(c),
    {
        let units = utf16_units(c);
        let mut inputs: Vec<KeyboardInput> = Vec::new();
        let mut i: usize = 0;
        while i < units.len()
            invariant
                units@ == utf16_of(c),
                1 <= units@.len() <= 2,
                i <= units@.len(),
                inputs@.len() == 2 * i,
                forall|j: int|
                    0 <= j < i ==> inputs@[2 * j] == unicode_input(units@[j], false) && inputs@[2
                        * j + 1] == unicode_input(units@[j], true),
            decreases units@.len() - i,
        {
            let unit = units[i];
            inputs.push(
                KeyboardInput {
                    virtual_key: 0,
                    scan_code: unit,
                    flags: KEYEVENTF_UNICODE,
                    extra_info: INJECTION_TAG,
                },
            );
            inputs.push(
                KeyboardInput {
                    virtual_key: 0,
                    scan_code: unit,
                    flags: KEYEVENTF_UNICODE | KEYEVENTF_KEYUP,
                    extra_info: INJECTION_TAG,
                },
            );
            i = i + 1;
        }
        assert(inputs@ =~= character_inputs(c));
        inputs
    }

    fn backspace() -> (r: Vec<KeyboardInput>)
        ensures
            r@ == backspace_inputs(),
    {
        let mut inputs: Vec<KeyboardInput> = Vec::new();
        inputs.push(
            KeyboardInput { virtual_key: VK_BACK, scan_code: 0, flags: 0, extra_info: INJECTION_TAG },
        );
        inputs.push(
            KeyboardInput {
                virtual_key: VK_BACK,
                scan_code: 0,
                flags: KEYEVENTF_KEYUP,
                extra_info: INJECTION_TAG,
            },
        );
        assert(inputs@ =~= backspace_inputs());
        inputs
    }
}

} // verus!
