use vstd::prelude::*;
use crate::unicode::{char_from_u32, char_of_scalar};

verus! {

/// Number of entries in a keyboard-state snapshot, one per virtual-key code.
pub const KEY_STATE_LEN: usize = 256;

/// What the layout-aware translation reported for one key, read from its length result
/// and the first code unit it wrote.
#[derive(Clone, Copy, Debug, PartialEq, Eq, Structural)]
pub enum TranslationOutcome {
    /// The key produces no character (a modifier, a control key).
    NoChar,
    /// The key produces exactly one UTF-16 code unit.
    Unit(u16),
    /// The key produces several code units; treated as no character.
    Composite,
    /// The key is a dead key: the layout latched an accent for the next key.
    DeadKey,
}

pub open spec fn outcome_of(len: i32, first_unit: u16) -> TranslationOutcome {
    if len == 0 {
        TranslationOutcome::NoChar
    } else if len == -1 {
        TranslationOutcome::DeadKey
    } else if len == 1 {
        TranslationOutcome::Unit(first_unit)
    } else {
        TranslationOutcome::Composite
    }
}

/// The character that a translation outcome stands for: only a single code unit that is
/// not a surrogate decodes to a character.
pub open spec fn char_of_outcome(outcome: TranslationOutcome) -> Option<char> {
    match outcome {
        TranslationOutcome::Unit(u) => char_of_scalar(u as u32),
        _ => None,
    }
}

/// Whether the session is left holding a dead key after translating a key with result
/// `len`/`first_unit`, when it held one (`was_dead`) before.
pub open spec fn dead_after(was_dead: bool, len: i32, first_unit: u16) -> bool {
    !was_dead && outcome_of(len, first_unit) == TranslationOutcome::DeadKey
}

impl TranslationOutcome {
    /// Reads the outcome from the translation's length result (`-1` for a dead key) and
    /// the first unit of its output buffer.
    pub fn from_raw(len: i32, first_unit: u16) -> (r: TranslationOutcome)
        ensures
            r == outcome_of(len, first_unit),
    {
        if len == 0 {
            TranslationOutcome::NoChar
        } else if len == -1 {
            TranslationOutcome::DeadKey
        } else if len == 1 {
            TranslationOutcome::Unit(first_unit)
        } else {
            TranslationOutcome::Composite
        }
    }

    pub fn to_char(&self) -> (r: Option<char>)
        ensures
            r == char_of_outcome(*self),
    {
        match self {
            TranslationOutcome::Unit(u) => char_from_u32(*u as u32),
            _ => None,
        }
    }
}

/// A key that must be passed through the translation once more, with the keyboard state
/// it was first translated with, to flush the accent that its dead key latched.
#[derive(Debug)]
pub struct KeyReplay {
    pub code: u32,
    pub scan_code: u32,
    pub state: Vec<u8>,
}

/// The result of one translation step: the character, and the follow-up calls that the
/// caller owes the platform's translation facility.
#[derive(Debug)]
pub struct Translation {
    pub unicode_char: Option<char>,
    /// The key was a dead key: translate it again with an empty keyboard state until the
    /// facility stops reporting a dead key.
    pub drain_dead_key: bool,
    /// The previous key was a dead key: translate it once more.
    pub replay: Option<KeyReplay>,
}

/// Per-session memory of the translation: the last key, its keyboard-state snapshot and
/// whether it was a dead key.
#[derive(Debug)]
pub struct KeyboardSessionState {
    pub last_code: u32,
    pub last_scan_code: u32,
    pub last_state: Vec<u8>,
    pub last_is_dead: bool,
}

impl KeyboardSessionState {
    pub open spec fn wf(&self) -> bool {
        self.last_state@.len() == KEY_STATE_LEN
    }

    /// A fresh session: no last key, an all-released keyboard state, no dead key.
    pub fn new() -> (r: KeyboardSessionState)
        ensures
            r.wf(),
            r.last_code == 0,
            r.last_scan_code == 0,
            r.last_state@ == Seq::new(KEY_STATE_LEN as nat, |i: int| 0u8),
            !r.last_is_dead,
    {
        let mut state: Vec<u8> = Vec::new();
        let mut i: usize = 0;
        while i < KEY_STATE_LEN
            invariant
                i <= KEY_STATE_LEN,
                state@ == Seq::new(i as nat, |j: int| 0u8),
            decreases KEY_STATE_LEN - i,
        {
            state.push(0u8);
            i = i + 1;
            assert(state@ =~= Seq::new(i as nat, |j: int| 0u8));
        }
        KeyboardSessionState { last_code: 0, last_scan_code: 0, last_state: state, last_is_dead: false }
    }

    /// Takes in the platform's translation of the key `code`/`scan_code`, made with the
    /// keyboard snapshot `state`, and returns the character it yields together with the
    /// calls that keep the layout's hidden dead-key latch from leaking into later keys.
    ///
    /// A dead key is remembered; on the next call it is handed back for one more
    /// translation and forgotten, whatever that next key is.
    pub fn get_unicode_char(
        &mut self,
        code: u32,
        scan_code: u32,
        state: Vec<u8>,
        len: i32,
        first_unit: u16,
    ) -> (r: Translation)
        requires
            old(self).wf(),
            state@.len() == KEY_STATE_LEN,
        ensures
            final(self).wf(),
            r.unicode_char == char_of_outcome(outcome_of(len, first_unit)),
            r.drain_dead_key == (outcome_of(len, first_unit) == TranslationOutcome::DeadKey),
            final(self).last_is_dead == dead_after(old(self).last_is_dead, len, first_unit),
            old(self).last_is_dead ==> {
                &&& r.replay matches Some(rp)
                &&& rp.code == old(self).last_code
                &&& rp.scan_code == old(self).last_scan_code
                &&& rp.state@ == old(self).last_state@
                &&& final(self).last_code == 0
                &&& !final(self).last_is_dead
            },
            !old(self).last_is_dead ==> {
                &&& r.replay is None
                &&& final(self).last_code == code
                &&& final(self).last_scan_code == scan_code
                &&& final(self).last_state@ == state@
                &&& final(self).last_is_dead == r.drain_dead_key
            },
    {
        let outcome = TranslationOutcome::from_raw(len, first_unit);
        let unicode_char = outcome.to_char();
        let is_dead = outcome == TranslationOutcome::DeadKey;
        let mut state = state;
        if self.last_is_dead {
            core::mem::swap(&mut self.last_state, &mut state);
            let replay = KeyReplay { code: self.last_code, scan_code: self.last_scan_code, state };
            self.last_code = 0;
            self.last_is_dead = false;
            Translation { unicode_char, drain_dead_key: is_dead, replay: Some(replay) }
        } else {
            self.last_code = code;
            self.last_scan_code = scan_code;
            self.last_state = state;
            self.last_is_dead = is_dead;
            Translation { unicode_char, drain_dead_key: is_dead, replay: None }
        }
    }
}

impl Default for KeyboardSessionState {
    fn default() -> (r: KeyboardSessionState)
        ensures
            r.wf(),
            r.last_code == 0,
            r.last_scan_code == 0,
            r.last_state@ == Seq::new(KEY_STATE_LEN as nat, |i: int| 0u8),
            !r.last_is_dead,
    {
        KeyboardSessionState::new()
    }
}

/// A dead key recorded by one translation is gone after the next one, whatever key that
/// is: the session never holds a dead key after two consecutive translations that both
/// left it set.
pub proof fn lemma_dead_key_drained(was_dead: bool, len1: i32, unit1: u16, len2: i32, unit2: u16)
    ensures
        dead_after(was_dead, len1, unit1) ==> !dead_after(
            dead_after(was_dead, len1, unit1),
            len2,
            unit2,
        ),
        !was_dead && outcome_of(len1, unit1) == TranslationOutcome::DeadKey ==> {
            &&& dead_after(was_dead, len1, unit1)
            &&& !dead_after(dead_after(was_dead, len1, unit1), len2, unit2)
        },
{
}

} // verus!
