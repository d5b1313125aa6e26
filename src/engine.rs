use vstd::prelude::*;
use crate::events::MouseKeyEvent;
use crate::keys::{Key, is_change_focus_key};
use crate::lifecycle::{HookPhase, StartAction};
use crate::listener::{InputListener, WindowsListener};

verus! {

/// The combination engine's decision for a character just typed.
#[derive(Clone, Copy, Debug, PartialEq, Eq, Structural)]
pub enum CombinationVerdict {
    /// Leave the text as typed.
    NoOp,
    /// Replace the character just typed.
    Replace(char),
    /// Replace the last two characters by one.
    Combine(char),
    /// Replace the last two characters by two others.
    Revert(char, char),
}

/// What the dispatcher asks of the combination engine for one event.
#[derive(Clone, Copy, Debug, PartialEq, Eq, Structural)]
pub enum EngineRequest {
    /// Forget the characters buffered so far.
    ClearBuffer,
    /// Drop the last buffered character.
    Backspace,
    /// Add a character and return a verdict.
    AddChar(char),
    /// Nothing to do.
    Ignore,
}

/// One synthetic keystroke of a replay.
#[derive(Clone, Copy, Debug, PartialEq, Eq, Structural)]
pub enum SyntheticInput {
    Backspace,
    Character(char),
}

/// The request for an event: mouse buttons and focus-changing keys clear the buffer,
/// keys without a character are ignored, backspace is forwarded, and any other character
/// is submitted.
pub open spec fn request_for(event: MouseKeyEvent) -> EngineRequest {
    match event {
        MouseKeyEvent::Mouse => EngineRequest::ClearBuffer,
        MouseKeyEvent::Key { unicode_char, key } => if is_change_focus_key(key) {
            EngineRequest::ClearBuffer
        } else {
            match unicode_char {
                None => EngineRequest::Ignore,
                Some(c) => if key == Key::Backspace {
                    EngineRequest::Backspace
                } else {
                    EngineRequest::AddChar(c)
                },
            }
        },
    }
}

/// The keystrokes that carry out a verdict.
pub open spec fn replay_of(verdict: CombinationVerdict) -> Seq<SyntheticInput> {
    match verdict {
        CombinationVerdict::NoOp => seq![],
        CombinationVerdict::Replace(c) => seq![
            SyntheticInput::Backspace,
            SyntheticInput::Character(c),
        ],
        CombinationVerdict::Combine(c) => seq![
            SyntheticInput::Backspace,
            SyntheticInput::Backspace,
            SyntheticInput::Character(c),
        ],
        CombinationVerdict::Revert(a, b) => seq![
            SyntheticInput::Backspace,
            SyntheticInput::Backspace,
            SyntheticInput::Character(a),
            SyntheticInput::Character(b),
        ],
    }
}

/// The keystrokes that the dispatcher emits for `event` when the engine, if asked for a
/// verdict, answers `verdict`.
pub open spec fn keystrokes_for(event: MouseKeyEvent, verdict: CombinationVerdict) -> Seq<
    SyntheticInput,
> {
    match request_for(event) {
        EngineRequest::AddChar(_) => replay_of(verdict),
        _ => seq![],
    }
}

/// The capture engine: the hook listeners and the decisions of the combination
/// dispatcher that consumes their events.
#[derive(Debug)]
pub struct WindowEngine {
    pub listener: WindowsListener,
}

impl WindowEngine {
    pub open spec fn wf(&self) -> bool {
        self.listener.wf()
    }

    /// Whether the main listener is active.
    pub open spec fn is_running(&self) -> bool {
        self.listener.mouse_key.run_flag
    }

    pub fn new() -> (r: WindowEngine)
        ensures
            r.wf(),
            r.listener.mouse_key.phase == HookPhase::Stopped,
            r.listener.shortcut.phase == HookPhase::Stopped,
    {
        WindowEngine { listener: WindowsListener::new() }
    }

    /// Requests the main listener to run; `Spawn` asks the caller for a fresh hook thread
    /// and dispatcher over a new channel.
    pub fn start(&mut self) -> (r: StartAction)
        requires
            old(self).wf(),
        ensures
            final(self).wf(),
            (final(self).listener.mouse_key, r) == old(self).listener.mouse_key.after_start(),
            final(self).listener.shortcut == old(self).listener.shortcut,
            r == StartAction::Spawn ==> {
                &&& !final(self).listener.session.last_is_dead
                &&& final(self).listener.session.last_code == 0
            },
            r != StartAction::Spawn ==> final(self).listener.session == old(self).listener.session,
    {
        self.listener.start_mouse_key_listening()
    }

    /// Requests the main listener to stop; returns whether it was active.
    pub fn stop(&mut self) -> (r: bool)
        requires
            old(self).wf(),
        ensures
            final(self).wf(),
            final(self).listener.mouse_key == old(self).listener.mouse_key.after_stop(),
            final(self).listener.shortcut == old(self).listener.shortcut,
            r == old(self).listener.mouse_key.run_flag,
    {
        self.listener.stop_mouse_key_listening()
    }

    /// Requests the shortcut listener, which signals the toggle chord, to run.
    pub fn set_toggle_channel(&mut self) -> (r: StartAction)
        requires
            old(self).wf(),
        ensures
            final(self).wf(),
            (final(self).listener.shortcut, r) == old(self).listener.shortcut.after_start(),
            final(self).listener.mouse_key == old(self).listener.mouse_key,
    {
        self.listener.start_shortcut_listening()
    }

    /// Decides what the combination engine is asked for one event.
    pub fn handle_event(event: &MouseKeyEvent) -> (r: EngineRequest)
        ensures
            r == request_for(*event),
    {
        match event {
            MouseKeyEvent::Mouse => EngineRequest::ClearBuffer,
            MouseKeyEvent::Key { unicode_char, key } => {
                if key.changes_focus() {
                    return EngineRequest::ClearBuffer;
                }
                match unicode_char {
                    None => EngineRequest::Ignore,
                    Some(c) => {
                        if *key == Key::Backspace {
                            EngineRequest::Backspace
                        } else {
                            EngineRequest::AddChar(*c)
                        }
                    },
                }
            },
        }
    }

    /// The ordered keystrokes that carry out a verdict, to be submitted one after the
    /// other.
    pub fn replay(verdict: &CombinationVerdict) -> (r: Vec<SyntheticInput>)
        ensures
            r@ == replay_of(*verdict),
    {
        let mut keys: Vec<SyntheticInput> = Vec::new();
        match verdict {
            CombinationVerdict::NoOp => {},
            CombinationVerdict::Replace(c) => {
                keys.push(SyntheticInput::Backspace);
                keys.push(SyntheticInput::Character(*c));
            },
            CombinationVerdict::Combine(c) => {
                keys.push(SyntheticInput::Backspace);
                keys.push(SyntheticInput::Backspace);
                keys.push(SyntheticInput::Character(*c));
            },
            CombinationVerdict::Revert(a, b) => {
                keys.push(SyntheticInput::Backspace);
                keys.push(SyntheticInput::Backspace);
                keys.push(SyntheticInput::Character(*a));
                keys.push(SyntheticInput::Character(*b));
            },
        }
        assert(keys@ =~= replay_of(*verdict));
        keys
    }
}

/// Mouse events and focus-changing keys clear the combination buffer and never lead to a
/// synthetic keystroke, whatever verdict the engine would give.
pub proof fn lemma_focus_change_clears(event: MouseKeyEvent, verdict: CombinationVerdict)
    requires
        event matches MouseKeyEvent::Key { key, .. } ==> is_change_focus_key(key),
    ensures
        request_for(event) == EngineRequest::ClearBuffer,
        keystrokes_for(event, verdict) == Seq::<SyntheticInput>::empty(),
{
}

/// Only a submitted character can lead to keystrokes, and a `NoOp` verdict leads to none.
pub proof fn lemma_no_op_is_silent(event: MouseKeyEvent)
    ensures
        keystrokes_for(event, CombinationVerdict::NoOp) == Seq::<SyntheticInput>::empty(),
{
    assert(replay_of(CombinationVerdict::NoOp) =~= Seq::<SyntheticInput>::empty());
}

} // verus!
