use vstd::prelude::*;
use crate::events::{classify, domain_event_of, MouseKeyEvent, RawKeyEvent};
use crate::keys::{Key, KeyConverter, key_of_code};
use crate::lifecycle::{HookLifecycle, HookPhase, StartAction};
use crate::translator::{KeyboardSessionState, KEY_STATE_LEN};

verus! {

/// Number of hooks that the mouse-and-key listener installs: keyboard, then mouse.
pub const MOUSE_KEY_HOOKS: usize = 2;
/// Number of hooks that the shortcut listener installs: keyboard only.
pub const SHORTCUT_HOOKS: usize = 1;

/// Whether a key press is half of the toggle chord with the other half held: a control key
/// while alt is down, or alt while a control key is down.
pub open spec fn is_toggle_chord(raw: RawKeyEvent, alt_down: bool, ctrl_down: bool) -> bool {
    &&& raw.message.is_key_down_spec()
    &&& match key_of_code(raw.virtual_key) {
        Key::ControlLeft | Key::ControlRight => alt_down,
        Key::Alt => ctrl_down,
        _ => false,
    }
}

/// The state owned by the two global hook listeners: the main listener, which feeds the
/// combination dispatcher with mouse and key events, and the shortcut listener, which
/// watches for the toggle chord. Each has its own lifecycle; the translation session
/// belongs to the main listener and is fresh for each of its sessions.
#[derive(Debug)]
pub struct WindowsListener {
    pub mouse_key: HookLifecycle,
    pub shortcut: HookLifecycle,
    pub session: KeyboardSessionState,
}

impl WindowsListener {
    pub open spec fn wf(&self) -> bool {
        &&& self.mouse_key.wf()
        &&& self.shortcut.wf()
        &&& self.mouse_key.hook_count == MOUSE_KEY_HOOKS
        &&& self.shortcut.hook_count == SHORTCUT_HOOKS
        &&& self.session.wf()
    }

    /// Both listeners stopped.
    pub fn new() -> (r: WindowsListener)
        ensures
            r.wf(),
            r.mouse_key.phase == HookPhase::Stopped,
            r.shortcut.phase == HookPhase::Stopped,
    {
        WindowsListener {
            mouse_key: HookLifecycle::new(MOUSE_KEY_HOOKS),
            shortcut: HookLifecycle::new(SHORTCUT_HOOKS),
            session: KeyboardSessionState::new(),
        }
    }

    /// The event that the main listener sends for `raw`, where `translated` is the
    /// layout's character for it. Nothing is sent once the listener has let go of its
    /// sender: a callback that fires during teardown is dropped.
    pub fn process_mouse_key_event(&self, raw: &RawKeyEvent, translated: Option<char>) -> (r:
        Option<MouseKeyEvent>)
        ensures
            !self.mouse_key.sender_attached ==> r is None,
            self.mouse_key.sender_attached ==> r == domain_event_of(*raw, translated),
    {
        if !self.mouse_key.sender_attached {
            return None;
        }
        classify(raw, translated)
    }

    /// Whether the shortcut listener signals a toggle for `raw`, given the platform's key
    /// states of alt and control (negative while the key is down). Exactly one signal per
    /// qualifying key press; none for a release, and none once the sender is gone.
    pub fn process_shortcut_event(&self, raw: &RawKeyEvent, alt_state: i16, ctrl_state: i16) -> (r:
        bool)
        ensures
            r == (self.shortcut.sender_attached && is_toggle_chord(
                *raw,
                alt_state < 0,
                ctrl_state < 0,
            )),
    {
        if !self.shortcut.sender_attached || !raw.message.is_key_down() {
            return false;
        }
        match Key::from_virtual_key_code(raw.virtual_key) {
            Key::ControlLeft | Key::ControlRight => alt_state < 0,
            Key::Alt => ctrl_state < 0,
            _ => false,
        }
    }
}

/// Starting and stopping the two global hook listeners.
pub trait InputListener {
    spec fn listener_wf(&self) -> bool;

    fn start_mouse_key_listening(&mut self) -> (r: StartAction)
        requires
            old(self).listener_wf(),
        ensures
            final(self).listener_wf(),
    ;

    fn stop_mouse_key_listening(&mut self) -> (r: bool)
        requires
            old(self).listener_wf(),
        ensures
            final(self).listener_wf(),
    ;

    fn start_shortcut_listening(&mut self) -> (r: StartAction)
        requires
            old(self).listener_wf(),
        ensures
            final(self).listener_wf(),
    ;

    fn stop_shortcut_listening(&mut self) -> (r: bool)
        requires
            old(self).listener_wf(),
        ensures
            final(self).listener_wf(),
    ;
}

impl InputListener for WindowsListener {
    open spec fn listener_wf(&self) -> bool {
        self.wf()
    }

    /// Requests the main listener to run; a spawned session starts with a fresh
    /// translation state.
    fn start_mouse_key_listening(&mut self) -> (r: StartAction)
        ensures
            (final(self).mouse_key, r) == old(self).mouse_key.after_start(),
            final(self).shortcut == old(self).shortcut,
            r == StartAction::Spawn ==> {
                &&& !final(self).session.last_is_dead
                &&& final(self).session.last_code == 0
                &&& final(self).session.last_scan_code == 0
                &&& final(self).session.last_state@ == Seq::new(KEY_STATE_LEN as nat, |i: int| 0u8)
            },
            r != StartAction::Spawn ==> final(self).session == old(self).session,
    {
        let action = self.mouse_key.start();
        if action == StartAction::Spawn {
            self.session = KeyboardSessionState::new();
        }
        action
    }

    /// Requests the main listener to stop; returns whether it was active.
    fn stop_mouse_key_listening(&mut self) -> (r: bool)
        ensures
            final(self).mouse_key == old(self).mouse_key.after_stop(),
            final(self).shortcut == old(self).shortcut,
            final(self).session == old(self).session,
            r == old(self).mouse_key.run_flag,
    {
        self.mouse_key.stop()
    }

    /// Requests the shortcut listener to run.
    fn start_shortcut_listening(&mut self) -> (r: StartAction)
        ensures
            (final(self).shortcut, r) == old(self).shortcut.after_start(),
            final(self).mouse_key == old(self).mouse_key,
            final(self).session == old(self).session,
    {
        self.shortcut.start()
    }

    /// Requests the shortcut listener to stop; returns whether it was active.
    fn stop_shortcut_listening(&mut self) -> (r: bool)
        ensures
            final(self).shortcut == old(self).shortcut.after_stop(),
            final(self).mouse_key == old(self).mouse_key,
            final(self).session == old(self).session,
            r == old(self).shortcut.run_flag,
    {
        self.shortcut.stop()
    }
}

/// The chord toggles on the press of its second key, in either order, and never on a
/// release: a control press with alt held and an alt press with control held each give a
/// signal; no release message does.
pub proof fn lemma_toggle_chord(raw: RawKeyEvent, alt_down: bool, ctrl_down: bool)
    ensures
        !raw.message.is_key_down_spec() ==> !is_toggle_chord(raw, alt_down, ctrl_down),
        raw.message.is_key_down_spec() && alt_down && (raw.virtual_key == 0xA2 || raw.virtual_key
            == 0xA3) ==> is_toggle_chord(raw, alt_down, ctrl_down),
        raw.message.is_key_down_spec() && ctrl_down && raw.virtual_key == 0xA4 ==> is_toggle_chord(
            raw,
            alt_down,
            ctrl_down,
        ),
        !alt_down && !ctrl_down ==> !is_toggle_chord(raw, alt_down, ctrl_down),
{
}

} // verus!
