use clavfrancais_windows::controllers::{change_language, start_engine, stop_engine, toggle_language, AppState, Language};
use clavfrancais_windows::engine::{CombinationVerdict, EngineRequest, SyntheticInput, WindowEngine};
use clavfrancais_windows::events::{classify, needs_translation, MessageKind, MouseKeyEvent, RawKeyEvent};
use clavfrancais_windows::input_simulator::{InputSimulator, KeyboardInput, WindowsInputSimulator};
use clavfrancais_windows::keys::Key;
use clavfrancais_windows::lifecycle::{HookLifecycle, HookPhase, StartAction};
use clavfrancais_windows::listener::{InputListener, WindowsListener};
use clavfrancais_windows::translator::{KeyboardSessionState, TranslationOutcome};
use clavfrancais_windows::unicode::utf16_units;

fn key_down(vk: u32, scan: u32) -> RawKeyEvent {
    RawKeyEvent::from_keyboard_hook(0, 0x0100, vk, scan, 0).unwrap()
}

fn running_listener() -> WindowsListener {
    let mut listener = WindowsListener::new();
    assert_eq!(listener.start_mouse_key_listening(), StartAction::Spawn);
    assert_eq!(listener.start_shortcut_listening(), StartAction::Spawn);
    listener
}

#[test]
fn decode_keyboard_hook() {
    let raw = RawKeyEvent::from_keyboard_hook(0, 0x0104, 0x41, 30, 0x10).unwrap();
    assert_eq!(raw.message, MessageKind::SysKeyDown);
    assert_eq!(raw.virtual_key, 0x41);
    assert_eq!(raw.scan_code, 30);
    assert!(raw.injected);
    assert!(RawKeyEvent::from_keyboard_hook(3, 0x0100, 0x41, 30, 0).is_none());
    assert!(!RawKeyEvent::from_keyboard_hook(0, 0x0101, 0x41, 30, 0x01).unwrap().injected);
    assert_eq!(MessageKind::from_message(0x0200), MessageKind::Other);
}

#[test]
fn decode_mouse_hook() {
    let raw = RawKeyEvent::from_mouse_hook(0, 0x0204, 0x01).unwrap();
    assert_eq!(raw.message, MessageKind::RightButtonDown);
    assert!(raw.injected);
    assert!(!RawKeyEvent::from_mouse_hook(0, 0x0208, 0x10).unwrap().injected);
}

#[test]
fn injected_events_are_dropped() {
    let listener = running_listener();
    for message in [0x0100, 0x0104, 0x0101] {
        let raw = RawKeyEvent::from_keyboard_hook(0, message, 0x41, 30, 0x10).unwrap();
        assert!(!needs_translation(&raw));
        assert_eq!(listener.process_mouse_key_event(&raw, Some('a')), None);
    }
    let packet = RawKeyEvent::from_keyboard_hook(0, 0x0100, 0xE7, 0xE9, 0x10).unwrap();
    assert_eq!(classify(&packet, None), None);
    let mouse = RawKeyEvent::from_mouse_hook(0, 0x0201, 0x01).unwrap();
    assert_eq!(listener.process_mouse_key_event(&mouse, None), None);
}

#[test]
fn classification() {
    let listener = running_listener();
    let mouse = RawKeyEvent::from_mouse_hook(0, 0x0202, 0).unwrap();
    assert_eq!(listener.process_mouse_key_event(&mouse, None), Some(MouseKeyEvent::Mouse));
    let a = key_down(0x41, 30);
    assert!(needs_translation(&a));
    assert_eq!(
        listener.process_mouse_key_event(&a, Some('a')),
        Some(MouseKeyEvent::Key { unicode_char: Some('a'), key: Key::A })
    );
    let packet = key_down(0xE7, 0xE9);
    assert!(!needs_translation(&packet));
    assert_eq!(
        listener.process_mouse_key_event(&packet, None),
        Some(MouseKeyEvent::Key { unicode_char: Some('é'), key: Key::Unknown(0xE7) })
    );
    let surrogate = key_down(0xE7, 0xD800);
    assert_eq!(
        classify(&surrogate, Some('x')),
        Some(MouseKeyEvent::Key { unicode_char: None, key: Key::Unknown(0xE7) })
    );
    let up = RawKeyEvent::from_keyboard_hook(0, 0x0101, 0x41, 30, 0).unwrap();
    assert_eq!(listener.process_mouse_key_event(&up, Some('a')), None);
}

#[test]
fn events_after_teardown_are_dropped() {
    let mut listener = WindowsListener::new();
    let a = key_down(0x41, 30);
    assert_eq!(listener.process_mouse_key_event(&a, Some('a')), None);
    listener.start_mouse_key_listening();
    assert!(listener.mouse_key.hook_installed() == false);
    assert!(listener.mouse_key.hook_installed());
    assert!(listener.stop_mouse_key_listening());
    assert!(listener.process_mouse_key_event(&a, Some('a')).is_some());
    assert!(!listener.mouse_key.pump_wake());
    assert_eq!(listener.process_mouse_key_event(&a, Some('a')), None);
}

#[test]
fn translation_outcomes() {
    assert_eq!(TranslationOutcome::from_raw(0, 0x61), TranslationOutcome::NoChar);
    assert_eq!(TranslationOutcome::from_raw(-1, 0x5E), TranslationOutcome::DeadKey);
    assert_eq!(TranslationOutcome::from_raw(1, 0x61), TranslationOutcome::Unit(0x61));
    assert_eq!(TranslationOutcome::from_raw(2, 0x61), TranslationOutcome::Composite);
    assert_eq!(TranslationOutcome::Unit(0xE9).to_char(), Some('é'));
    assert_eq!(TranslationOutcome::Unit(0xDC00).to_char(), None);
    assert_eq!(TranslationOutcome::Composite.to_char(), None);
}

#[test]
fn dead_key_is_drained_then_replayed() {
    let mut session = KeyboardSessionState::new();
    let mut shifted = vec![0u8; 256];
    shifted[0x10] = 0x80;
    let first = session.get_unicode_char(0xDD, 26, shifted.clone(), -1, 0x5E);
    assert_eq!(first.unicode_char, None);
    assert!(first.drain_dead_key);
    assert!(first.replay.is_none());
    assert!(session.last_is_dead);
    assert_eq!(session.last_code, 0xDD);

    let second = session.get_unicode_char(0x45, 18, vec![0u8; 256], 1, 0x65);
    assert_eq!(second.unicode_char, Some('e'));
    assert!(!second.drain_dead_key);
    let replay = second.replay.unwrap();
    assert_eq!(replay.code, 0xDD);
    assert_eq!(replay.scan_code, 26);
    assert_eq!(replay.state, shifted);
    assert!(!session.last_is_dead);
    assert_eq!(session.last_code, 0);
}

#[test]
fn two_dead_keys_in_a_row_leave_no_dead_key() {
    let mut session = KeyboardSessionState::new();
    session.get_unicode_char(0xDD, 26, vec![0u8; 256], -1, 0x5E);
    let second = session.get_unicode_char(0xDD, 26, vec![0u8; 256], -1, 0x5E);
    assert!(second.drain_dead_key);
    assert!(second.replay.is_some());
    assert!(!session.last_is_dead);
    let third = session.get_unicode_char(0x41, 30, vec![0u8; 256], 1, 0x61);
    assert!(third.replay.is_none());
    assert_eq!(third.unicode_char, Some('a'));
    assert_eq!(session.last_code, 0x41);
}

#[test]
fn plain_keys_record_the_last_key() {
    let mut session = KeyboardSessionState::new();
    assert_eq!(session.last_state, vec![0u8; 256]);
    let t = session.get_unicode_char(0x10, 42, vec![1u8; 256], 0, 0);
    assert_eq!(t.unicode_char, None);
    assert!(!t.drain_dead_key);
    assert!(t.replay.is_none());
    assert_eq!(session.last_code, 0x10);
    assert_eq!(session.last_scan_code, 42);
    assert_eq!(session.last_state, vec![1u8; 256]);
    let composite = session.get_unicode_char(0x41, 30, vec![0u8; 256], 2, 0x61);
    assert_eq!(composite.unicode_char, None);
}

#[test]
fn replay_sequences() {
    assert_eq!(
        WindowEngine::replay(&CombinationVerdict::Replace('é')),
        vec![SyntheticInput::Backspace, SyntheticInput::Character('é')]
    );
    assert_eq!(
        WindowEngine::replay(&CombinationVerdict::Combine('â')),
        vec![SyntheticInput::Backspace, SyntheticInput::Backspace, SyntheticInput::Character('â')]
    );
    assert_eq!(
        WindowEngine::replay(&CombinationVerdict::Revert('a', '"')),
        vec![
            SyntheticInput::Backspace,
            SyntheticInput::Backspace,
            SyntheticInput::Character('a'),
            SyntheticInput::Character('"'),
        ]
    );
    assert!(WindowEngine::replay(&CombinationVerdict::NoOp).is_empty());
}

#[test]
fn mouse_and_focus_keys_clear_the_buffer() {
    assert_eq!(WindowEngine::handle_event(&MouseKeyEvent::Mouse), EngineRequest::ClearBuffer);
    for key in [Key::Tab, Key::Return, Key::Escape, Key::LeftArrow, Key::F5] {
        let with_char = MouseKeyEvent::Key { unicode_char: Some('\t'), key };
        let without = MouseKeyEvent::Key { unicode_char: None, key };
        assert_eq!(WindowEngine::handle_event(&with_char), EngineRequest::ClearBuffer);
        assert_eq!(WindowEngine::handle_event(&without), EngineRequest::ClearBuffer);
    }
}

#[test]
fn character_requests() {
    let backspace = MouseKeyEvent::Key { unicode_char: Some('\u{8}'), key: Key::Backspace };
    assert_eq!(WindowEngine::handle_event(&backspace), EngineRequest::Backspace);
    let silent = MouseKeyEvent::Key { unicode_char: None, key: Key::ShiftLeft };
    assert_eq!(WindowEngine::handle_event(&silent), EngineRequest::Ignore);
    let silent_backspace = MouseKeyEvent::Key { unicode_char: None, key: Key::Backspace };
    assert_eq!(WindowEngine::handle_event(&silent_backspace), EngineRequest::Ignore);
    let e = MouseKeyEvent::Key { unicode_char: Some('e'), key: Key::E };
    assert_eq!(WindowEngine::handle_event(&e), EngineRequest::AddChar('e'));
}

#[test]
fn double_quote_typed_twice_with_no_op_verdicts() {
    let listener = running_listener();
    let mut emitted: Vec<SyntheticInput> = Vec::new();
    for _ in 0..2 {
        let raw = key_down(0xDE, 40);
        assert!(needs_translation(&raw));
        let event = listener.process_mouse_key_event(&raw, Some('"')).unwrap();
        assert_eq!(event, MouseKeyEvent::Key { unicode_char: Some('"'), key: Key::Quote });
        let request = WindowEngine::handle_event(&event);
        assert_eq!(request, EngineRequest::AddChar('"'));
        emitted.extend(WindowEngine::replay(&CombinationVerdict::NoOp));
    }
    assert!(emitted.is_empty());
}

#[test]
fn toggle_chord() {
    let listener = running_listener();
    let down: i16 = -128;
    let up: i16 = 0;
    assert!(listener.process_shortcut_event(&key_down(0xA2, 29), down, up));
    assert!(listener.process_shortcut_event(&key_down(0xA3, 29), down, up));
    assert!(listener.process_shortcut_event(&key_down(0xA4, 56), up, down));
    assert!(!listener.process_shortcut_event(&key_down(0xA2, 29), up, down));
    assert!(!listener.process_shortcut_event(&key_down(0xA4, 56), down, up));
    assert!(!listener.process_shortcut_event(&key_down(0x41, 30), down, down));
    let release = RawKeyEvent::from_keyboard_hook(0, 0x0101, 0xA4, 56, 0).unwrap();
    assert!(!listener.process_shortcut_event(&release, down, down));
    let sys = RawKeyEvent::from_keyboard_hook(0, 0x0104, 0xA4, 56, 0).unwrap();
    assert!(listener.process_shortcut_event(&sys, down, down));
    let idle = WindowsListener::new();
    assert!(!idle.process_shortcut_event(&key_down(0xA2, 29), down, down));
}

#[test]
fn lifecycle_start_install_stop() {
    let mut hooks = HookLifecycle::new(2);
    assert_eq!(hooks.phase, HookPhase::Stopped);
    assert!(!hooks.stop());
    assert_eq!(hooks.start(), StartAction::Spawn);
    assert_eq!(hooks.phase, HookPhase::Starting);
    assert!(hooks.is_active());
    assert!(!hooks.hook_installed());
    assert!(hooks.hook_installed());
    assert_eq!(hooks.phase, HookPhase::Running);
    assert_eq!(hooks.start(), StartAction::Rejected);
    assert_eq!(hooks.installed, 2);
    assert!(hooks.pump_wake());
    assert!(hooks.stop());
    assert_eq!(hooks.phase, HookPhase::Stopping);
    let after_first = hooks;
    assert!(!hooks.stop());
    assert_eq!(hooks, after_first);
    assert!(!hooks.pump_wake());
    assert_eq!(hooks.phase, HookPhase::Stopped);
    assert_eq!(hooks.installed, 0);
    assert!(!hooks.sender_attached);
}

#[test]
fn lifecycle_resume_and_failure() {
    let mut hooks = HookLifecycle::new(2);
    hooks.start();
    hooks.hook_installed();
    hooks.hook_installed();
    hooks.stop();
    assert_eq!(hooks.start(), StartAction::Resume);
    assert_eq!(hooks.phase, HookPhase::Running);
    assert!(hooks.pump_wake());

    let mut failing = HookLifecycle::new(2);
    failing.start();
    failing.hook_installed();
    assert_eq!(failing.install_failed(), 1);
    assert_eq!(failing.phase, HookPhase::Stopped);
    assert!(!failing.is_active());

    let mut early_stop = HookLifecycle::new(1);
    early_stop.start();
    early_stop.stop();
    assert!(early_stop.hook_installed());
    assert_eq!(early_stop.phase, HookPhase::Stopping);
    assert!(!early_stop.pump_wake());
}

#[test]
fn controller_switches() {
    let mut app = AppState::new();
    assert!(!stop_engine(&mut app));
    assert!(change_language(&mut app, Language::French));
    assert_eq!(app.language, Language::French);
    assert!(!change_language(&mut app, Language::French));
    assert!(!start_engine(&mut app));
    assert!(!toggle_language(&mut app));
    assert_eq!(app.language, Language::English);
    assert_eq!(app.engine.listener.mouse_key.phase, HookPhase::Starting);
    assert!(!app.engine.listener.mouse_key.run_flag);
    assert!(!stop_engine(&mut app));
    assert!(!toggle_language(&mut app));
    assert_eq!(app.engine.listener.mouse_key.phase, HookPhase::Starting);
    assert!(app.engine.listener.mouse_key.run_flag);
    assert!(app.engine.listener.mouse_key.hook_installed() == false);
    assert!(app.engine.listener.mouse_key.hook_installed());
    assert!(!toggle_language(&mut app));
    assert_eq!(app.engine.listener.mouse_key.phase, HookPhase::Stopping);
    assert!(!app.engine.listener.mouse_key.pump_wake());
    assert!(toggle_language(&mut app));
}

#[test]
fn engine_start_resets_the_session() {
    let mut engine = WindowEngine::new();
    assert_eq!(engine.set_toggle_channel(), StartAction::Spawn);
    assert_eq!(engine.set_toggle_channel(), StartAction::Rejected);
    assert_eq!(engine.start(), StartAction::Spawn);
    engine.listener.session.get_unicode_char(0xDD, 26, vec![0u8; 256], -1, 0x5E);
    assert!(engine.listener.session.last_is_dead);
    engine.listener.mouse_key.hook_installed();
    engine.listener.mouse_key.hook_installed();
    assert!(engine.stop());
    assert!(!engine.stop());
    assert!(!engine.listener.mouse_key.pump_wake());
    assert_eq!(engine.start(), StartAction::Spawn);
    assert!(!engine.listener.session.last_is_dead);
    assert_eq!(engine.listener.session.last_code, 0);
}

#[test]
fn character_and_backspace_inputs() {
    let e = WindowsInputSimulator::character('é');
    assert_eq!(
        e,
        vec![
            KeyboardInput { virtual_key: 0, scan_code: 0xE9, flags: 0x4, extra_info: 1000 },
            KeyboardInput { virtual_key: 0, scan_code: 0xE9, flags: 0x6, extra_info: 1000 },
        ]
    );
    let emoji = WindowsInputSimulator::character('\u{1F600}');
    let scans: Vec<u16> = emoji.iter().map(|i| i.scan_code).collect();
    assert_eq!(scans, vec![0xD83D, 0xD83D, 0xDE00, 0xDE00]);
    let back = WindowsInputSimulator::backspace();
    assert_eq!(
        back,
        vec![
            KeyboardInput { virtual_key: 0x08, scan_code: 0, flags: 0, extra_info: 1000 },
            KeyboardInput { virtual_key: 0x08, scan_code: 0, flags: 0x2, extra_info: 1000 },
        ]
    );
}

#[test]
fn utf16_encoding() {
    assert_eq!(utf16_units('a'), vec![0x61]);
    assert_eq!(utf16_units('\u{FFFF}'), vec![0xFFFF]);
    assert_eq!(utf16_units('\u{10000}'), vec![0xD800, 0xDC00]);
    assert_eq!(utf16_units('\u{10FFFF}'), vec![0xDBFF, 0xDFFF]);
}

#[test]
fn default_session_is_fresh() {
    let session = KeyboardSessionState::default();
    assert_eq!(session.last_code, 0);
    assert_eq!(session.last_scan_code, 0);
    assert_eq!(session.last_state, vec![0u8; 256]);
    assert!(!session.last_is_dead);
}
