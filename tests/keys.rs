use clavfrancais_windows::keys::{Key, KeyConverter};

#[test]
fn test_reversible() {
    for code in 0..65535 {
        let key = Key::from_virtual_key_code(code);
        if let Some(code2) = key.to_virtual_key_code() {
            assert_eq!(code, code2)
        } else {
            panic!("We could not convert back code: {:?}", code);
        }
    }
}

#[test]
fn named_keys_match_their_codes() {
    assert_eq!(Key::from_virtual_key_code(0x41), Key::A);
    assert_eq!(Key::from_virtual_key_code(0x08), Key::Backspace);
    assert_eq!(Key::from_virtual_key_code(0xA2), Key::ControlLeft);
    assert_eq!(Key::from_virtual_key_code(0xA4), Key::Alt);
    assert_eq!(Key::Return.to_virtual_key_code(), Some(0x0D));
    assert_eq!(Key::NumpadDecimal.to_virtual_key_code(), Some(0x6E));
}

#[test]
fn unnamed_codes_keep_their_value() {
    assert_eq!(Key::from_virtual_key_code(0xE7), Key::Unknown(0xE7));
    assert_eq!(Key::from_virtual_key_code(u32::MAX), Key::Unknown(u32::MAX));
    assert_eq!(Key::Unknown(u32::MAX).to_virtual_key_code(), Some(u32::MAX));
}

#[test]
fn focus_keys() {
    for key in [Key::Tab, Key::Return, Key::Escape, Key::UpArrow, Key::DownArrow, Key::LeftArrow, Key::RightArrow, Key::F1, Key::F12, Key::Home, Key::End, Key::PageUp, Key::PageDown] {
        assert!(key.changes_focus(), "{:?}", key);
    }
    for key in [Key::A, Key::Quote, Key::Backspace, Key::Space, Key::ShiftLeft, Key::Unknown(0x09)] {
        assert!(!key.changes_focus(), "{:?}", key);
    }
}
