use quicklaunch::hotkey::KeyCode;
use quicklaunch::hotkey::MOD_ALT;
use quicklaunch::hotkey::MOD_CONTROL;
use quicklaunch::hotkey::MOD_META;
use quicklaunch::hotkey::MOD_SHIFT;
use quicklaunch::hotkey::Modifiers;
use quicklaunch::hotkey::default_binding;

#[test]
fn modifier_bit_values() {
    assert_eq!(MOD_ALT, 1);
    assert_eq!(MOD_CONTROL, 2);
    assert_eq!(MOD_META, 4);
    assert_eq!(MOD_SHIFT, 8);
    let m = Modifiers { alt: false, ctrl: true, meta: false, shift: true };
    assert_eq!(m.to_bits(), MOD_CONTROL | MOD_SHIFT);
}

#[test]
fn modifier_bits_round_trip_all_masks() {
    for bits in 0u32..16 {
        let m = Modifiers::from_bits(bits).expect("recognized mask");
        assert_eq!(m.to_bits(), bits);
    }
}

#[test]
fn modifier_bits_reject_unknown_bits() {
    assert_eq!(Modifiers::from_bits(16), None);
    assert_eq!(Modifiers::from_bits(0x20), None);
    assert_eq!(Modifiers::from_bits(u32::MAX), None);
}

#[test]
fn key_name_round_trip_all_codes() {
    for i in 0..quicklaunch::hotkey::KEY_CODE_COUNT {
        let code = KeyCode::from_index(i);
        assert_eq!(code.to_index(), i);
        let name = code.name_bytes();
        assert_eq!(KeyCode::parse_name(&name), Some(code));
    }
}

#[test]
fn key_names_spell_as_the_ui_does() {
    assert_eq!(KeyCode::KeyG.name_bytes(), b"KeyG".to_vec());
    assert_eq!(KeyCode::Digit0.name_bytes(), b"Digit0".to_vec());
    assert_eq!(KeyCode::F12.name_bytes(), b"F12".to_vec());
    assert_eq!(KeyCode::Numpad7.name_bytes(), b"Numpad7".to_vec());
    assert_eq!(KeyCode::ArrowUp.name_bytes(), b"ArrowUp".to_vec());
    assert_eq!(KeyCode::NumpadSubtract.name_bytes(), b"NumpadSubtract".to_vec());
}

#[test]
fn parse_name_recognizes_the_whole_vocabulary() {
    let cases: [(&[u8], KeyCode); 10] = [
        (b"F1", KeyCode::F1),
        (b"F12", KeyCode::F12),
        (b"Space", KeyCode::Space),
        (b"Escape", KeyCode::Escape),
        (b"ArrowLeft", KeyCode::ArrowLeft),
        (b"Numpad0", KeyCode::Numpad0),
        (b"NumpadAdd", KeyCode::NumpadAdd),
        (b"Backquote", KeyCode::Backquote),
        (b"IntlBackslash", KeyCode::IntlBackslash),
        (b"PageDown", KeyCode::PageDown),
    ];
    for (name, code) in cases {
        assert_eq!(KeyCode::parse_name(name), Some(code));
    }
}

#[test]
fn parse_name_rejects_unknown_names() {
    let cases: [&[u8]; 10] = [
        b"",
        b"Key",
        b"Keya",
        b"KeyAA",
        b"Digit",
        b"DigitX",
        b"F0",
        b"F13",
        b"Numpad",
        b"ArrowSideways",
    ];
    for name in cases {
        assert_eq!(KeyCode::parse_name(name), None);
    }
}

#[test]
fn default_binding_is_ctrl_shift_g() {
    let b = default_binding();
    assert!(!b.modifiers.alt);
    assert!(b.modifiers.ctrl);
    assert!(!b.modifiers.meta);
    assert!(b.modifiers.shift);
    assert_eq!(b.code, KeyCode::KeyG);
}
