use quicklaunch::config::encode_binding;
use quicklaunch::config::load_binding;
use quicklaunch::config::parse_binding;
use quicklaunch::hotkey::HotkeyBinding;
use quicklaunch::hotkey::KeyCode;
use quicklaunch::hotkey::Modifiers;
use quicklaunch::hotkey::default_binding;

fn binding(alt: bool, ctrl: bool, meta: bool, shift: bool, code: KeyCode) -> HotkeyBinding {
    HotkeyBinding { modifiers: Modifiers { alt, ctrl, meta, shift }, code }
}

#[test]
fn encode_default_is_exact_text() {
    let text = encode_binding(&default_binding());
    assert_eq!(text, b"{\"modifiers\":10,\"code\":\"KeyG\"}".to_vec());
}

#[test]
fn encode_single_digit_bitmask() {
    let b = binding(true, true, false, false, KeyCode::Digit7);
    let text = encode_binding(&b);
    assert_eq!(text, b"{\"modifiers\":3,\"code\":\"Digit7\"}".to_vec());
}

#[test]
fn save_then_load_round_trips() {
    let samples = [
        default_binding(),
        binding(false, false, false, false, KeyCode::KeyA),
        binding(true, true, true, true, KeyCode::Digit0),
        binding(true, false, true, false, KeyCode::KeyZ),
        binding(false, true, false, true, KeyCode::Digit9),
        binding(true, false, false, false, KeyCode::KeyQ),
    ];
    for b in samples {
        let text = encode_binding(&b);
        assert_eq!(parse_binding(&text), Some(b));
        assert_eq!(load_binding(Some(&text)), b);
    }
}

#[test]
fn load_missing_file_returns_default() {
    assert_eq!(load_binding(None), default_binding());
}

#[test]
fn load_malformed_returns_default() {
    let cases: Vec<Vec<u8>> = vec![
        b"".to_vec(),
        b"not json at all".to_vec(),
        b"{\"modifiers\":10,\"code\":\"KeyG\"".to_vec(),
        b"{\"modifiers\":99,\"code\":\"KeyG\"}".to_vec(),
        b"{\"modifiers\":16,\"code\":\"KeyG\"}".to_vec(),
        b"{\"modifiers\":10,\"code\":\"NoSuchKey\"}".to_vec(),
        b"{\"modifiers\":10,\"code\":\"Key G\"}".to_vec(),
        b"{\"modifiers\":010,\"code\":\"KeyG\"}".to_vec(),
        b"{\"modifiers\":10;\"code\":\"KeyG\"}".to_vec(),
    ];
    for text in cases {
        assert_eq!(parse_binding(&text), None);
        assert_eq!(load_binding(Some(&text)), default_binding());
    }
}

#[test]
fn load_accepts_the_other_field_order() {
    let text = b"{\"code\":\"KeyG\",\"modifiers\":10}".to_vec();
    assert_eq!(load_binding(Some(&text)), default_binding());
    let b = binding(true, false, true, false, KeyCode::Space);
    let text = b"{\"code\":\"Space\",\"modifiers\":5}".to_vec();
    assert_eq!(load_binding(Some(&text)), b);
}

#[test]
fn load_ignores_insignificant_whitespace() {
    let text = b"{ \"modifiers\": 10, \"code\": \"KeyG\" }".to_vec();
    assert_eq!(load_binding(Some(&text)), default_binding());
    let text = b"  {\n\t\"code\" : \"F5\" ,\n\t\"modifiers\" : 3\n}  ".to_vec();
    assert_eq!(load_binding(Some(&text)), binding(true, true, false, false, KeyCode::F5));
    // whitespace inside the quoted name is significant, and no key name has any
    let text = b"{\"modifiers\":10,\"code\":\"Ke yG\"}".to_vec();
    assert_eq!(load_binding(Some(&text)), default_binding());
}

#[test]
fn load_valid_returns_saved_not_default() {
    let b = binding(false, false, true, true, KeyCode::KeyM);
    let text = encode_binding(&b);
    let loaded = load_binding(Some(&text));
    assert_eq!(loaded, b);
    assert_ne!(loaded, default_binding());
}
