//! The hotkey binding: a set of modifier keys plus one symbolic key code.
//!
//! A binding is what the launcher registers with the operating system and
//! what the config store persists.  The popup UI hands modifiers over as a
//! bitmask and the key as its textual name, so both carry a validated codec.

use vstd::prelude::*;

verus! {

/// Bit assigned to the Alt modifier in the command-surface bitmask.
pub const MOD_ALT: u32 = 1;

/// Bit assigned to the Control modifier in the command-surface bitmask.
pub const MOD_CONTROL: u32 = 2;

/// Bit assigned to the Meta (Super/Windows) modifier in the command-surface bitmask.
pub const MOD_META: u32 = 4;

/// Bit assigned to the Shift modifier in the command-surface bitmask.
pub const MOD_SHIFT: u32 = 8;

/// The set of modifier keys a hotkey binding may require.
#[derive(Clone, Copy, Debug, PartialEq, Eq, Structural)]
pub struct Modifiers {
    pub alt: bool,
    pub ctrl: bool,
    pub meta: bool,
    pub shift: bool,
}

/// The bitmask form of a modifier set, as exchanged with the popup UI.
pub open spec fn spec_modifier_bits(m: Modifiers) -> u32 {
    ((if m.alt {
        1u32
    } else {
        0u32
    }) + (if m.ctrl {
        2u32
    } else {
        0u32
    }) + (if m.meta {
        4u32
    } else {
        0u32
    }) + (if m.shift {
        8u32
    } else {
        0u32
    })) as u32
}

impl Modifiers {
    /// Packs the set into the command-surface bitmask.
    pub fn to_bits(&self) -> (r: u32)
        ensures
            r == spec_modifier_bits(*self),
    {
        let a: u32 = if self.alt {
            1
        } else {
            0
        };
        let c: u32 = if self.ctrl {
            2
        } else {
            0
        };
        let m: u32 = if self.meta {
            4
        } else {
            0
        };
        let s: u32 = if self.shift {
            8
        } else {
            0
        };
        a + c + m + s
    }

    /// Decodes the command-surface bitmask.  Exactly the masks made of the
    /// four recognized bits are accepted; any other bit set yields `None`.
    pub fn from_bits(bits: u32) -> (r: Option<Modifiers>)
        ensures
            bits >= 16 ==> r is None,
            bits < 16 ==> (r matches Some(m) && spec_modifier_bits(m) == bits),
    {
        if bits >= 16 {
            None
        } else {
            let alt: bool = bits % 2 == 1;
            let r1: u32 = bits / 2;
            let ctrl: bool = r1 % 2 == 1;
            let r2: u32 = r1 / 2;
            let meta: bool = r2 % 2 == 1;
            let r3: u32 = r2 / 2;
            let shift: bool = r3 == 1;
            let m = Modifiers { alt, ctrl, meta, shift };
            proof {
                assert(bits == 2 * r1 + bits % 2);
                assert(r1 == 2 * r2 + r1 % 2);
                assert(r2 == 2 * r3 + r2 % 2);
                assert(r3 <= 1);
            }
            Some(m)
        }
    }
}

/// Decoding a packed modifier set gives back the same set.
pub proof fn lemma_modifier_bits_round_trip(m: Modifiers)
    ensures
        spec_modifier_bits(m) < 16,
        (Modifiers {
            alt: spec_modifier_bits(m) % 2 == 1,
            ctrl: (spec_modifier_bits(m) / 2) % 2 == 1,
            meta: (spec_modifier_bits(m) / 4) % 2 == 1,
            shift: (spec_modifier_bits(m) / 8) % 2 == 1,
        } == m),
{
}

/// The key codes the launcher recognizes: the W3C `code` names the popup
/// UI and the OS hotkey surface use — letters, digits, function keys, the
/// numeric keypad, arrows, and the common editing, navigation and
/// punctuation keys.
#[derive(Clone, Copy, Debug, PartialEq, Eq, Structural)]
pub enum KeyCode {
    // the letter keys
    KeyA,
    KeyB,
    KeyC,
    KeyD,
    KeyE,
    KeyF,
    KeyG,
    KeyH,
    KeyI,
    KeyJ,
    KeyK,
    KeyL,
    KeyM,
    KeyN,
    KeyO,
    KeyP,
    KeyQ,
    KeyR,
    KeyS,
    KeyT,
    KeyU,
    KeyV,
    KeyW,
    KeyX,
    KeyY,
    KeyZ,
    // the digit row
    Digit0,
    Digit1,
    Digit2,
    Digit3,
    Digit4,
    Digit5,
    Digit6,
    Digit7,
    Digit8,
    Digit9,
    // the function keys
    F1,
    F2,
    F3,
    F4,
    F5,
    F6,
    F7,
    F8,
    F9,
    F10,
    F11,
    F12,
    // the numeric keypad digits
    Numpad0,
    Numpad1,
    Numpad2,
    Numpad3,
    Numpad4,
    Numpad5,
    Numpad6,
    Numpad7,
    Numpad8,
    Numpad9,
    // the arrow keys
    ArrowUp,
    ArrowDown,
    ArrowLeft,
    ArrowRight,
    // whitespace, editing and navigation keys, punctuation, and the keypad operators
    Space,
    Escape,
    Enter,
    Tab,
    Backspace,
    Delete,
    Insert,
    Home,
    End,
    PageUp,
    PageDown,
    CapsLock,
    Minus,
    Equal,
    BracketLeft,
    BracketRight,
    Backslash,
    Semicolon,
    Quote,
    Backquote,
    Comma,
    Period,
    Slash,
    IntlBackslash,
    NumpadAdd,
    NumpadSubtract,
    NumpadMultiply,
    NumpadDivide,
    NumpadDecimal,
    NumpadEnter,
}

/// How many key codes the recognized set holds.
pub const KEY_CODE_COUNT: u8 = 92;

/// Position of a key code in the recognized set.
pub open spec fn spec_key_index(k: KeyCode) -> int {
    match k {
        KeyCode::KeyA => 0,
        KeyCode::KeyB => 1,
        KeyCode::KeyC => 2,
        KeyCode::KeyD => 3,
        KeyCode::KeyE => 4,
        KeyCode::KeyF => 5,
        KeyCode::KeyG => 6,
        KeyCode::KeyH => 7,
        KeyCode::KeyI => 8,
        KeyCode::KeyJ => 9,
        KeyCode::KeyK => 10,
        KeyCode::KeyL => 11,
        KeyCode::KeyM => 12,
        KeyCode::KeyN => 13,
        KeyCode::KeyO => 14,
        KeyCode::KeyP => 15,
        KeyCode::KeyQ => 16,
        KeyCode::KeyR => 17,
        KeyCode::KeyS => 18,
        KeyCode::KeyT => 19,
        KeyCode::KeyU => 20,
        KeyCode::KeyV => 21,
        KeyCode::KeyW => 22,
        KeyCode::KeyX => 23,
        KeyCode::KeyY => 24,
        KeyCode::KeyZ => 25,
        KeyCode::Digit0 => 26,
        KeyCode::Digit1 => 27,
        KeyCode::Digit2 => 28,
        KeyCode::Digit3 => 29,
        KeyCode::Digit4 => 30,
        KeyCode::Digit5 => 31,
        KeyCode::Digit6 => 32,
        KeyCode::Digit7 => 33,
        KeyCode::Digit8 => 34,
        KeyCode::Digit9 => 35,
        KeyCode::F1 => 36,
        KeyCode::F2 => 37,
        KeyCode::F3 => 38,
        KeyCode::F4 => 39,
        KeyCode::F5 => 40,
        KeyCode::F6 => 41,
        KeyCode::F7 => 42,
        KeyCode::F8 => 43,
        KeyCode::F9 => 44,
        KeyCode::F10 => 45,
        KeyCode::F11 => 46,
        KeyCode::F12 => 47,
        KeyCode::Numpad0 => 48,
        KeyCode::Numpad1 => 49,
        KeyCode::Numpad2 => 50,
        KeyCode::Numpad3 => 51,
        KeyCode::Numpad4 => 52,
        KeyCode::Numpad5 => 53,
        KeyCode::Numpad6 => 54,
        KeyCode::Numpad7 => 55,
        KeyCode::Numpad8 => 56,
        KeyCode::Numpad9 => 57,
        KeyCode::ArrowUp => 58,
        KeyCode::ArrowDown => 59,
        KeyCode::ArrowLeft => 60,
        KeyCode::ArrowRight => 61,
        KeyCode::Space => 62,
        KeyCode::Escape => 63,
        KeyCode::Enter => 64,
        KeyCode::Tab => 65,
        KeyCode::Backspace => 66,
        KeyCode::Delete => 67,
        KeyCode::Insert => 68,
        KeyCode::Home => 69,
        KeyCode::End => 70,
        KeyCode::PageUp => 71,
        KeyCode::PageDown => 72,
        KeyCode::CapsLock => 73,
        KeyCode::Minus => 74,
        KeyCode::Equal => 75,
        KeyCode::BracketLeft => 76,
        KeyCode::BracketRight => 77,
        KeyCode::Backslash => 78,
        KeyCode::Semicolon => 79,
        KeyCode::Quote => 80,
        KeyCode::Backquote => 81,
        KeyCode::Comma => 82,
        KeyCode::Period => 83,
        KeyCode::Slash => 84,
        KeyCode::IntlBackslash => 85,
        KeyCode::NumpadAdd => 86,
        KeyCode::NumpadSubtract => 87,
        KeyCode::NumpadMultiply => 88,
        KeyCode::NumpadDivide => 89,
        KeyCode::NumpadDecimal => 90,
        KeyCode::NumpadEnter => 91,
    }
}

/// The key code standing at a given position of the recognized set.
pub open spec fn spec_key_at(i: int) -> KeyCode {
    if i == 0 {
        KeyCode::KeyA
    } else if i == 1 {
        KeyCode::KeyB
    } else if i == 2 {
        KeyCode::KeyC
    } else if i == 3 {
        KeyCode::KeyD
    } else if i == 4 {
        KeyCode::KeyE
    } else if i == 5 {
        KeyCode::KeyF
    } else if i == 6 {
        KeyCode::KeyG
    } else if i == 7 {
        KeyCode::KeyH
    } else if i == 8 {
        KeyCode::KeyI
    } else if i == 9 {
        KeyCode::KeyJ
    } else if i == 10 {
        KeyCode::KeyK
    } else if i == 11 {
        KeyCode::KeyL
    } else if i == 12 {
        KeyCode::KeyM
    } else if i == 13 {
        KeyCode::KeyN
    } else if i == 14 {
        KeyCode::KeyO
    } else if i == 15 {
        KeyCode::KeyP
    } else if i == 16 {
        KeyCode::KeyQ
    } else if i == 17 {
        KeyCode::KeyR
    } else if i == 18 {
        KeyCode::KeyS
    } else if i == 19 {
        KeyCode::KeyT
    } else if i == 20 {
        KeyCode::KeyU
    } else if i == 21 {
        KeyCode::KeyV
    } else if i == 22 {
        KeyCode::KeyW
    } else if i == 23 {
        KeyCode::KeyX
    } else if i == 24 {
        KeyCode::KeyY
    } else if i == 25 {
        KeyCode::KeyZ
    } else if i == 26 {
        KeyCode::Digit0
    } else if i == 27 {
        KeyCode::Digit1
    } else if i == 28 {
        KeyCode::Digit2
    } else if i == 29 {
        KeyCode::Digit3
    } else if i == 30 {
        KeyCode::Digit4
    } else if i == 31 {
        KeyCode::Digit5
    } else if i == 32 {
        KeyCode::Digit6
    } else if i == 33 {
        KeyCode::Digit7
    } else if i == 34 {
        KeyCode::Digit8
    } else if i == 35 {
        KeyCode::Digit9
    } else if i == 36 {
        KeyCode::F1
    } else if i == 37 {
        KeyCode::F2
    } else if i == 38 {
        KeyCode::F3
    } else if i == 39 {
        KeyCode::F4
    } else if i == 40 {
        KeyCode::F5
    } else if i == 41 {
        KeyCode::F6
    } else if i == 42 {
        KeyCode::F7
    } else if i == 43 {
        KeyCode::F8
    } else if i == 44 {
        KeyCode::F9
    } else if i == 45 {
        KeyCode::F10
    } else if i == 46 {
        KeyCode::F11
    } else if i == 47 {
        KeyCode::F12
    } else if i == 48 {
        KeyCode::Numpad0
    } else if i == 49 {
        KeyCode::Numpad1
    } else if i == 50 {
        KeyCode::Numpad2
    } else if i == 51 {
        KeyCode::Numpad3
    } else if i == 52 {
        KeyCode::Numpad4
    } else if i == 53 {
        KeyCode::Numpad5
    } else if i == 54 {
        KeyCode::Numpad6
    } else if i == 55 {
        KeyCode::Numpad7
    } else if i == 56 {
        KeyCode::Numpad8
    } else if i == 57 {
        KeyCode::Numpad9
    } else if i == 58 {
        KeyCode::ArrowUp
    } else if i == 59 {
        KeyCode::ArrowDown
    } else if i == 60 {
        KeyCode::ArrowLeft
    } else if i == 61 {
        KeyCode::ArrowRight
    } else if i == 62 {
        KeyCode::Space
    } else if i == 63 {
        KeyCode::Escape
    } else if i == 64 {
        KeyCode::Enter
    } else if i == 65 {
        KeyCode::Tab
    } else if i == 66 {
        KeyCode::Backspace
    } else if i == 67 {
        KeyCode::Delete
    } else if i == 68 {
        KeyCode::Insert
    } else if i == 69 {
        KeyCode::Home
    } else if i == 70 {
        KeyCode::End
    } else if i == 71 {
        KeyCode::PageUp
    } else if i == 72 {
        KeyCode::PageDown
    } else if i == 73 {
        KeyCode::CapsLock
    } else if i == 74 {
        KeyCode::Minus
    } else if i == 75 {
        KeyCode::Equal
    } else if i == 76 {
        KeyCode::BracketLeft
    } else if i == 77 {
        KeyCode::BracketRight
    } else if i == 78 {
        KeyCode::Backslash
    } else if i == 79 {
        KeyCode::Semicolon
    } else if i == 80 {
        KeyCode::Quote
    } else if i == 81 {
        KeyCode::Backquote
    } else if i == 82 {
        KeyCode::Comma
    } else if i == 83 {
        KeyCode::Period
    } else if i == 84 {
        KeyCode::Slash
    } else if i == 85 {
        KeyCode::IntlBackslash
    } else if i == 86 {
        KeyCode::NumpadAdd
    } else if i == 87 {
        KeyCode::NumpadSubtract
    } else if i == 88 {
        KeyCode::NumpadMultiply
    } else if i == 89 {
        KeyCode::NumpadDivide
    } else if i == 90 {
        KeyCode::NumpadDecimal
    } else {
        KeyCode::NumpadEnter
    }
}

/// The recognized set has 92 keys.
pub proof fn lemma_key_index_bounds(k: KeyCode)
    ensures
        0 <= spec_key_index(k) < 92,
{
}

/// Index and position are inverse to each other.
pub proof fn lemma_key_at_index(k: KeyCode)
    ensures
        spec_key_at(spec_key_index(k)) == k,
{
}

/// The textual name of a key code, as the popup UI and the config file
/// spell it.
pub open spec fn spec_key_name(k: KeyCode) -> Seq<u8> {
    match k {
        KeyCode::KeyA => seq![75u8, 101u8, 121u8, 65u8],
        KeyCode::KeyB => seq![75u8, 101u8, 121u8, 66u8],
        KeyCode::KeyC => seq![75u8, 101u8, 121u8, 67u8],
        KeyCode::KeyD => seq![75u8, 101u8, 121u8, 68u8],
        KeyCode::KeyE => seq![75u8, 101u8, 121u8, 69u8],
        KeyCode::KeyF => seq![75u8, 101u8, 121u8, 70u8],
        KeyCode::KeyG => seq![75u8, 101u8, 121u8, 71u8],
        KeyCode::KeyH => seq![75u8, 101u8, 121u8, 72u8],
        KeyCode::KeyI => seq![75u8, 101u8, 121u8, 73u8],
        KeyCode::KeyJ => seq![75u8, 101u8, 121u8, 74u8],
        KeyCode::KeyK => seq![75u8, 101u8, 121u8, 75u8],
        KeyCode::KeyL => seq![75u8, 101u8, 121u8, 76u8],
        KeyCode::KeyM => seq![75u8, 101u8, 121u8, 77u8],
        KeyCode::KeyN => seq![75u8, 101u8, 121u8, 78u8],
        KeyCode::KeyO => seq![75u8, 101u8, 121u8, 79u8],
        KeyCode::KeyP => seq![75u8, 101u8, 121u8, 80u8],
        KeyCode::KeyQ => seq![75u8, 101u8, 121u8, 81u8],
        KeyCode::KeyR => seq![75u8, 101u8, 121u8, 82u8],
        KeyCode::KeyS => seq![75u8, 101u8, 121u8, 83u8],
        KeyCode::KeyT => seq![75u8, 101u8, 121u8, 84u8],
        KeyCode::KeyU => seq![75u8, 101u8, 121u8, 85u8],
        KeyCode::KeyV => seq![75u8, 101u8, 121u8, 86u8],
        KeyCode::KeyW => seq![75u8, 101u8, 121u8, 87u8],
        KeyCode::KeyX => seq![75u8, 101u8, 121u8, 88u8],
        KeyCode::KeyY => seq![75u8, 101u8, 121u8, 89u8],
        KeyCode::KeyZ => seq![75u8, 101u8, 121u8, 90u8],
        KeyCode::Digit0 => seq![68u8, 105u8, 103u8, 105u8, 116u8, 48u8],
        KeyCode::Digit1 => seq![68u8, 105u8, 103u8, 105u8, 116u8, 49u8],
        KeyCode::Digit2 => seq![68u8, 105u8, 103u8, 105u8, 116u8, 50u8],
        KeyCode::Digit3 => seq![68u8, 105u8, 103u8, 105u8, 116u8, 51u8],
        KeyCode::Digit4 => seq![68u8, 105u8, 103u8, 105u8, 116u8, 52u8],
        KeyCode::Digit5 => seq![68u8, 105u8, 103u8, 105u8, 116u8, 53u8],
        KeyCode::Digit6 => seq![68u8, 105u8, 103u8, 105u8, 116u8, 54u8],
        KeyCode::Digit7 => seq![68u8, 105u8, 103u8, 105u8, 116u8, 55u8],
        KeyCode::Digit8 => seq![68u8, 105u8, 103u8, 105u8, 116u8, 56u8],
        KeyCode::Digit9 => seq![68u8, 105u8, 103u8, 105u8, 116u8, 57u8],
        KeyCode::F1 => seq![70u8, 49u8],
        KeyCode::F2 => seq![70u8, 50u8],
        KeyCode::F3 => seq![70u8, 51u8],
        KeyCode::F4 => seq![70u8, 52u8],
        KeyCode::F5 => seq![70u8, 53u8],
        KeyCode::F6 => seq![70u8, 54u8],
        KeyCode::F7 => seq![70u8, 55u8],
        KeyCode::F8 => seq![70u8, 56u8],
        KeyCode::F9 => seq![70u8, 57u8],
        KeyCode::F10 => seq![70u8, 49u8, 48u8],
        KeyCode::F11 => seq![70u8, 49u8, 49u8],
        KeyCode::F12 => seq![70u8, 49u8, 50u8],
        KeyCode::Numpad0 => seq![78u8, 117u8, 109u8, 112u8, 97u8, 100u8, 48u8],
        KeyCode::Numpad1 => seq![78u8, 117u8, 109u8, 112u8, 97u8, 100u8, 49u8],
        KeyCode::Numpad2 => seq![78u8, 117u8, 109u8, 112u8, 97u8, 100u8, 50u8],
        KeyCode::Numpad3 => seq![78u8, 117u8, 109u8, 112u8, 97u8, 100u8, 51u8],
        KeyCode::Numpad4 => seq![78u8, 117u8, 109u8, 112u8, 97u8, 100u8, 52u8],
        KeyCode::Numpad5 => seq![78u8, 117u8, 109u8, 112u8, 97u8, 100u8, 53u8],
        KeyCode::Numpad6 => seq![78u8, 117u8, 109u8, 112u8, 97u8, 100u8, 54u8],
        KeyCode::Numpad7 => seq![78u8, 117u8, 109u8, 112u8, 97u8, 100u8, 55u8],
        KeyCode::Numpad8 => seq![78u8, 117u8, 109u8, 112u8, 97u8, 100u8, 56u8],
        KeyCode::Numpad9 => seq![78u8, 117u8, 109u8, 112u8, 97u8, 100u8, 57u8],
        KeyCode::ArrowUp => seq![65u8, 114u8, 114u8, 111u8, 119u8, 85u8, 112u8],
        KeyCode::ArrowDown => seq![65u8, 114u8, 114u8, 111u8, 119u8, 68u8, 111u8, 119u8, 110u8],
        KeyCode::ArrowLeft => seq![65u8, 114u8, 114u8, 111u8, 119u8, 76u8, 101u8, 102u8, 116u8],
        KeyCode::ArrowRight => seq![65u8, 114u8, 114u8, 111u8, 119u8, 82u8, 105u8, 103u8, 104u8, 116u8],
        KeyCode::Space => seq![83u8, 112u8, 97u8, 99u8, 101u8],
        KeyCode::Escape => seq![69u8, 115u8, 99u8, 97u8, 112u8, 101u8],
        KeyCode::Enter => seq![69u8, 110u8, 116u8, 101u8, 114u8],
        KeyCode::Tab => seq![84u8, 97u8, 98u8],
        KeyCode::Backspace => seq![66u8, 97u8, 99u8, 107u8, 115u8, 112u8, 97u8, 99u8, 101u8],
        KeyCode::Delete => seq![68u8, 101u8, 108u8, 101u8, 116u8, 101u8],
        KeyCode::Insert => seq![73u8, 110u8, 115u8, 101u8, 114u8, 116u8],
        KeyCode::Home => seq![72u8, 111u8, 109u8, 101u8],
        KeyCode::End => seq![69u8, 110u8, 100u8],
        KeyCode::PageUp => seq![80u8, 97u8, 103u8, 101u8, 85u8, 112u8],
        KeyCode::PageDown => seq![80u8, 97u8, 103u8, 101u8, 68u8, 111u8, 119u8, 110u8],
        KeyCode::CapsLock => seq![67u8, 97u8, 112u8, 115u8, 76u8, 111u8, 99u8, 107u8],
        KeyCode::Minus => seq![77u8, 105u8, 110u8, 117u8, 115u8],
        KeyCode::Equal => seq![69u8, 113u8, 117u8, 97u8, 108u8],
        KeyCode::BracketLeft => seq![66u8, 114u8, 97u8, 99u8, 107u8, 101u8, 116u8, 76u8, 101u8, 102u8, 116u8],
        KeyCode::BracketRight => seq![66u8, 114u8, 97u8, 99u8, 107u8, 101u8, 116u8, 82u8, 105u8, 103u8, 104u8, 116u8],
        KeyCode::Backslash => seq![66u8, 97u8, 99u8, 107u8, 115u8, 108u8, 97u8, 115u8, 104u8],
        KeyCode::Semicolon => seq![83u8, 101u8, 109u8, 105u8, 99u8, 111u8, 108u8, 111u8, 110u8],
        KeyCode::Quote => seq![81u8, 117u8, 111u8, 116u8, 101u8],
        KeyCode::Backquote => seq![66u8, 97u8, 99u8, 107u8, 113u8, 117u8, 111u8, 116u8, 101u8],
        KeyCode::Comma => seq![67u8, 111u8, 109u8, 109u8, 97u8],
        KeyCode::Period => seq![80u8, 101u8, 114u8, 105u8, 111u8, 100u8],
        KeyCode::Slash => seq![83u8, 108u8, 97u8, 115u8, 104u8],
        KeyCode::IntlBackslash => seq![73u8, 110u8, 116u8, 108u8, 66u8, 97u8, 99u8, 107u8, 115u8, 108u8, 97u8, 115u8, 104u8],
        KeyCode::NumpadAdd => seq![78u8, 117u8, 109u8, 112u8, 97u8, 100u8, 65u8, 100u8, 100u8],
        KeyCode::NumpadSubtract => seq![78u8, 117u8, 109u8, 112u8, 97u8, 100u8, 83u8, 117u8, 98u8, 116u8, 114u8, 97u8, 99u8, 116u8],
        KeyCode::NumpadMultiply => seq![78u8, 117u8, 109u8, 112u8, 97u8, 100u8, 77u8, 117u8, 108u8, 116u8, 105u8, 112u8, 108u8, 121u8],
        KeyCode::NumpadDivide => seq![78u8, 117u8, 109u8, 112u8, 97u8, 100u8, 68u8, 105u8, 118u8, 105u8, 100u8, 101u8],
        KeyCode::NumpadDecimal => seq![78u8, 117u8, 109u8, 112u8, 97u8, 100u8, 68u8, 101u8, 99u8, 105u8, 109u8, 97u8, 108u8],
        KeyCode::NumpadEnter => seq![78u8, 117u8, 109u8, 112u8, 97u8, 100u8, 69u8, 110u8, 116u8, 101u8, 114u8],
    }
}

/// A fingerprint of a key name — its length and three sampled bytes,
/// packed into one integer — distinct for every recognized key.
pub open spec fn spec_key_sig(k: KeyCode) -> int {
    match k {
        KeyCode::KeyA => 72055105,
        KeyCode::KeyB => 72055106,
        KeyCode::KeyC => 72055107,
        KeyCode::KeyD => 72055108,
        KeyCode::KeyE => 72055109,
        KeyCode::KeyF => 72055110,
        KeyCode::KeyG => 72055111,
        KeyCode::KeyH => 72055112,
        KeyCode::KeyI => 72055113,
        KeyCode::KeyJ => 72055114,
        KeyCode::KeyK => 72055115,
        KeyCode::KeyL => 72055116,
        KeyCode::KeyM => 72055117,
        KeyCode::KeyN => 72055118,
        KeyCode::KeyO => 72055119,
        KeyCode::KeyP => 72055120,
        KeyCode::KeyQ => 72055121,
        KeyCode::KeyR => 72055122,
        KeyCode::KeyS => 72055123,
        KeyCode::KeyT => 72055124,
        KeyCode::KeyU => 72055125,
        KeyCode::KeyV => 72055126,
        KeyCode::KeyW => 72055127,
        KeyCode::KeyX => 72055128,
        KeyCode::KeyY => 72055129,
        KeyCode::KeyZ => 72055130,
        KeyCode::Digit0 => 105146672,
        KeyCode::Digit1 => 105146673,
        KeyCode::Digit2 => 105146674,
        KeyCode::Digit3 => 105146675,
        KeyCode::Digit4 => 105146676,
        KeyCode::Digit5 => 105146677,
        KeyCode::Digit6 => 105146678,
        KeyCode::Digit7 => 105146679,
        KeyCode::Digit8 => 105146680,
        KeyCode::Digit9 => 105146681,
        KeyCode::F1 => 38154545,
        KeyCode::F2 => 38154802,
        KeyCode::F3 => 38155059,
        KeyCode::F4 => 38155316,
        KeyCode::F5 => 38155573,
        KeyCode::F6 => 38155830,
        KeyCode::F7 => 38156087,
        KeyCode::F8 => 38156344,
        KeyCode::F9 => 38156601,
        KeyCode::F10 => 54931760,
        KeyCode::F11 => 54931761,
        KeyCode::F12 => 54931762,
        KeyCode::Numpad0 => 122581040,
        KeyCode::Numpad1 => 122581041,
        KeyCode::Numpad2 => 122581042,
        KeyCode::Numpad3 => 122581043,
        KeyCode::Numpad4 => 122581044,
        KeyCode::Numpad5 => 122581045,
        KeyCode::Numpad6 => 122581046,
        KeyCode::Numpad7 => 122581047,
        KeyCode::Numpad8 => 122581048,
        KeyCode::Numpad9 => 122581049,
        KeyCode::ArrowUp => 121728880,
        KeyCode::ArrowDown => 155285358,
        KeyCode::ArrowLeft => 155285364,
        KeyCode::ArrowRight => 172053108,
        KeyCode::Space => 89350501,
        KeyCode::Escape => 105210213,
        KeyCode::Enter => 88437874,
        KeyCode::Tab => 55861602,
        KeyCode::Backspace => 155349861,
        KeyCode::Delete => 105145701,
        KeyCode::Insert => 105473396,
        KeyCode::Home => 71855461,
        KeyCode::End => 54881892,
        KeyCode::PageUp => 105932144,
        KeyCode::PageDown => 139478126,
        KeyCode::CapsLock => 138628203,
        KeyCode::Minus => 88960627,
        KeyCode::Equal => 88438124,
        KeyCode::BracketLeft => 188900724,
        KeyCode::BracketRight => 205681780,
        KeyCode::Backslash => 155349864,
        KeyCode::Semicolon => 156459886,
        KeyCode::Quote => 89223013,
        KeyCode::Backquote => 155349349,
        KeyCode::Comma => 88304993,
        KeyCode::Period => 105933156,
        KeyCode::Slash => 89350504,
        KeyCode::IntlBackslash => 222913384,
        KeyCode::NumpadAdd => 156131684,
        KeyCode::NumpadSubtract => 240022900,
        KeyCode::NumpadMultiply => 240022905,
        KeyCode::NumpadDivide => 206455909,
        KeyCode::NumpadDecimal => 223233132,
        KeyCode::NumpadEnter => 189686898,
    }
}

/// Every key name is 2 to 14 bytes of ASCII letters and digits: no
/// whitespace and none of the config text's own punctuation.
#[verifier::spinoff_prover]
#[verifier::rlimit(100)]
pub proof fn lemma_key_name_shape(k: KeyCode)
    ensures
        2 <= spec_key_name(k).len() <= 14,
        forall|i: int|
            0 <= i < spec_key_name(k).len() ==> (48 <= #[trigger] spec_key_name(k)[i] <= 57 || 65
                <= spec_key_name(k)[i] <= 90 || 97 <= spec_key_name(k)[i] <= 122),
{
}

/// The fingerprint is what its definition samples from the name.
#[verifier::spinoff_prover]
#[verifier::rlimit(100)]
proof fn lemma_key_sig_of_name(k: KeyCode)
    ensures
        spec_key_sig(k) == spec_key_name(k).len() * 16777216 + spec_key_name(k)[0] * 65536
            + spec_key_name(k)[spec_key_name(k).len() as int / 2] * 256 + spec_key_name(k).last(),
{
}

/// Distinct key codes have distinct fingerprints.
#[verifier::spinoff_prover]
#[verifier::rlimit(100)]
proof fn lemma_key_sig_injective(k1: KeyCode, k2: KeyCode)
    requires
        spec_key_sig(k1) == spec_key_sig(k2),
    ensures
        k1 == k2,
{
}

/// Distinct key codes have distinct names.
pub proof fn lemma_key_name_injective(k1: KeyCode, k2: KeyCode)
    requires
        spec_key_name(k1) == spec_key_name(k2),
    ensures
        k1 == k2,
{
    lemma_key_sig_of_name(k1);
    lemma_key_sig_of_name(k2);
    assert(spec_key_sig(k1) == spec_key_sig(k2));
    lemma_key_sig_injective(k1, k2);
}

impl KeyCode {
    /// Position of this key code in the recognized set.
    pub fn to_index(&self) -> (i: u8)
        ensures
            i == spec_key_index(*self),
    {
        match *self {
            KeyCode::KeyA => 0,
            KeyCode::KeyB => 1,
            KeyCode::KeyC => 2,
            KeyCode::KeyD => 3,
            KeyCode::KeyE => 4,
            KeyCode::KeyF => 5,
            KeyCode::KeyG => 6,
            KeyCode::KeyH => 7,
            KeyCode::KeyI => 8,
            KeyCode::KeyJ => 9,
            KeyCode::KeyK => 10,
            KeyCode::KeyL => 11,
            KeyCode::KeyM => 12,
            KeyCode::KeyN => 13,
            KeyCode::KeyO => 14,
            KeyCode::KeyP => 15,
            KeyCode::KeyQ => 16,
            KeyCode::KeyR => 17,
            KeyCode::KeyS => 18,
            KeyCode::KeyT => 19,
            KeyCode::KeyU => 20,
            KeyCode::KeyV => 21,
            KeyCode::KeyW => 22,
            KeyCode::KeyX => 23,
            KeyCode::KeyY => 24,
            KeyCode::KeyZ => 25,
            KeyCode::Digit0 => 26,
            KeyCode::Digit1 => 27,
            KeyCode::Digit2 => 28,
            KeyCode::Digit3 => 29,
            KeyCode::Digit4 => 30,
            KeyCode::Digit5 => 31,
            KeyCode::Digit6 => 32,
            KeyCode::Digit7 => 33,
            KeyCode::Digit8 => 34,
            KeyCode::Digit9 => 35,
            KeyCode::F1 => 36,
            KeyCode::F2 => 37,
            KeyCode::F3 => 38,
            KeyCode::F4 => 39,
            KeyCode::F5 => 40,
            KeyCode::F6 => 41,
            KeyCode::F7 => 42,
            KeyCode::F8 => 43,
            KeyCode::F9 => 44,
            KeyCode::F10 => 45,
            KeyCode::F11 => 46,
            KeyCode::F12 => 47,
            KeyCode::Numpad0 => 48,
            KeyCode::Numpad1 => 49,
            KeyCode::Numpad2 => 50,
            KeyCode::Numpad3 => 51,
            KeyCode::Numpad4 => 52,
            KeyCode::Numpad5 => 53,
            KeyCode::Numpad6 => 54,
            KeyCode::Numpad7 => 55,
            KeyCode::Numpad8 => 56,
            KeyCode::Numpad9 => 57,
            KeyCode::ArrowUp => 58,
            KeyCode::ArrowDown => 59,
            KeyCode::ArrowLeft => 60,
            KeyCode::ArrowRight => 61,
            KeyCode::Space => 62,
            KeyCode::Escape => 63,
            KeyCode::Enter => 64,
            KeyCode::Tab => 65,
            KeyCode::Backspace => 66,
            KeyCode::Delete => 67,
            KeyCode::Insert => 68,
            KeyCode::Home => 69,
            KeyCode::End => 70,
            KeyCode::PageUp => 71,
            KeyCode::PageDown => 72,
            KeyCode::CapsLock => 73,
            KeyCode::Minus => 74,
            KeyCode::Equal => 75,
            KeyCode::BracketLeft => 76,
            KeyCode::BracketRight => 77,
            KeyCode::Backslash => 78,
            KeyCode::Semicolon => 79,
            KeyCode::Quote => 80,
            KeyCode::Backquote => 81,
            KeyCode::Comma => 82,
            KeyCode::Period => 83,
            KeyCode::Slash => 84,
            KeyCode::IntlBackslash => 85,
            KeyCode::NumpadAdd => 86,
            KeyCode::NumpadSubtract => 87,
            KeyCode::NumpadMultiply => 88,
            KeyCode::NumpadDivide => 89,
            KeyCode::NumpadDecimal => 90,
            KeyCode::NumpadEnter => 91,
        }
    }

    /// The key code at a given position of the recognized set.
    pub fn from_index(i: u8) -> (k: KeyCode)
        requires
            i < KEY_CODE_COUNT,
        ensures
            k == spec_key_at(i as int),
            spec_key_index(k) == i,
    {
        match i {
            0 => KeyCode::KeyA,
            1 => KeyCode::KeyB,
            2 => KeyCode::KeyC,
            3 => KeyCode::KeyD,
            4 => KeyCode::KeyE,
            5 => KeyCode::KeyF,
            6 => KeyCode::KeyG,
            7 => KeyCode::KeyH,
            8 => KeyCode::KeyI,
            9 => KeyCode::KeyJ,
            10 => KeyCode::KeyK,
            11 => KeyCode::KeyL,
            12 => KeyCode::KeyM,
            13 => KeyCode::KeyN,
            14 => KeyCode::KeyO,
            15 => KeyCode::KeyP,
            16 => KeyCode::KeyQ,
            17 => KeyCode::KeyR,
            18 => KeyCode::KeyS,
            19 => KeyCode::KeyT,
            20 => KeyCode::KeyU,
            21 => KeyCode::KeyV,
            22 => KeyCode::KeyW,
            23 => KeyCode::KeyX,
            24 => KeyCode::KeyY,
            25 => KeyCode::KeyZ,
            26 => KeyCode::Digit0,
            27 => KeyCode::Digit1,
            28 => KeyCode::Digit2,
            29 => KeyCode::Digit3,
            30 => KeyCode::Digit4,
            31 => KeyCode::Digit5,
            32 => KeyCode::Digit6,
            33 => KeyCode::Digit7,
            34 => KeyCode::Digit8,
            35 => KeyCode::Digit9,
            36 => KeyCode::F1,
            37 => KeyCode::F2,
            38 => KeyCode::F3,
            39 => KeyCode::F4,
            40 => KeyCode::F5,
            41 => KeyCode::F6,
            42 => KeyCode::F7,
            43 => KeyCode::F8,
            44 => KeyCode::F9,
            45 => KeyCode::F10,
            46 => KeyCode::F11,
            47 => KeyCode::F12,
            48 => KeyCode::Numpad0,
            49 => KeyCode::Numpad1,
            50 => KeyCode::Numpad2,
            51 => KeyCode::Numpad3,
            52 => KeyCode::Numpad4,
            53 => KeyCode::Numpad5,
            54 => KeyCode::Numpad6,
            55 => KeyCode::Numpad7,
            56 => KeyCode::Numpad8,
            57 => KeyCode::Numpad9,
            58 => KeyCode::ArrowUp,
            59 => KeyCode::ArrowDown,
            60 => KeyCode::ArrowLeft,
            61 => KeyCode::ArrowRight,
            62 => KeyCode::Space,
            63 => KeyCode::Escape,
            64 => KeyCode::Enter,
            65 => KeyCode::Tab,
            66 => KeyCode::Backspace,
            67 => KeyCode::Delete,
            68 => KeyCode::Insert,
            69 => KeyCode::Home,
            70 => KeyCode::End,
            71 => KeyCode::PageUp,
            72 => KeyCode::PageDown,
            73 => KeyCode::CapsLock,
            74 => KeyCode::Minus,
            75 => KeyCode::Equal,
            76 => KeyCode::BracketLeft,
            77 => KeyCode::BracketRight,
            78 => KeyCode::Backslash,
            79 => KeyCode::Semicolon,
            80 => KeyCode::Quote,
            81 => KeyCode::Backquote,
            82 => KeyCode::Comma,
            83 => KeyCode::Period,
            84 => KeyCode::Slash,
            85 => KeyCode::IntlBackslash,
            86 => KeyCode::NumpadAdd,
            87 => KeyCode::NumpadSubtract,
            88 => KeyCode::NumpadMultiply,
            89 => KeyCode::NumpadDivide,
            90 => KeyCode::NumpadDecimal,
            _ => KeyCode::NumpadEnter,
        }
    }

    /// The name of this key code, in bytes.
    #[verifier::spinoff_prover]
    #[verifier::rlimit(100)]
    pub fn name_bytes(&self) -> (r: Vec<u8>)
        ensures
            r@ == spec_key_name(*self),
    {
        let mut v: Vec<u8> = Vec::new();
        match *self {
            KeyCode::KeyA => {
                v.push(75);
                v.push(101);
                v.push(121);
                v.push(65);
                proof {
                    assert(v@ =~= spec_key_name(*self));
                }
            },
            KeyCode::KeyB => {
                v.push(75);
                v.push(101);
                v.push(121);
                v.push(66);
                proof {
                    assert(v@ =~= spec_key_name(*self));
                }
            },
            KeyCode::KeyC => {
                v.push(75);
                v.push(101);
                v.push(121);
                v.push(67);
                proof {
                    assert(v@ =~= spec_key_name(*self));
                }
            },
            KeyCode::KeyD => {
                v.push(75);
                v.push(101);
                v.push(121);
                v.push(68);
                proof {
                    assert(v@ =~= spec_key_name(*self));
                }
            },
            KeyCode::KeyE => {
                v.push(75);
                v.push(101);
                v.push(121);
                v.push(69);
                proof {
                    assert(v@ =~= spec_key_name(*self));
                }
            },
            KeyCode::KeyF => {
                v.push(75);
                v.push(101);
                v.push(121);
                v.push(70);
                proof {
                    assert(v@ =~= spec_key_name(*self));
                }
            },
            KeyCode::KeyG => {
                v.push(75);
                v.push(101);
                v.push(121);
                v.push(71);
                proof {
                    assert(v@ =~= spec_key_name(*self));
                }
            },
            KeyCode::KeyH => {
                v.push(75);
                v.push(101);
                v.push(121);
                v.push(72);
                proof {
                    assert(v@ =~= spec_key_name(*self));
                }
            },
            KeyCode::KeyI => {
                v.push(75);
                v.push(101);
                v.push(121);
                v.push(73);
                proof {
                    assert(v@ =~= spec_key_name(*self));
                }
            },
            KeyCode::KeyJ => {
                v.push(75);
                v.push(101);
                v.push(121);
                v.push(74);
                proof {
                    assert(v@ =~= spec_key_name(*self));
                }
            },
            KeyCode::KeyK => {
                v.push(75);
                v.push(101);
                v.push(121);
                v.push(75);
                proof {
                    assert(v@ =~= spec_key_name(*self));
                }
            },
            KeyCode::KeyL => {
                v.push(75);
                v.push(101);
                v.push(121);
                v.push(76);
                proof {
                    assert(v@ =~= spec_key_name(*self));
                }
            },
            KeyCode::KeyM => {
                v.push(75);
                v.push(101);
                v.push(121);
                v.push(77);
                proof {
                    assert(v@ =~= spec_key_name(*self));
                }
            },
            KeyCode::KeyN => {
                v.push(75);
                v.push(101);
                v.push(121);
                v.push(78);
                proof {
                    assert(v@ =~= spec_key_name(*self));
                }
            },
            KeyCode::KeyO => {
                v.push(75);
                v.push(101);
                v.push(121);
                v.push(79);
                proof {
                    assert(v@ =~= spec_key_name(*self));
                }
            },
            KeyCode::KeyP => {
                v.push(75);
                v.push(101);
                v.push(121);
                v.push(80);
                proof {
                    assert(v@ =~= spec_key_name(*self));
                }
            },
            KeyCode::KeyQ => {
                v.push(75);
                v.push(101);
                v.push(121);
                v.push(81);
                proof {
                    assert(v@ =~= spec_key_name(*self));
                }
            },
            KeyCode::KeyR => {
                v.push(75);
                v.push(101);
                v.push(121);
                v.push(82);
                proof {
                    assert(v@ =~= spec_key_name(*self));
                }
            },
            KeyCode::KeyS => {
                v.push(75);
                v.push(101);
                v.push(121);
                v.push(83);
                proof {
                    assert(v@ =~= spec_key_name(*self));
                }
            },
            KeyCode::KeyT => {
                v.push(75);
                v.push(101);
                v.push(121);
                v.push(84);
                proof {
                    assert(v@ =~= spec_key_name(*self));
                }
            },
            KeyCode::KeyU => {
                v.push(75);
                v.push(101);
                v.push(121);
                v.push(85);
                proof {
                    assert(v@ =~= spec_key_name(*self));
                }
            },
            KeyCode::KeyV => {
                v.push(75);
                v.push(101);
                v.push(121);
                v.push(86);
                proof {
                    assert(v@ =~= spec_key_name(*self));
                }
            },
            KeyCode::KeyW => {
                v.push(75);
                v.push(101);
                v.push(121);
                v.push(87);
                proof {
                    assert(v@ =~= spec_key_name(*self));
                }
            },
            KeyCode::KeyX => {
                v.push(75);
                v.push(101);
                v.push(121);
                v.push(88);
                proof {
                    assert(v@ =~= spec_key_name(*self));
                }
            },
            KeyCode::KeyY => {
                v.push(75);
                v.push(101);
                v.push(121);
                v.push(89);
                proof {
                    assert(v@ =~= spec_key_name(*self));
                }
            },
            KeyCode::KeyZ => {
                v.push(75);
                v.push(101);
                v.push(121);
                v.push(90);
                proof {
                    assert(v@ =~= spec_key_name(*self));
                }
            },
            KeyCode::Digit0 => {
                v.push(68);
                v.push(105);
                v.push(103);
                v.push(105);
                v.push(116);
                v.push(48);
                proof {
                    assert(v@ =~= spec_key_name(*self));
                }
            },
            KeyCode::Digit1 => {
                v.push(68);
                v.push(105);
                v.push(103);
                v.push(105);
                v.push(116);
                v.push(49);
                proof {
                    assert(v@ =~= spec_key_name(*self));
                }
            },
            KeyCode::Digit2 => {
                v.push(68);
                v.push(105);
                v.push(103);
                v.push(105);
                v.push(116);
                v.push(50);
                proof {
                    assert(v@ =~= spec_key_name(*self));
                }
            },
            KeyCode::Digit3 => {
                v.push(68);
                v.push(105);
                v.push(103);
                v.push(105);
                v.push(116);
                v.push(51);
                proof {
                    assert(v@ =~= spec_key_name(*self));
                }
            },
            KeyCode::Digit4 => {
                v.push(68);
                v.push(105);
                v.push(103);
                v.push(105);
                v.push(116);
                v.push(52);
                proof {
                    assert(v@ =~= spec_key_name(*self));
                }
            },
            KeyCode::Digit5 => {
                v.push(68);
                v.push(105);
                v.push(103);
                v.push(105);
                v.push(116);
                v.push(53);
                proof {
                    assert(v@ =~= spec_key_name(*self));
                }
            },
            KeyCode::Digit6 => {
                v.push(68);
                v.push(105);
                v.push(103);
                v.push(105);
                v.push(116);
                v.push(54);
                proof {
                    assert(v@ =~= spec_key_name(*self));
                }
            },
            KeyCode::Digit7 => {
                v.push(68);
                v.push(105);
                v.push(103);
                v.push(105);
                v.push(116);
                v.push(55);
                proof {
                    assert(v@ =~= spec_key_name(*self));
                }
            },
            KeyCode::Digit8 => {
                v.push(68);
                v.push(105);
                v.push(103);
                v.push(105);
                v.push(116);
                v.push(56);
                proof {
                    assert(v@ =~= spec_key_name(*self));
                }
            },
            KeyCode::Digit9 => {
                v.push(68);
                v.push(105);
                v.push(103);
                v.push(105);
                v.push(116);
                v.push(57);
                proof {
                    assert(v@ =~= spec_key_name(*self));
                }
            },
            KeyCode::F1 => {
                v.push(70);
                v.push(49);
                proof {
                    assert(v@ =~= spec_key_name(*self));
                }
            },
            KeyCode::F2 => {
                v.push(70);
                v.push(50);
                proof {
                    assert(v@ =~= spec_key_name(*self));
                }
            },
            KeyCode::F3 => {
                v.push(70);
                v.push(51);
                proof {
                    assert(v@ =~= spec_key_name(*self));
                }
            },
            KeyCode::F4 => {
                v.push(70);
                v.push(52);
                proof {
                    assert(v@ =~= spec_key_name(*self));
                }
            },
            KeyCode::F5 => {
                v.push(70);
                v.push(53);
                proof {
                    assert(v@ =~= spec_key_name(*self));
                }
            },
            KeyCode::F6 => {
                v.push(70);
                v.push(54);
                proof {
                    assert(v@ =~= spec_key_name(*self));
                }
            },
            KeyCode::F7 => {
                v.push(70);
                v.push(55);
                proof {
                    assert(v@ =~= spec_key_name(*self));
                }
            },
            KeyCode::F8 => {
                v.push(70);
                v.push(56);
                proof {
                    assert(v@ =~= spec_key_name(*self));
                }
            },
            KeyCode::F9 => {
                v.push(70);
                v.push(57);
                proof {
                    assert(v@ =~= spec_key_name(*self));
                }
            },
            KeyCode::F10 => {
                v.push(70);
                v.push(49);
                v.push(48);
                proof {
                    assert(v@ =~= spec_key_name(*self));
                }
            },
            KeyCode::F11 => {
                v.push(70);
                v.push(49);
                v.push(49);
                proof {
                    assert(v@ =~= spec_key_name(*self));
                }
            },
            KeyCode::F12 => {
                v.push(70);
                v.push(49);
                v.push(50);
                proof {
                    assert(v@ =~= spec_key_name(*self));
                }
            },
            KeyCode::Numpad0 => {
                v.push(78);
                v.push(117);
                v.push(109);
                v.push(112);
                v.push(97);
                v.push(100);
                v.push(48);
                proof {
                    assert(v@ =~= spec_key_name(*self));
                }
            },
            KeyCode::Numpad1 => {
                v.push(78);
                v.push(117);
                v.push(109);
                v.push(112);
                v.push(97);
                v.push(100);
                v.push(49);
                proof {
                    assert(v@ =~= spec_key_name(*self));
                }
            },
            KeyCode::Numpad2 => {
                v.push(78);
                v.push(117);
                v.push(109);
                v.push(112);
                v.push(97);
                v.push(100);
                v.push(50);
                proof {
                    assert(v@ =~= spec_key_name(*self));
                }
            },
            KeyCode::Numpad3 => {
                v.push(78);
                v.push(117);
                v.push(109);
                v.push(112);
                v.push(97);
                v.push(100);
                v.push(51);
                proof {
                    assert(v@ =~= spec_key_name(*self));
                }
            },
            KeyCode::Numpad4 => {
                v.push(78);
                v.push(117);
                v.push(109);
                v.push(112);
                v.push(97);
                v.push(100);
                v.push(52);
                proof {
                    assert(v@ =~= spec_key_name(*self));
                }
            },
            KeyCode::Numpad5 => {
                v.push(78);
                v.push(117);
                v.push(109);
                v.push(112);
                v.push(97);
                v.push(100);
                v.push(53);
                proof {
                    assert(v@ =~= spec_key_name(*self));
                }
            },
            KeyCode::Numpad6 => {
                v.push(78);
                v.push(117);
                v.push(109);
                v.push(112);
                v.push(97);
                v.push(100);
                v.push(54);
                proof {
                    assert(v@ =~= spec_key_name(*self));
                }
            },
            KeyCode::Numpad7 => {
                v.push(78);
                v.push(117);
                v.push(109);
                v.push(112);
                v.push(97);
                v.push(100);
                v.push(55);
                proof {
                    assert(v@ =~= spec_key_name(*self));
                }
            },
            KeyCode::Numpad8 => {
                v.push(78);
                v.push(117);
                v.push(109);
                v.push(112);
                v.push(97);
                v.push(100);
                v.push(56);
                proof {
                    assert(v@ =~= spec_key_name(*self));
                }
            },
            KeyCode::Numpad9 => {
                v.push(78);
                v.push(117);
                v.push(109);
                v.push(112);
                v.push(97);
                v.push(100);
                v.push(57);
                proof {
                    assert(v@ =~= spec_key_name(*self));
                }
            },
            KeyCode::ArrowUp => {
                v.push(65);
                v.push(114);
                v.push(114);
                v.push(111);
                v.push(119);
                v.push(85);
                v.push(112);
                proof {
                    assert(v@ =~= spec_key_name(*self));
                }
            },
            KeyCode::ArrowDown => {
                v.push(65);
                v.push(114);
                v.push(114);
                v.push(111);
                v.push(119);
                v.push(68);
                v.push(111);
                v.push(119);
                v.push(110);
                proof {
                    assert(v@ =~= spec_key_name(*self));
                }
            },
            KeyCode::ArrowLeft => {
                v.push(65);
                v.push(114);
                v.push(114);
                v.push(111);
                v.push(119);
                v.push(76);
                v.push(101);
                v.push(102);
                v.push(116);
                proof {
                    assert(v@ =~= spec_key_name(*self));
                }
            },
            KeyCode::ArrowRight => {
                v.push(65);
                v.push(114);
                v.push(114);
                v.push(111);
                v.push(119);
                v.push(82);
                v.push(105);
                v.push(103);
                v.push(104);
                v.push(116);
                proof {
                    assert(v@ =~= spec_key_name(*self));
                }
            },
            KeyCode::Space => {
                v.push(83);
                v.push(112);
                v.push(97);
                v.push(99);
                v.push(101);
                proof {
                    assert(v@ =~= spec_key_name(*self));
                }
            },
            KeyCode::Escape => {
                v.push(69);
                v.push(115);
                v.push(99);
                v.push(97);
                v.push(112);
                v.push(101);
                proof {
                    assert(v@ =~= spec_key_name(*self));
                }
            },
            KeyCode::Enter => {
                v.push(69);
                v.push(110);
                v.push(116);
                v.push(101);
                v.push(114);
                proof {
                    assert(v@ =~= spec_key_name(*self));
                }
            },
            KeyCode::Tab => {
                v.push(84);
                v.push(97);
                v.push(98);
                proof {
                    assert(v@ =~= spec_key_name(*self));
                }
            },
            KeyCode::Backspace => {
                v.push(66);
                v.push(97);
                v.push(99);
                v.push(107);
                v.push(115);
                v.push(112);
                v.push(97);
                v.push(99);
                v.push(101);
                proof {
                    assert(v@ =~= spec_key_name(*self));
                }
            },
            KeyCode::Delete => {
                v.push(68);
                v.push(101);
                v.push(108);
                v.push(101);
                v.push(116);
                v.push(101);
                proof {
                    assert(v@ =~= spec_key_name(*self));
                }
            },
            KeyCode::Insert => {
                v.push(73);
                v.push(110);
                v.push(115);
                v.push(101);
                v.push(114);
                v.push(116);
                proof {
                    assert(v@ =~= spec_key_name(*self));
                }
            },
            KeyCode::Home => {
                v.push(72);
                v.push(111);
                v.push(109);
                v.push(101);
                proof {
                    assert(v@ =~= spec_key_name(*self));
                }
            },
            KeyCode::End => {
                v.push(69);
                v.push(110);
                v.push(100);
                proof {
                    assert(v@ =~= spec_key_name(*self));
                }
            },
            KeyCode::PageUp => {
                v.push(80);
                v.push(97);
                v.push(103);
                v.push(101);
                v.push(85);
                v.push(112);
                proof {
                    assert(v@ =~= spec_key_name(*self));
                }
            },
            KeyCode::PageDown => {
                v.push(80);
                v.push(97);
                v.push(103);
                v.push(101);
                v.push(68);
                v.push(111);
                v.push(119);
                v.push(110);
                proof {
                    assert(v@ =~= spec_key_name(*self));
                }
            },
            KeyCode::CapsLock => {
                v.push(67);
                v.push(97);
                v.push(112);
                v.push(115);
                v.push(76);
                v.push(111);
                v.push(99);
                v.push(107);
                proof {
                    assert(v@ =~= spec_key_name(*self));
                }
            },
            KeyCode::Minus => {
                v.push(77);
                v.push(105);
                v.push(110);
                v.push(117);
                v.push(115);
                proof {
                    assert(v@ =~= spec_key_name(*self));
                }
            },
            KeyCode::Equal => {
                v.push(69);
                v.push(113);
                v.push(117);
                v.push(97);
                v.push(108);
                proof {
                    assert(v@ =~= spec_key_name(*self));
                }
            },
            KeyCode::BracketLeft => {
                v.push(66);
                v.push(114);
                v.push(97);
                v.push(99);
                v.push(107);
                v.push(101);
                v.push(116);
                v.push(76);
                v.push(101);
                v.push(102);
                v.push(116);
                proof {
                    assert(v@ =~= spec_key_name(*self));
                }
            },
            KeyCode::BracketRight => {
                v.push(66);
                v.push(114);
                v.push(97);
                v.push(99);
                v.push(107);
                v.push(101);
                v.push(116);
                v.push(82);
                v.push(105);
                v.push(103);
                v.push(104);
                v.push(116);
                proof {
                    assert(v@ =~= spec_key_name(*self));
                }
            },
            KeyCode::Backslash => {
                v.push(66);
                v.push(97);
                v.push(99);
                v.push(107);
                v.push(115);
                v.push(108);
                v.push(97);
                v.push(115);
                v.push(104);
                proof {
                    assert(v@ =~= spec_key_name(*self));
                }
            },
            KeyCode::Semicolon => {
                v.push(83);
                v.push(101);
                v.push(109);
                v.push(105);
                v.push(99);
                v.push(111);
                v.push(108);
                v.push(111);
                v.push(110);
                proof {
                    assert(v@ =~= spec_key_name(*self));
                }
            },
            KeyCode::Quote => {
                v.push(81);
                v.push(117);
                v.push(111);
                v.push(116);
                v.push(101);
                proof {
                    assert(v@ =~= spec_key_name(*self));
                }
            },
            KeyCode::Backquote => {
                v.push(66);
                v.push(97);
                v.push(99);
                v.push(107);
                v.push(113);
                v.push(117);
                v.push(111);
                v.push(116);
                v.push(101);
                proof {
                    assert(v@ =~= spec_key_name(*self));
                }
            },
            KeyCode::Comma => {
                v.push(67);
                v.push(111);
                v.push(109);
                v.push(109);
                v.push(97);
                proof {
                    assert(v@ =~= spec_key_name(*self));
                }
            },
            KeyCode::Period => {
                v.push(80);
                v.push(101);
                v.push(114);
                v.push(105);
                v.push(111);
                v.push(100);
                proof {
                    assert(v@ =~= spec_key_name(*self));
                }
            },
            KeyCode::Slash => {
                v.push(83);
                v.push(108);
                v.push(97);
                v.push(115);
                v.push(104);
                proof {
                    assert(v@ =~= spec_key_name(*self));
                }
            },
            KeyCode::IntlBackslash => {
                v.push(73);
                v.push(110);
                v.push(116);
                v.push(108);
                v.push(66);
                v.push(97);
                v.push(99);
                v.push(107);
                v.push(115);
                v.push(108);
                v.push(97);
                v.push(115);
                v.push(104);
                proof {
                    assert(v@ =~= spec_key_name(*self));
                }
            },
            KeyCode::NumpadAdd => {
                v.push(78);
                v.push(117);
                v.push(109);
                v.push(112);
                v.push(97);
                v.push(100);
                v.push(65);
                v.push(100);
                v.push(100);
                proof {
                    assert(v@ =~= spec_key_name(*self));
                }
            },
            KeyCode::NumpadSubtract => {
                v.push(78);
                v.push(117);
                v.push(109);
                v.push(112);
                v.push(97);
                v.push(100);
                v.push(83);
                v.push(117);
                v.push(98);
                v.push(116);
                v.push(114);
                v.push(97);
                v.push(99);
                v.push(116);
                proof {
                    assert(v@ =~= spec_key_name(*self));
                }
            },
            KeyCode::NumpadMultiply => {
                v.push(78);
                v.push(117);
                v.push(109);
                v.push(112);
                v.push(97);
                v.push(100);
                v.push(77);
                v.push(117);
                v.push(108);
                v.push(116);
                v.push(105);
                v.push(112);
                v.push(108);
                v.push(121);
                proof {
                    assert(v@ =~= spec_key_name(*self));
                }
            },
            KeyCode::NumpadDivide => {
                v.push(78);
                v.push(117);
                v.push(109);
                v.push(112);
                v.push(97);
                v.push(100);
                v.push(68);
                v.push(105);
                v.push(118);
                v.push(105);
                v.push(100);
                v.push(101);
                proof {
                    assert(v@ =~= spec_key_name(*self));
                }
            },
            KeyCode::NumpadDecimal => {
                v.push(78);
                v.push(117);
                v.push(109);
                v.push(112);
                v.push(97);
                v.push(100);
                v.push(68);
                v.push(101);
                v.push(99);
                v.push(105);
                v.push(109);
                v.push(97);
                v.push(108);
                proof {
                    assert(v@ =~= spec_key_name(*self));
                }
            },
            KeyCode::NumpadEnter => {
                v.push(78);
                v.push(117);
                v.push(109);
                v.push(112);
                v.push(97);
                v.push(100);
                v.push(69);
                v.push(110);
                v.push(116);
                v.push(101);
                v.push(114);
                proof {
                    assert(v@ =~= spec_key_name(*self));
                }
            },
        }
        v
    }

    /// Decodes a key name by scanning the recognized set.  Exactly the
    /// names produced by [`KeyCode::name_bytes`] are accepted; anything
    /// else yields `None`.
    pub fn parse_name(name: &[u8]) -> (r: Option<KeyCode>)
        ensures
            r matches Some(k) ==> spec_key_name(k) == name@,
            r is None ==> (forall|k: KeyCode| spec_key_name(k) != name@),
    {
        let mut idx: u8 = 0;
        while idx < KEY_CODE_COUNT
            invariant
                idx <= KEY_CODE_COUNT,
                forall|j: int| 0 <= j < idx ==> spec_key_name(spec_key_at(j)) != name@,
            decreases KEY_CODE_COUNT - idx,
        {
            let k = KeyCode::from_index(idx);
            let k_name: Vec<u8> = k.name_bytes();
            if bytes_equal(k_name.as_slice(), name) {
                return Some(k);
            }
            proof {
                assert(spec_key_at(idx as int) == k);
            }
            idx = idx + 1;
        }
        proof {
            assert forall|k: KeyCode| spec_key_name(k) != name@ by {
                lemma_key_index_bounds(k);
                lemma_key_at_index(k);
                assert(spec_key_name(spec_key_at(spec_key_index(k))) != name@);
            }
        }
        None
    }
}

/// Whether two byte strings hold the same bytes.
pub(crate) fn bytes_equal(a: &[u8], b: &[u8]) -> (r: bool)
    ensures
        r <==> a@ == b@,
{
    if a.len() != b.len() {
        return false;
    }
    let mut i: usize = 0;
    while i < a.len()
        invariant
            i <= a@.len(),
            a@.len() == b@.len(),
            forall|j: int| 0 <= j < i ==> a@[j] == b@[j],
        decreases a@.len() - i,
    {
        if a[i] != b[i] {
            return false;
        }
        i = i + 1;
    }
    proof {
        assert(a@ =~= b@);
    }
    true
}

/// A hotkey binding: the modifier set plus the key that completes the chord.
/// Every value of this type is a valid binding.
#[derive(Clone, Copy, Debug, PartialEq, Eq, Structural)]
pub struct HotkeyBinding {
    pub modifiers: Modifiers,
    pub code: KeyCode,
}

/// The built-in binding used whenever no persisted one is available:
/// Ctrl+Shift+G.
pub open spec fn spec_default_binding() -> HotkeyBinding {
    HotkeyBinding {
        modifiers: Modifiers { alt: false, ctrl: true, meta: false, shift: true },
        code: KeyCode::KeyG,
    }
}

/// The built-in default binding, Ctrl+Shift+G.
pub fn default_binding() -> (b: HotkeyBinding)
    ensures
        b == spec_default_binding(),
{
    HotkeyBinding {
        modifiers: Modifiers { alt: false, ctrl: true, meta: false, shift: true },
        code: KeyCode::KeyG,
    }
}

} // verus!
