//! The persisted hotkey configuration.
//!
//! The config store keeps exactly one hotkey binding as the sole content of a
//! small JSON file, an object with a `modifiers` field (the decimal modifier
//! bitmask) and a `code` field (the key's name).  [`encode_binding`] writes
//! the canonical form `{"modifiers":M,"code":"NAME"}`; [`parse_binding`]
//! accepts that object in either field order, with any insignificant
//! whitespace, and rejects everything else, so a crash-torn or otherwise
//! corrupt file falls back to the built-in default on load rather than
//! failing.  Reading and writing the file itself is the outer program's job;
//! the functions here work on the bytes.

use vstd::prelude::*;

use crate::hotkey::HotkeyBinding;
use crate::hotkey::KeyCode;
use crate::hotkey::Modifiers;
use crate::hotkey::bytes_equal;
use crate::hotkey::lemma_key_name_injective;
use crate::hotkey::lemma_key_name_shape;
use crate::hotkey::spec_default_binding;
use crate::hotkey::spec_key_name;
use crate::hotkey::spec_modifier_bits;
use vstd::slice::slice_subrange;

verus! {

/// The whitespace bytes JSON allows between tokens.
pub open spec fn spec_is_ws(c: u8) -> bool {
    c == 32 || c == 9 || c == 10 || c == 13
}

/// The text with its insignificant whitespace removed: whitespace standing
/// outside quoted strings is dropped, everything else is kept.
pub open spec fn spec_strip(s: Seq<u8>, in_str: bool) -> Seq<u8>
    decreases s.len(),
{
    if s.len() == 0 {
        Seq::empty()
    } else if s[0] == 34 {
        seq![34u8] + spec_strip(s.skip(1), !in_str)
    } else if !in_str && spec_is_ws(s[0]) {
        spec_strip(s.skip(1), in_str)
    } else {
        seq![s[0]] + spec_strip(s.skip(1), in_str)
    }
}

/// The bytes of `{"modifiers":`, the opening of the canonical config text.
pub open spec fn spec_cfg_prefix() -> Seq<u8> {
    seq![123u8, 34u8, 109u8, 111u8, 100u8, 105u8, 102u8, 105u8, 101u8, 114u8, 115u8, 34u8, 58u8]
}

/// The bytes of `,"code":"`, between the bitmask and the key name.
pub open spec fn spec_cfg_mid() -> Seq<u8> {
    seq![44u8, 34u8, 99u8, 111u8, 100u8, 101u8, 34u8, 58u8, 34u8]
}

/// The bytes of `"}`, the close of the canonical config text.
pub open spec fn spec_cfg_suffix() -> Seq<u8> {
    seq![34u8, 125u8]
}

/// The bytes of `{"code":"`, the opening of the swapped-order config text.
pub open spec fn spec_swap_prefix() -> Seq<u8> {
    seq![123u8, 34u8, 99u8, 111u8, 100u8, 101u8, 34u8, 58u8, 34u8]
}

/// The bytes of `","modifiers":`, between the key name and the bitmask.
pub open spec fn spec_swap_mid() -> Seq<u8> {
    seq![
        34u8,
        44u8,
        34u8,
        109u8,
        111u8,
        100u8,
        105u8,
        102u8,
        105u8,
        101u8,
        114u8,
        115u8,
        34u8,
        58u8,
    ]
}

/// The decimal digits of a modifier bitmask (always a value below 16).
pub open spec fn spec_dec(bits: u32) -> Seq<u8>
    recommends
        bits < 16,
{
    if bits < 10 {
        seq![(48 + bits) as u8]
    } else {
        seq![49u8, (48 + (bits - 10)) as u8]
    }
}

/// The canonical config text that persists a binding:
/// `{"modifiers":M,"code":"NAME"}`.
pub open spec fn spec_encode(b: HotkeyBinding) -> Seq<u8> {
    spec_cfg_prefix() + spec_dec(spec_modifier_bits(b.modifiers)) + spec_cfg_mid() + spec_key_name(
        b.code,
    ) + spec_cfg_suffix()
}

/// The same object in the other field order: `{"code":"NAME","modifiers":M}`.
pub open spec fn spec_encode_swapped(b: HotkeyBinding) -> Seq<u8> {
    spec_swap_prefix() + spec_key_name(b.code) + spec_swap_mid() + spec_dec(
        spec_modifier_bits(b.modifiers),
    ) + seq![125u8]
}

/// Whether a text is the config object persisting `b`: after dropping
/// insignificant whitespace it is `b`'s object in one of the two field
/// orders.
pub open spec fn spec_accepts(s: Seq<u8>, b: HotkeyBinding) -> bool {
    spec_strip(s, false) == spec_encode(b) || spec_strip(s, false) == spec_encode_swapped(b)
}

/// What a config text denotes: the unique binding whose object it is, if any.
pub open spec fn spec_parse(s: Seq<u8>) -> Option<HotkeyBinding> {
    if exists|b: HotkeyBinding| spec_accepts(s, b) {
        Some(choose|b: HotkeyBinding| spec_accepts(s, b))
    } else {
        None
    }
}

/// What loading yields: the denoted binding, or the default when the file is
/// missing (`None`) or holds anything but a saved binding.
pub open spec fn spec_load(content: Option<Seq<u8>>) -> HotkeyBinding {
    match content {
        Some(s) => match spec_parse(s) {
            Some(b) => b,
            None => spec_default_binding(),
        },
        None => spec_default_binding(),
    }
}

/// Where each piece of the canonical text stands.
proof fn lemma_canonical_layout(b: HotkeyBinding)
    ensures
        ({
            let e = spec_encode(b);
            let bits = spec_modifier_bits(b.modifiers);
            let dl = spec_dec(bits).len() as int;
            let nl = spec_key_name(b.code).len() as int;
            &&& e.len() == 24 + dl + nl
            &&& (dl == 1 || dl == 2)
            &&& 2 <= nl <= 14
            &&& e[2] == 109
            &&& (dl == 1 ==> bits < 10 && e[13] == 48 + bits && e[14] == 44)
            &&& (dl == 2 ==> 10 <= bits < 16 && e[13] == 49 && e[14] == 48 + (bits - 10))
            &&& (forall|i: int| 0 <= i < nl ==> e[22 + dl + i] == spec_key_name(b.code)[i])
        }),
{
    lemma_key_name_shape(b.code);
    let bits = spec_modifier_bits(b.modifiers);
    assert(bits < 16);
}

/// Where each piece of the swapped-order text stands.  The key name holds no
/// quote byte, so the first quote at or after position 9 closes the name.
proof fn lemma_swapped_layout(b: HotkeyBinding)
    ensures
        ({
            let a = spec_encode_swapped(b);
            let bits = spec_modifier_bits(b.modifiers);
            let dl = spec_dec(bits).len() as int;
            let nl = spec_key_name(b.code).len() as int;
            &&& a.len() == 24 + dl + nl
            &&& (dl == 1 || dl == 2)
            &&& 2 <= nl <= 14
            &&& a[2] == 99
            &&& (forall|i: int|
                0 <= i < nl ==> a[9 + i] == spec_key_name(b.code)[i] && a[9 + i] != 34)
            &&& a[9 + nl] == 34
            &&& (dl == 1 ==> bits < 10 && a[23 + nl] == 48 + bits)
            &&& (dl == 2 ==> 10 <= bits < 16 && a[23 + nl] == 49 && a[24 + nl] == 48 + (bits
                - 10))
        }),
{
    lemma_key_name_shape(b.code);
    let bits = spec_modifier_bits(b.modifiers);
    assert(bits < 16);
    let a = spec_encode_swapped(b);
    let nl = spec_key_name(b.code).len() as int;
    assert forall|i: int|
        0 <= i < nl implies a[9 + i] == spec_key_name(b.code)[i] && a[9 + i] != 34 by {
        assert(48 <= spec_key_name(b.code)[i] <= 57 || 65 <= spec_key_name(b.code)[i] <= 90 || 97
            <= spec_key_name(b.code)[i] <= 122);
    }
}

/// Distinct bindings have distinct canonical texts.
pub proof fn lemma_encode_injective(b1: HotkeyBinding, b2: HotkeyBinding)
    requires
        spec_encode(b1) == spec_encode(b2),
    ensures
        b1 == b2,
{
    lemma_canonical_layout(b1);
    lemma_canonical_layout(b2);
    let e = spec_encode(b1);
    let bits1 = spec_modifier_bits(b1.modifiers);
    let bits2 = spec_modifier_bits(b2.modifiers);
    let d1 = spec_dec(bits1).len() as int;
    let d2 = spec_dec(bits2).len() as int;
    assert(d1 == d2) by {
        if d1 == 1 && d2 == 2 {
            assert(e[14] == 44 && 48 <= e[14]);
        }
        if d1 == 2 && d2 == 1 {
            assert(e[14] == 44 && 48 <= e[14]);
        }
    }
    assert(bits1 == bits2);
    crate::hotkey::lemma_modifier_bits_round_trip(b1.modifiers);
    crate::hotkey::lemma_modifier_bits_round_trip(b2.modifiers);
    assert(b1.modifiers == b2.modifiers);
    let n1 = spec_key_name(b1.code).len() as int;
    let n2 = spec_key_name(b2.code).len() as int;
    assert(n1 == n2);
    assert(spec_key_name(b1.code) =~= spec_key_name(b2.code)) by {
        assert(forall|i: int|
            0 <= i < n1 ==> e[22 + d1 + i] == spec_key_name(b1.code)[i] && e[22 + d1 + i]
                == spec_key_name(b2.code)[i]);
    }
    lemma_key_name_injective(b1.code, b2.code);
}

/// Distinct bindings have distinct swapped-order texts.
pub proof fn lemma_encode_swapped_injective(b1: HotkeyBinding, b2: HotkeyBinding)
    requires
        spec_encode_swapped(b1) == spec_encode_swapped(b2),
    ensures
        b1 == b2,
{
    lemma_swapped_layout(b1);
    lemma_swapped_layout(b2);
    let a = spec_encode_swapped(b1);
    let n1 = spec_key_name(b1.code).len() as int;
    let n2 = spec_key_name(b2.code).len() as int;
    assert(n1 == n2) by {
        if n1 < n2 {
            assert(a[9 + n1] == 34 && a[9 + n1] != 34);
        }
        if n2 < n1 {
            assert(a[9 + n2] == 34 && a[9 + n2] != 34);
        }
    }
    assert(spec_key_name(b1.code) =~= spec_key_name(b2.code)) by {
        assert(forall|i: int|
            0 <= i < n1 ==> a[9 + i] == spec_key_name(b1.code)[i] && a[9 + i] == spec_key_name(
                b2.code,
            )[i]);
    }
    lemma_key_name_injective(b1.code, b2.code);
    let bits1 = spec_modifier_bits(b1.modifiers);
    let bits2 = spec_modifier_bits(b2.modifiers);
    let d1 = spec_dec(bits1).len() as int;
    let d2 = spec_dec(bits2).len() as int;
    assert(d1 == d2);
    assert(bits1 == bits2) by {
        if d1 == 1 {
            assert(a[23 + n1] == 48 + bits1 && a[23 + n1] == 48 + bits2);
        } else {
            assert(a[24 + n1] == 48 + (bits1 - 10) && a[24 + n1] == 48 + (bits2 - 10));
        }
    }
    crate::hotkey::lemma_modifier_bits_round_trip(b1.modifiers);
    crate::hotkey::lemma_modifier_bits_round_trip(b2.modifiers);
    assert(b1.modifiers == b2.modifiers);
}

/// No text is both a canonical and a swapped-order config object: the first
/// field's initial letter tells them apart.
proof fn lemma_orders_distinct(b1: HotkeyBinding, b2: HotkeyBinding)
    ensures
        spec_encode(b1) != spec_encode_swapped(b2),
{
    lemma_canonical_layout(b1);
    lemma_swapped_layout(b2);
    if spec_encode(b1) == spec_encode_swapped(b2) {
        assert(spec_encode(b1)[2] == 109 && spec_encode_swapped(b2)[2] == 99);
    }
}

/// A text is the config object of at most one binding.
proof fn lemma_accepts_unique(s: Seq<u8>, b1: HotkeyBinding, b2: HotkeyBinding)
    requires
        spec_accepts(s, b1),
        spec_accepts(s, b2),
    ensures
        b1 == b2,
{
    if spec_strip(s, false) == spec_encode(b1) {
        if spec_strip(s, false) == spec_encode(b2) {
            lemma_encode_injective(b1, b2);
        } else {
            lemma_orders_distinct(b1, b2);
        }
    } else {
        if spec_strip(s, false) == spec_encode(b2) {
            lemma_orders_distinct(b2, b1);
        } else {
            lemma_encode_swapped_injective(b1, b2);
        }
    }
}

/// Stripping leaves a whitespace-free text unchanged.
proof fn lemma_strip_identity(s: Seq<u8>, in_str: bool)
    requires
        forall|i: int| 0 <= i < s.len() ==> !spec_is_ws(#[trigger] s[i]),
    ensures
        spec_strip(s, in_str) == s,
    decreases s.len(),
{
    if s.len() > 0 {
        assert(forall|i: int| 0 <= i < s.skip(1).len() ==> !spec_is_ws(#[trigger] s.skip(1)[i]));
        if s[0] == 34 {
            lemma_strip_identity(s.skip(1), !in_str);
        } else {
            lemma_strip_identity(s.skip(1), in_str);
        }
        assert(spec_strip(s, in_str) =~= s);
    } else {
        assert(spec_strip(s, in_str) =~= s);
    }
}

/// Neither form of the config text holds any whitespace.
proof fn lemma_encodings_no_ws(b: HotkeyBinding)
    ensures
        forall|i: int|
            0 <= i < spec_encode(b).len() ==> !spec_is_ws(#[trigger] spec_encode(b)[i]),
        forall|i: int|
            0 <= i < spec_encode_swapped(b).len() ==> !spec_is_ws(
                #[trigger] spec_encode_swapped(b)[i],
            ),
{
    lemma_key_name_shape(b.code);
    let name = spec_key_name(b.code);
    let bits = spec_modifier_bits(b.modifiers);
    assert(bits < 16);
    assert forall|i: int|
        0 <= i < spec_encode(b).len() implies !spec_is_ws(#[trigger] spec_encode(b)[i]) by {
        let dl = spec_dec(bits).len() as int;
        let nl = name.len() as int;
        if 22 + dl <= i < 22 + dl + nl {
            assert(spec_encode(b)[i] == name[i - 22 - dl]);
            assert(48 <= name[i - 22 - dl] <= 57 || 65 <= name[i - 22 - dl] <= 90 || 97 <= name[i
                - 22 - dl] <= 122);
        }
    }
    assert forall|i: int|
        0 <= i < spec_encode_swapped(b).len() implies !spec_is_ws(
        #[trigger] spec_encode_swapped(b)[i]) by {
        let dl = spec_dec(bits).len() as int;
        let nl = name.len() as int;
        if 9 <= i < 9 + nl {
            assert(spec_encode_swapped(b)[i] == name[i - 9]);
            assert(48 <= name[i - 9] <= 57 || 65 <= name[i - 9] <= 90 || 97 <= name[i - 9]
                <= 122);
        }
    }
}

/// Law: a saved binding loads back unchanged.  The config text of `b` — in
/// either field order — parses, and it parses to `b`.
pub proof fn lemma_save_load_round_trip(b: HotkeyBinding)
    ensures
        spec_parse(spec_encode(b)) == Some(b),
        spec_parse(spec_encode_swapped(b)) == Some(b),
        spec_load(Some(spec_encode(b))) == b,
{
    lemma_encodings_no_ws(b);
    lemma_strip_identity(spec_encode(b), false);
    lemma_strip_identity(spec_encode_swapped(b), false);
    assert(spec_accepts(spec_encode(b), b));
    assert(spec_accepts(spec_encode_swapped(b), b));
    let w1 = choose|bb: HotkeyBinding| spec_accepts(spec_encode(b), bb);
    lemma_accepts_unique(spec_encode(b), b, w1);
    let w2 = choose|bb: HotkeyBinding| spec_accepts(spec_encode_swapped(b), bb);
    lemma_accepts_unique(spec_encode_swapped(b), b, w2);
}

/// Law: a missing or malformed config file falls back to the built-in
/// default binding; loading never fails.
pub proof fn lemma_load_fallback(s: Seq<u8>)
    requires
        spec_parse(s) is None,
    ensures
        spec_load(Some(s)) == spec_default_binding(),
        spec_load(None) == spec_default_binding(),
{
}

/// The canonical config text that persists `b`.
pub fn encode_binding(b: &HotkeyBinding) -> (r: Vec<u8>)
    ensures
        r@ == spec_encode(*b),
{
    let mut v: Vec<u8> = Vec::new();
    v.push(123);
    v.push(34);
    v.push(109);
    v.push(111);
    v.push(100);
    v.push(105);
    v.push(102);
    v.push(105);
    v.push(101);
    v.push(114);
    v.push(115);
    v.push(34);
    v.push(58);
    let bits: u32 = b.modifiers.to_bits();
    if bits < 10 {
        v.push(48 + (bits as u8));
    } else {
        v.push(49);
        v.push(48 + ((bits as u8) - 10));
    }
    v.push(44);
    v.push(34);
    v.push(99);
    v.push(111);
    v.push(100);
    v.push(101);
    v.push(34);
    v.push(58);
    v.push(34);
    let mut name: Vec<u8> = b.code.name_bytes();
    v.append(&mut name);
    v.push(34);
    v.push(125);
    proof {
        assert(v@ =~= spec_encode(*b));
    }
    v
}

/// The swapped-order config text of `b`, used to recognize saved objects
/// whose fields stand in the other order.
fn encode_binding_swapped(b: &HotkeyBinding) -> (r: Vec<u8>)
    ensures
        r@ == spec_encode_swapped(*b),
{
    let mut v: Vec<u8> = Vec::new();
    v.push(123);
    v.push(34);
    v.push(99);
    v.push(111);
    v.push(100);
    v.push(101);
    v.push(34);
    v.push(58);
    v.push(34);
    let mut name: Vec<u8> = b.code.name_bytes();
    v.append(&mut name);
    v.push(34);
    v.push(44);
    v.push(34);
    v.push(109);
    v.push(111);
    v.push(100);
    v.push(105);
    v.push(102);
    v.push(105);
    v.push(101);
    v.push(114);
    v.push(115);
    v.push(34);
    v.push(58);
    let bits: u32 = b.modifiers.to_bits();
    if bits < 10 {
        v.push(48 + (bits as u8));
    } else {
        v.push(49);
        v.push(48 + ((bits as u8) - 10));
    }
    v.push(125);
    proof {
        assert(v@ =~= spec_encode_swapped(*b));
    }
    v
}

/// Drops the whitespace standing outside quoted strings.
fn strip_ws(s: &[u8]) -> (r: Vec<u8>)
    ensures
        r@ == spec_strip(s@, false),
{
    let mut out: Vec<u8> = Vec::new();
    let mut in_str: bool = false;
    let mut i: usize = 0;
    proof {
        assert(s@.skip(0) =~= s@);
        assert(Seq::<u8>::empty() + spec_strip(s@, false) =~= spec_strip(s@, false));
    }
    while i < s.len()
        invariant
            i <= s@.len(),
            spec_strip(s@, false) == out@ + spec_strip(s@.skip(i as int), in_str),
        decreases s@.len() - i,
    {
        let ghost prev_tail = s@.skip(i as int);
        let ghost prev_out = out@;
        let ghost prev_in = in_str;
        proof {
            assert(prev_tail[0] == s@[i as int]);
            assert(prev_tail.skip(1) =~= s@.skip(i as int + 1));
        }
        let c: u8 = s[i];
        if c == 34 {
            out.push(34);
            in_str = !in_str;
            proof {
                assert(out@ + spec_strip(s@.skip(i as int + 1), in_str) =~= prev_out + spec_strip(
                    prev_tail,
                    prev_in,
                ));
            }
        } else if !in_str && (c == 32 || c == 9 || c == 10 || c == 13) {
            proof {
                assert(out@ + spec_strip(s@.skip(i as int + 1), in_str) =~= prev_out + spec_strip(
                    prev_tail,
                    prev_in,
                ));
            }
        } else {
            out.push(c);
            proof {
                assert(out@ + spec_strip(s@.skip(i as int + 1), in_str) =~= prev_out + spec_strip(
                    prev_tail,
                    prev_in,
                ));
            }
        }
        i = i + 1;
    }
    proof {
        assert(s@.skip(s@.len() as int) =~= Seq::<u8>::empty());
        assert(out@ + spec_strip(s@.skip(i as int), in_str) =~= out@);
    }
    out
}

/// Decodes a whitespace-free text as the canonical field order.  The
/// candidate binding is read off the digit and name positions, re-encoded,
/// and the text accepted only when it is that binding's canonical text.
#[verifier::spinoff_prover]
#[verifier::rlimit(100)]
fn parse_canonical(t: &[u8]) -> (r: Option<HotkeyBinding>)
    ensures
        r matches Some(b) ==> t@ == spec_encode(b),
        r is None ==> (forall|b: HotkeyBinding| t@ != spec_encode(b)),
{
    let n: usize = t.len();
    if n < 27 || n > 40 {
        proof {
            assert forall|b: HotkeyBinding| t@ != spec_encode(b) by {
                lemma_canonical_layout(b);
            }
        }
        return None;
    }
    if !(48 <= t[13] && t[13] <= 57) {
        proof {
            assert forall|b: HotkeyBinding| t@ != spec_encode(b) by {
                if t@ == spec_encode(b) {
                    lemma_canonical_layout(b);
                    assert(false);
                }
            }
        }
        return None;
    }
    let two_digits: bool = 48 <= t[14] && t[14] <= 57;
    let dlen: usize = if two_digits {
        2
    } else {
        1
    };
    if two_digits && !(t[13] == 49 && t[14] <= 53) {
        proof {
            assert forall|b: HotkeyBinding| t@ != spec_encode(b) by {
                if t@ == spec_encode(b) {
                    lemma_canonical_layout(b);
                    assert(false);
                }
            }
        }
        return None;
    }
    let bits: u32 = if two_digits {
        (10 + (t[14] - 48)) as u32
    } else {
        (t[13] - 48) as u32
    };
    let nlen: usize = n - 24 - dlen;
    let name_part: &[u8] = slice_subrange(t, 22 + dlen, 22 + dlen + nlen);
    match KeyCode::parse_name(name_part) {
        None => {
            proof {
                assert forall|b: HotkeyBinding| t@ != spec_encode(b) by {
                    if t@ == spec_encode(b) {
                        lemma_canonical_layout(b);
                        assert(spec_key_name(b.code) =~= name_part@);
                        assert(false);
                    }
                }
            }
            None
        },
        Some(code) => {
            match Modifiers::from_bits(bits) {
                None => {
                    proof {
                        assert(false);
                    }
                    None
                },
                Some(m) => {
                    let b = HotkeyBinding { modifiers: m, code };
                    let e: Vec<u8> = encode_binding(&b);
                    if bytes_equal(e.as_slice(), t) {
                        Some(b)
                    } else {
                        proof {
                            assert forall|bb: HotkeyBinding| t@ != spec_encode(bb) by {
                                if t@ == spec_encode(bb) {
                                    lemma_canonical_layout(bb);
                                    assert(spec_key_name(bb.code) =~= name_part@);
                                    lemma_key_name_injective(bb.code, code);
                                    crate::hotkey::lemma_modifier_bits_round_trip(bb.modifiers);
                                    crate::hotkey::lemma_modifier_bits_round_trip(m);
                                    assert(bb.modifiers == m);
                                    assert(false);
                                }
                            }
                        }
                        None
                    }
                },
            }
        },
    }
}

/// The quote-scan facts parse_swapped establishes: no quote from position 9
/// up to `q`, and a quote at `q` where the scan stopped inside the text.
spec fn spec_quote_scan(t: Seq<u8>, q: int) -> bool {
    &&& 9 <= q <= t.len()
    &&& (forall|j: int| 9 <= j < q ==> t[j] != 34)
    &&& (q < t.len() ==> t[q] == 34)
}

/// In a swapped-order text the scan stops exactly at the name's closing
/// quote.
proof fn lemma_swapped_scan_stops(t: Seq<u8>, q: int, b: HotkeyBinding)
    requires
        spec_quote_scan(t, q),
        t == spec_encode_swapped(b),
    ensures
        q == 9 + spec_key_name(b.code).len(),
{
    lemma_swapped_layout(b);
    let nl = spec_key_name(b.code).len() as int;
    assert(t[9 + nl] == 34);
    if q < 9 + nl {
        assert(t[q] != 34);
        assert(q < t.len());
    }
    if q > 9 + nl {
        assert(t[9 + nl] != 34);
    }
}

/// No swapped-order text lets the quote scan stop outside 11..=23.
proof fn lemma_swapped_quote_mismatch(t: Seq<u8>, q: int)
    requires
        spec_quote_scan(t, q),
        q >= t.len() || q < 11 || q > 23,
    ensures
        forall|b: HotkeyBinding| t != spec_encode_swapped(b),
{
    assert forall|b: HotkeyBinding| t != spec_encode_swapped(b) by {
        if t == spec_encode_swapped(b) {
            lemma_swapped_layout(b);
            lemma_swapped_scan_stops(t, q, b);
            assert(false);
        }
    }
}

/// No swapped-order text has a length other than name, punctuation and one
/// or two digits.
proof fn lemma_swapped_len_mismatch(t: Seq<u8>, q: int)
    requires
        spec_quote_scan(t, q),
        t.len() < 25 + (q - 9) || t.len() > 26 + (q - 9),
    ensures
        forall|b: HotkeyBinding| t != spec_encode_swapped(b),
{
    assert forall|b: HotkeyBinding| t != spec_encode_swapped(b) by {
        if t == spec_encode_swapped(b) {
            lemma_swapped_layout(b);
            lemma_swapped_scan_stops(t, q, b);
            assert(false);
        }
    }
}

/// No swapped-order text carries anything but canonical decimal digits in
/// the bitmask position.
proof fn lemma_swapped_digits_mismatch(t: Seq<u8>, q: int, dlen: int)
    requires
        spec_quote_scan(t, q),
        t.len() == 24 + dlen + (q - 9),
        dlen == 1 || dlen == 2,
        dlen == 1 ==> !(48 <= t[23 + (q - 9)] <= 57),
        dlen == 2 ==> !(t[23 + (q - 9)] == 49 && 48 <= t[24 + (q - 9)] <= 53),
    ensures
        forall|b: HotkeyBinding| t != spec_encode_swapped(b),
{
    assert forall|b: HotkeyBinding| t != spec_encode_swapped(b) by {
        if t == spec_encode_swapped(b) {
            lemma_swapped_layout(b);
            lemma_swapped_scan_stops(t, q, b);
            assert(false);
        }
    }
}

/// No swapped-order text carries anything but a recognized key name between
/// the quotes.
proof fn lemma_swapped_name_mismatch(t: Seq<u8>, q: int)
    requires
        spec_quote_scan(t, q),
        forall|k: KeyCode| spec_key_name(k) != t.subrange(9, q),
    ensures
        forall|b: HotkeyBinding| t != spec_encode_swapped(b),
{
    assert forall|b: HotkeyBinding| t != spec_encode_swapped(b) by {
        if t == spec_encode_swapped(b) {
            lemma_swapped_layout(b);
            lemma_swapped_scan_stops(t, q, b);
            assert(spec_key_name(b.code) =~= t.subrange(9, q));
            assert(false);
        }
    }
}

/// A text that determines the candidate binding `b` in its name and digit
/// positions, yet is not `b`'s own swapped-order text, is nobody's.
proof fn lemma_swapped_reencode_mismatch(t: Seq<u8>, q: int, b: HotkeyBinding)
    requires
        spec_quote_scan(t, q),
        t.len() == 24 + spec_dec(spec_modifier_bits(b.modifiers)).len() + (q - 9),
        spec_key_name(b.code) == t.subrange(9, q),
        ({
            let dl = spec_dec(spec_modifier_bits(b.modifiers)).len() as int;
            &&& (dl == 1 ==> spec_modifier_bits(b.modifiers) == t[23 + (q - 9)] - 48)
            &&& (dl == 2 ==> spec_modifier_bits(b.modifiers) == 10 + (t[24 + (q - 9)] - 48))
        }),
        t != spec_encode_swapped(b),
    ensures
        forall|bb: HotkeyBinding| t != spec_encode_swapped(bb),
{
    assert forall|bb: HotkeyBinding| t != spec_encode_swapped(bb) by {
        if t == spec_encode_swapped(bb) {
            lemma_swapped_layout(bb);
            lemma_swapped_scan_stops(t, q, bb);
            assert(spec_key_name(bb.code) =~= t.subrange(9, q));
            lemma_key_name_injective(bb.code, b.code);
            crate::hotkey::lemma_modifier_bits_round_trip(bb.modifiers);
            crate::hotkey::lemma_modifier_bits_round_trip(b.modifiers);
            assert(bb.modifiers == b.modifiers);
            assert(false);
        }
    }
}

/// Decodes a whitespace-free text as the swapped field order: the key name
/// is delimited by the first quote after the opening, then the bitmask
/// follows.  As for the canonical order, the candidate is re-encoded and
/// compared.
#[verifier::spinoff_prover]
#[verifier::rlimit(60)]
fn parse_swapped(t: &[u8]) -> (r: Option<HotkeyBinding>)
    ensures
        r matches Some(b) ==> t@ == spec_encode_swapped(b),
        r is None ==> (forall|b: HotkeyBinding| t@ != spec_encode_swapped(b)),
{
    let n: usize = t.len();
    if n < 27 || n > 40 {
        proof {
            assert forall|b: HotkeyBinding| t@ != spec_encode_swapped(b) by {
                lemma_swapped_layout(b);
            }
        }
        return None;
    }
    let mut q: usize = 9;
    while q < n && t[q] != 34
        invariant
            9 <= q <= n,
            n == t@.len(),
            forall|j: int| 9 <= j < q ==> t@[j] != 34,
        decreases n - q,
    {
        q = q + 1;
    }
    if q >= n || q < 11 || q > 23 {
        proof {
            lemma_swapped_quote_mismatch(t@, q as int);
        }
        return None;
    }
    let nlen: usize = q - 9;
    if n < 25 + nlen || n > 26 + nlen {
        proof {
            lemma_swapped_len_mismatch(t@, q as int);
        }
        return None;
    }
    let dlen: usize = n - 24 - nlen;
    let name_part: &[u8] = slice_subrange(t, 9, q);
    let digits_ok: bool = if dlen == 1 {
        48 <= t[23 + nlen] && t[23 + nlen] <= 57
    } else {
        t[23 + nlen] == 49 && 48 <= t[24 + nlen] && t[24 + nlen] <= 53
    };
    if !digits_ok {
        proof {
            lemma_swapped_digits_mismatch(t@, q as int, dlen as int);
        }
        return None;
    }
    let bits: u32 = if dlen == 1 {
        (t[23 + nlen] - 48) as u32
    } else {
        (10 + (t[24 + nlen] - 48)) as u32
    };
    match KeyCode::parse_name(name_part) {
        None => {
            proof {
                lemma_swapped_name_mismatch(t@, q as int);
            }
            None
        },
        Some(code) => {
            match Modifiers::from_bits(bits) {
                None => {
                    proof {
                        assert(false);
                    }
                    None
                },
                Some(m) => {
                    let b = HotkeyBinding { modifiers: m, code };
                    let e: Vec<u8> = encode_binding_swapped(&b);
                    if bytes_equal(e.as_slice(), t) {
                        Some(b)
                    } else {
                        proof {
                            lemma_swapped_reencode_mismatch(t@, q as int, b);
                        }
                        None
                    }
                },
            }
        },
    }
}

/// Decodes a config text.  Exactly the texts that spell a binding's config
/// object — either field order, any insignificant whitespace — are accepted;
/// anything else yields `None`.
pub fn parse_binding(s: &[u8]) -> (r: Option<HotkeyBinding>)
    ensures
        r == spec_parse(s@),
{
    let stripped: Vec<u8> = strip_ws(s);
    let t: &[u8] = stripped.as_slice();
    match parse_canonical(t) {
        Some(b) => {
            proof {
                assert(spec_accepts(s@, b));
                let w = choose|bb: HotkeyBinding| spec_accepts(s@, bb);
                lemma_accepts_unique(s@, b, w);
            }
            Some(b)
        },
        None => {
            match parse_swapped(t) {
                Some(b) => {
                    proof {
                        assert(spec_accepts(s@, b));
                        let w = choose|bb: HotkeyBinding| spec_accepts(s@, bb);
                        lemma_accepts_unique(s@, b, w);
                    }
                    Some(b)
                },
                None => {
                    proof {
                        assert(forall|b: HotkeyBinding| !spec_accepts(s@, b));
                    }
                    None
                },
            }
        },
    }
}

/// The binding a config file's content denotes: the saved binding where the
/// content spells one, and the built-in default where the file is missing
/// (`None`) or holds anything else.
pub fn load_binding(content: Option<&[u8]>) -> (b: HotkeyBinding)
    ensures
        content is None ==> b == spec_default_binding(),
        content matches Some(s) ==> b == spec_load(Some(s@)),
{
    match content {
        None => crate::hotkey::default_binding(),
        Some(s) => {
            match parse_binding(s) {
                Some(b) => b,
                None => crate::hotkey::default_binding(),
            }
        },
    }
}

} // verus!
