//! Decoder for the variable-length integers and length-prefixed strings
//! that the wire format embeds in generic attribute records.
//!
//! An integer is encoded base 128, least significant group first; every
//! byte but the last carries a continuation bit. An encoding is accepted
//! when it terminates within ten bytes and its value fits in 64 bits, so
//! a decoded value never loses bits. A string is a varint byte count
//! followed by that many bytes of UTF-8.

use vstd::prelude::*;
use vstd::utf8::*;

verus! {

/// Value of the varint starting at index `i`, ignoring any width cap.
pub open spec fn varint_value_from(s: Seq<u8>, i: int) -> Option<int>
    decreases s.len() - i,
{
    if i < 0 || i >= s.len() {
        None
    } else if s[i] < 0x80 {
        Some(s[i] as int)
    } else {
        match varint_value_from(s, i + 1) {
            None => None,
            Some(v) => Some((s[i] - 0x80) + 128 * v),
        }
    }
}

/// Index one past the varint's final byte, starting at index `i`.
pub open spec fn varint_end_from(s: Seq<u8>, i: int) -> Option<int>
    decreases s.len() - i,
{
    if i < 0 || i >= s.len() {
        None
    } else if s[i] < 0x80 {
        Some(i + 1)
    } else {
        varint_end_from(s, i + 1)
    }
}

pub open spec fn varint_value(s: Seq<u8>) -> Option<int> {
    varint_value_from(s, 0)
}

pub open spec fn varint_end(s: Seq<u8>) -> Option<int> {
    varint_end_from(s, 0)
}

/// A varint at the front of `s` that this decoder accepts: it terminates
/// within ten bytes, and a tenth byte contributes at most one bit, so the
/// value fits in a `u64`.
pub open spec fn varint_ok(s: Seq<u8>) -> bool {
    match varint_end(s) {
        Some(e) => e <= 10 && (e == 10 ==> s[9] <= 1),
        None => false,
    }
}

/// 128 raised to `n`: the weight of the `n`-th encoded group.
pub open spec fn pow128(n: nat) -> int
    decreases n,
{
    if n == 0 {
        1
    } else {
        128 * pow128((n - 1) as nat)
    }
}

proof fn lemma_pow128_pos(n: nat)
    ensures
        pow128(n) >= 1,
    decreases n,
{
    if n > 0 {
        lemma_pow128_pos((n - 1) as nat);
    }
}

proof fn lemma_pow128_le(a: nat, b: nat)
    requires
        a <= b,
    ensures
        pow128(a) <= pow128(b),
    decreases b,
{
    if a < b {
        lemma_pow128_le(a, (b - 1) as nat);
        lemma_pow128_pos((b - 1) as nat);
    }
}

proof fn lemma_varint_end_from_bound(s: Seq<u8>, i: int)
    requires
        varint_end_from(s, i) is Some,
    ensures
        i < varint_end_from(s, i)->Some_0 <= s.len(),
    decreases s.len() - i,
{
    if !(i < 0 || i >= s.len()) && s[i] >= 0x80 {
        lemma_varint_end_from_bound(s, i + 1);
    }
}

/// Reads the varint at the front of `bytes`, returning its value and the
/// number of bytes consumed, or `None` on a malformed or oversized
/// encoding.
pub fn decode_varint(bytes: &[u8]) -> (r: Option<(u64, usize)>)
    ensures
        match r {
            Some((v, n)) => {
                &&& varint_ok(bytes@)
                &&& varint_value(bytes@) == Some(v as int)
                &&& varint_end(bytes@) == Some(n as int)
            },
            None => !varint_ok(bytes@),
        },
{
    let ghost s = bytes@;
    let mut i: usize = 0;
    let mut acc: u64 = 0;
    let mut mult: u64 = 1;
    while i < bytes.len()
        invariant
            0 <= i <= 9,
            i <= s.len(),
            s == bytes@,
            mult == pow128(i as nat),
            acc < mult,
            varint_end(s) == varint_end_from(s, i as int),
            match varint_value_from(s, i as int) {
                None => varint_value(s) is None,
                Some(v) => varint_value(s) == Some(acc + mult * v),
            },
        decreases s.len() - i,
    {
        let b = bytes[i];
        proof {
            reveal_with_fuel(pow128, 11);
            if i <= 8 {
                lemma_pow128_le(i as nat, 8);
                assert(pow128(8) == 0x100_0000_0000_0000);
            } else {
                assert(pow128(9) == 0x8000_0000_0000_0000);
            }
        }
        if b < 0x80 {
            if i == 9 && b > 1 {
                return None;
            }
            proof {
                assert(varint_value_from(s, i as int) == Some(b as int));
                assert(mult * (b as int) <= mult * 127) by (nonlinear_arith)
                    requires
                        0 <= b < 0x80,
                        mult >= 1,
                ;
                if i == 9 {
                    assert(mult * (b as int) <= mult) by (nonlinear_arith)
                        requires
                            0 <= b <= 1,
                            mult >= 1,
                    ;
                }
            }
            let v: u64 = acc + mult * (b as u64);
            return Some((v, i + 1));
        }
        if i == 9 {
            proof {
                if varint_end_from(s, 10) is Some {
                    lemma_varint_end_from_bound(s, 10);
                }
            }
            return None;
        }
        let low: u64 = (b - 0x80) as u64;
        proof {
            lemma_pow128_pos(i as nat);
            assert(mult * low <= mult * 127 && (acc + mult * low) + mult * 127 < mult * 256)
                by (nonlinear_arith)
                requires
                    0 <= low <= 127,
                    mult >= 1,
                    acc < mult,
            ;
            let v_next = varint_value_from(s, i + 1);
            if v_next is Some {
                assert(varint_value_from(s, i as int) == Some(
                    (s[i as int] - 0x80) + 128 * v_next->Some_0,
                ));
                assert(acc + mult * ((low as int) + 128 * v_next->Some_0) == (acc + mult * low)
                    + (mult * 128) * v_next->Some_0) by (nonlinear_arith);
            }
        }
        acc = acc + mult * low;
        mult = mult * 128;
        i = i + 1;
    }
    None
}

/// The byte payload of the length-prefixed string at the front of `s`.
pub open spec fn string_payload(s: Seq<u8>) -> Option<Seq<u8>> {
    if varint_ok(s) {
        let e = varint_end(s)->Some_0;
        let n = varint_value(s)->Some_0;
        if e + n <= s.len() {
            Some(s.subrange(e, e + n))
        } else {
            None
        }
    } else {
        None
    }
}

/// The character content of the length-prefixed string at the front of
/// `s`, when the length is well formed and the payload is valid UTF-8.
pub open spec fn decoded_string(s: Seq<u8>) -> Option<Seq<char>> {
    match string_payload(s) {
        Some(p) => if valid_utf8(p) {
            Some(decode_utf8(p))
        } else {
            None
        },
        None => None,
    }
}

/// Relies on `String::from_utf8`: it succeeds exactly on valid UTF-8 and
/// returns the string those bytes encode.
#[verifier::external_body]
fn utf8_to_string(bytes: Vec<u8>) -> (r: Option<String>)
    ensures
        match r {
            Some(out) => valid_utf8(bytes@) && out@ == decode_utf8(bytes@),
            None => !valid_utf8(bytes@),
        },
{
    match String::from_utf8(bytes) {
        Ok(out) => Some(out),
        Err(_) => None,
    }
}

/// Reads the length-prefixed UTF-8 string at the front of `bytes`;
/// `None` on a malformed length, a short payload, or invalid UTF-8.
pub fn read_string(bytes: &[u8]) -> (r: Option<String>)
    ensures
        match r {
            Some(out) => decoded_string(bytes@) == Some(out@),
            None => decoded_string(bytes@) is None,
        },
{
    let (len64, start) = match decode_varint(bytes) {
        Some(p) => p,
        None => {
            return None;
        },
    };
    proof {
        lemma_varint_end_from_bound(bytes@, 0);
    }
    if len64 > (bytes.len() - start) as u64 {
        return None;
    }
    let len = len64 as usize;
    let mut payload: Vec<u8> = Vec::new();
    let mut k: usize = 0;
    while k < len
        invariant
            0 <= k <= len,
            start + len <= bytes.len(),
            payload@ == bytes@.subrange(start as int, start + k),
        decreases len - k,
    {
        payload.push(bytes[start + k]);
        proof {
            assert(payload@ == bytes@.subrange(start as int, start + k + 1));
        }
        k = k + 1;
    }
    utf8_to_string(payload)
}

/// The low 32 bits of `v`, reinterpreted as a signed value: how decoded
/// attribute integers are narrowed before they are stored.
pub open spec fn i32_of_u64(v: u64) -> int {
    let m = (v as int) % 0x1_0000_0000;
    if m < 0x8000_0000 {
        m
    } else {
        m - 0x1_0000_0000
    }
}

/// Narrows a decoded varint to the 32-bit signed range, keeping the low
/// bits.
pub fn u64_to_i32(v: u64) -> (r: i32)
    ensures
        r as int == i32_of_u64(v),
{
    let low: u64 = v & 0xFFFF_FFFF;
    proof {
        assert(low == v % 0x1_0000_0000) by (bit_vector)
            requires
                low == v & 0xFFFF_FFFF,
        ;
    }
    if low < 0x8000_0000 {
        low as i32
    } else {
        ((low as i64) - 0x1_0000_0000) as i32
    }
}

} // verus!
