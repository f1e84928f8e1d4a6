//! Marshalling of values that cross the native callback boundary: UTF-16
//! text decoding for inbound text, and clamping of signed length arguments.
//!
//! Inbound native text arrives as UTF-16 code-unit arrays.  Decoding is
//! strict: a lone or out-of-order surrogate makes the whole buffer
//! malformed, and a malformed buffer is reported rather than passed on
//! lossily.

use vstd::prelude::*;

verus! {

/// A high (leading) UTF-16 surrogate code unit.
pub open spec fn is_high_surrogate(u: u16) -> bool {
    0xD800 <= u && u <= 0xDBFF
}

/// A low (trailing) UTF-16 surrogate code unit.
pub open spec fn is_low_surrogate(u: u16) -> bool {
    0xDC00 <= u && u <= 0xDFFF
}

/// Any UTF-16 surrogate code unit.
pub open spec fn is_surrogate(u: u16) -> bool {
    is_high_surrogate(u) || is_low_surrogate(u)
}

/// The Unicode scalar value encoded by a surrogate pair.
pub open spec fn combined_scalar(hi: u16, lo: u16) -> u32
    recommends
        is_high_surrogate(hi),
        is_low_surrogate(lo),
{
    (0x10000 + (hi - 0xD800) * 0x400 + (lo - 0xDC00)) as u32
}

/// The strict decoding of a UTF-16 code-unit sequence: `Some` of the
/// character sequence when every unit is either a non-surrogate or the
/// start of a well-formed surrogate pair, `None` as soon as a lone or
/// out-of-order surrogate appears.
pub open spec fn utf16_decode(units: Seq<u16>) -> Option<Seq<char>>
    decreases units.len(),
{
    if units.len() == 0 {
        Some(Seq::empty())
    } else if !is_surrogate(units[0]) {
        match utf16_decode(units.skip(1)) {
            Some(rest) => Some(seq![(units[0] as u32) as char] + rest),
            None => None,
        }
    } else if is_high_surrogate(units[0]) && units.len() >= 2 && is_low_surrogate(units[1]) {
        match utf16_decode(units.skip(2)) {
            Some(rest) => Some(seq![combined_scalar(units[0], units[1]) as char] + rest),
            None => None,
        }
    } else {
        None
    }
}

/// The decoding of a whole buffer, split as an already-decoded prefix and
/// the decoding of the remaining units.
spec fn prepend_decoded(prefix: Seq<char>, rest: Option<Seq<char>>) -> Option<Seq<char>> {
    match rest {
        Some(cs) => Some(prefix + cs),
        None => None,
    }
}

/// Relies on char::from_u32: it returns `Some` exactly for code points
/// below 0x110000 that are not UTF-16 surrogates, and the character is
/// that code point.
#[verifier::external_body]
fn char_from_code(code: u32) -> (r: Option<char>)
    ensures
        r is Some <==> (code < 0xD800 || (0xDFFF < code && code <= 0x10FFFF)),
        r matches Some(c) ==> c as u32 == code,
{
    char::from_u32(code)
}

/// Relies on String's FromIterator implementation over char: collecting a
/// vector of characters yields a string holding exactly that character
/// sequence.
#[verifier::external_body]
pub(crate) fn string_from_chars(chars: Vec<char>) -> (r: String)
    ensures
        r@ == chars@,
{
    String::from_iter(chars)
}

/// Decode a UTF-16 code-unit buffer strictly, returning `None` on any
/// lone or out-of-order surrogate.
pub fn decode_utf16(units: &[u16]) -> (r: Option<Vec<char>>)
    ensures
        r matches Some(cs) ==> utf16_decode(units@) == Some(cs@),
        r is None ==> utf16_decode(units@) is None,
{
    let len = units.len();
    let mut out: Vec<char> = Vec::new();
    let mut i: usize = 0;
    proof {
        assert(units@.skip(0) =~= units@);
        match utf16_decode(units@) {
            Some(cs) => {
                assert(Seq::<char>::empty() + cs =~= cs);
            },
            None => {},
        }
    }
    while i < len
        invariant
            i <= len,
            len == units@.len(),
            utf16_decode(units@) == prepend_decoded(out@, utf16_decode(units@.skip(i as int))),
        decreases len - i,
    {
        let u = units[i];
        if !(0xD800 <= u && u <= 0xDFFF) {
            let c = match char_from_code(u as u32) {
                Some(c) => c,
                None => vstd::pervasive::unreached(),
            };
            proof {
                let s = units@;
                let tail = s.skip(i as int);
                assert(tail[0] == s[i as int]);
                assert(tail.skip(1) =~= s.skip(i as int + 1));
                vstd::utf8::char_u32_cast(c, u as u32);
                assert(utf16_decode(tail) == prepend_decoded(
                    seq![c],
                    utf16_decode(s.skip(i as int + 1)),
                ));
                assert forall|rest: Seq<char>|
                    out@ + (seq![c] + rest) =~= (out@ + seq![c]) + rest by {};
                assert(prepend_decoded(out@, utf16_decode(tail)) == prepend_decoded(
                    out@ + seq![c],
                    utf16_decode(s.skip(i as int + 1)),
                ));
            }
            out.push(c);
            i = i + 1;
        } else if 0xD800 <= u && u <= 0xDBFF && i + 1 < len && 0xDC00 <= units[i + 1]
            && units[i + 1] <= 0xDFFF {
            let lo = units[i + 1];
            let code: u32 = 0x10000 + (u as u32 - 0xD800) * 0x400 + (lo as u32 - 0xDC00);
            let c = match char_from_code(code) {
                Some(c) => c,
                None => vstd::pervasive::unreached(),
            };
            proof {
                let s = units@;
                let tail = s.skip(i as int);
                assert(tail[0] == s[i as int]);
                assert(tail[1] == s[i as int + 1]);
                assert(tail.skip(2) =~= s.skip(i as int + 2));
                assert(code == combined_scalar(s[i as int], s[i as int + 1]));
                vstd::utf8::char_u32_cast(c, code);
                assert(utf16_decode(tail) == prepend_decoded(
                    seq![c],
                    utf16_decode(s.skip(i as int + 2)),
                ));
                assert forall|rest: Seq<char>|
                    out@ + (seq![c] + rest) =~= (out@ + seq![c]) + rest by {};
                assert(prepend_decoded(out@, utf16_decode(tail)) == prepend_decoded(
                    out@ + seq![c],
                    utf16_decode(s.skip(i as int + 2)),
                ));
            }
            out.push(c);
            i = i + 2;
        } else {
            proof {
                let s = units@;
                let tail = s.skip(i as int);
                assert(tail[0] == s[i as int]);
                if is_high_surrogate(s[i as int]) && tail.len() >= 2 {
                    assert(tail[1] == s[i as int + 1]);
                }
                assert(utf16_decode(tail) is None);
            }
            return None;
        }
    }
    proof {
        assert(units@.skip(len as int) =~= Seq::<u16>::empty());
        assert(utf16_decode(units@.skip(len as int)) == Some(Seq::<char>::empty()));
        assert(out@ + Seq::<char>::empty() =~= out@);
    }
    Some(out)
}

/// How a signed native length argument is delivered to the application:
/// negative lengths are clamped to zero, never wrapped.
pub open spec fn spec_clamp_count(length: i32) -> usize {
    if length < 0 {
        0
    } else {
        length as usize
    }
}

/// Clamp a signed native length to a non-negative count.
pub fn clamp_count(length: i32) -> (r: usize)
    ensures
        r == spec_clamp_count(length),
{
    if length < 0 {
        0
    } else {
        length as usize
    }
}

} // verus!
