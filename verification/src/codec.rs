//! Byte-level decoding for the protocol layer: strict percent-decoding and
//! UTF-8 validation of a decoded request path.

use vstd::prelude::*;
use vstd::utf8::{decode_utf8, valid_utf8};

verus! {

/// Whether `b` is an ASCII hexadecimal digit.
pub open spec fn is_hex_digit(b: u8) -> bool {
    (48 <= b <= 57) || (65 <= b <= 70) || (97 <= b <= 102)
}

/// The value of an ASCII hexadecimal digit.
pub open spec fn hex_val(b: u8) -> nat
    recommends
        is_hex_digit(b),
{
    if 48 <= b <= 57 {
        (b - 48) as nat
    } else if 65 <= b <= 70 {
        (b - 55) as nat
    } else {
        (b - 87) as nat
    }
}

/// Strict percent-decoding: every `%` must introduce exactly two hexadecimal
/// digits, which decode to one byte; every other byte stands for itself.
/// A `%` followed by anything else makes the whole input malformed.
pub open spec fn percent_decoded(s: Seq<u8>) -> Option<Seq<u8>>
    decreases s.len(),
{
    if s.len() == 0 {
        Some(Seq::<u8>::empty())
    } else if s[0] == '%' as u8 {
        if s.len() >= 3 && is_hex_digit(s[1]) && is_hex_digit(s[2]) {
            match percent_decoded(s.skip(3)) {
                Some(rest) => Some(seq![(hex_val(s[1]) * 16 + hex_val(s[2])) as u8] + rest),
                None => None,
            }
        } else {
            None
        }
    } else {
        match percent_decoded(s.skip(1)) {
            Some(rest) => Some(seq![s[0]] + rest),
            None => None,
        }
    }
}

/// The value of one hexadecimal digit, or `None` for any other byte.
fn hex_digit_value(b: u8) -> (r: Option<u8>)
    ensures
        r matches Some(v) ==> is_hex_digit(b) && v == hex_val(b) && v < 16,
        r is None <==> !is_hex_digit(b),
{
    if 48 <= b && b <= 57 {
        Some(b - 48)
    } else if 65 <= b && b <= 70 {
        Some(b - 55)
    } else if 97 <= b && b <= 102 {
        Some(b - 87)
    } else {
        None
    }
}

/// Decodes the suffix of `s` starting at `i`, appending to `out`.
fn decode_from(s: &Vec<u8>, i: usize, out: &mut Vec<u8>) -> (ok: bool)
    requires
        i <= s@.len(),
    ensures
        ok <==> percent_decoded(s@.skip(i as int)) is Some,
        percent_decoded(s@.skip(i as int)) matches Some(d) ==> final(out)@ == old(out)@ + d,
    decreases s@.len() - i,
{
    let ghost tail = s@.skip(i as int);
    if i == s.len() {
        proof {
            assert(tail =~= Seq::<u8>::empty());
        }
        return true;
    }
    proof {
        assert(tail[0] == s@[i as int]);
    }
    let b = s[i];
    if b == 37 {
        if s.len() - i >= 3 {
            proof {
                assert(tail[1] == s@[i + 1]);
                assert(tail[2] == s@[i + 2]);
            }
            let h1 = hex_digit_value(s[i + 1]);
            let h2 = hex_digit_value(s[i + 2]);
            match (h1, h2) {
                (Some(v1), Some(v2)) => {
                    out.push(v1 * 16 + v2);
                    let r = decode_from(s, i + 3, out);
                    proof {
                        assert(tail.skip(3) =~= s@.skip(i + 3));
                        match percent_decoded(tail) {
                            Some(d) => {
                                assert(out@ =~= old(out)@ + d);
                            },
                            None => {},
                        }
                    }
                    r
                },
                _ => false,
            }
        } else {
            false
        }
    } else {
        out.push(b);
        let r = decode_from(s, i + 1, out);
        proof {
            assert(tail.skip(1) =~= s@.skip(i + 1));
            match percent_decoded(tail) {
                Some(d) => {
                    assert(out@ =~= old(out)@ + d);
                },
                None => {},
            }
        }
        r
    }
}

/// Strictly percent-decodes the bytes of `s` from `start` on; `None`
/// exactly on malformed input.
pub fn percent_decode_tail(s: &Vec<u8>, start: usize) -> (r: Option<Vec<u8>>)
    requires
        start <= s@.len(),
    ensures
        r matches Some(d) ==> percent_decoded(s@.skip(start as int)) matches Some(sd) && d@ == sd,
        r is None <==> percent_decoded(s@.skip(start as int)) is None,
{
    let mut out: Vec<u8> = Vec::new();
    let ok = decode_from(s, start, &mut out);
    if ok {
        Some(out)
    } else {
        None
    }
}

/// Strictly percent-decodes `s`; `None` exactly on malformed input.
pub fn percent_decode(s: &Vec<u8>) -> (r: Option<Vec<u8>>)
    ensures
        r matches Some(d) ==> percent_decoded(s@) matches Some(sd) && d@ == sd,
        r is None <==> percent_decoded(s@) is None,
{
    let r = percent_decode_tail(s, 0);
    proof {
        assert(s@.skip(0) =~= s@);
    }
    r
}

/// Relies on String::from_utf8, which succeeds exactly on UTF-8 encoded
/// bytes and decodes them to the characters they encode.
#[verifier::external_body]
pub(crate) fn string_from_utf8(v: Vec<u8>) -> (r: Option<String>)
    ensures
        r matches Some(s) ==> valid_utf8(v@) && s@ == decode_utf8(v@),
        r is None <==> !valid_utf8(v@),
{
    match String::from_utf8(v) {
        Ok(s) => Some(s),
        Err(_) => None,
    }
}

} // verus!
