//! Hexadecimal encoding and decoding of byte sequences.
//!
//! The decoder accepts upper- and lower-case digits; the canonical
//! encoding, over which round trips are stated, uses lower-case digits.
//! One byte always corresponds to exactly two digits: a string of odd
//! length is rejected, never padded.

use vstd::prelude::*;
use vstd::string::*;

use crate::error::Error;

verus! {

/// Whether `c` is an ASCII hexadecimal digit, of either case.
pub open spec fn is_hex_digit(c: char) -> bool {
    ||| '0' <= c && c <= '9'
    ||| 'a' <= c && c <= 'f'
    ||| 'A' <= c && c <= 'F'
}

/// Numeric value of a hexadecimal digit (0 for any other character).
pub open spec fn hex_val(c: char) -> u8 {
    if '0' <= c && c <= '9' {
        (c as u32 - '0' as u32) as u8
    } else if 'a' <= c && c <= 'f' {
        (c as u32 - 'a' as u32 + 10) as u8
    } else if 'A' <= c && c <= 'F' {
        (c as u32 - 'A' as u32 + 10) as u8
    } else {
        0
    }
}

/// The byte sequence a hex string denotes: one byte per digit pair.
pub open spec fn hex_bytes(s: Seq<char>) -> Seq<u8> {
    Seq::new((s.len() / 2) as nat, |i: int| (16 * hex_val(s[2 * i]) + hex_val(s[2 * i + 1])) as u8)
}

/// A decodable hex string: even length, hexadecimal digits throughout.
pub open spec fn valid_hex(s: Seq<char>) -> bool {
    &&& s.len() % 2 == 0
    &&& forall|i: int| 0 <= i < s.len() ==> is_hex_digit(#[trigger] s[i])
}

/// Lower-case digit character for a value below 16.
pub open spec fn hex_digit_char(v: u8) -> char {
    if v < 10 {
        (v + '0' as u32) as char
    } else {
        (v - 10 + 'a' as u32) as char
    }
}

/// The lower-case hex string denoting a byte sequence: two digits per byte.
pub open spec fn hex_chars(bytes: Seq<u8>) -> Seq<char> {
    Seq::new(2 * bytes.len(), |i: int| {
        if i % 2 == 0 {
            hex_digit_char(bytes[i / 2] / 16)
        } else {
            hex_digit_char(bytes[i / 2] % 16)
        }
    })
}

/// Numeric value of one hex digit, `None` for any other character.
fn hex_digit_val(c: char) -> (r: Option<u8>)
    ensures
        r is Some <==> is_hex_digit(c),
        r is Some ==> r->0 == hex_val(c) && r->0 < 16,
{
    let u: u32 = c as u32;
    if 48 <= u && u <= 57 {
        Some((u - 48) as u8)
    } else if 97 <= u && u <= 102 {
        Some((u - 97 + 10) as u8)
    } else if 65 <= u && u <= 70 {
        Some((u - 65 + 10) as u8)
    } else {
        None
    }
}

/// Decodes a hex string into its byte sequence.
///
/// Succeeds exactly on decodable strings: even length, every character a
/// hexadecimal digit of either case.
pub fn from_hex(s: &str) -> (r: Result<Vec<u8>, Error>)
    ensures
        match r {
            Ok(v) => valid_hex(s@) && v@ == hex_bytes(s@),
            Err(e) => !valid_hex(s@) && e.message_view() == "invalid hex string: "@ + s@,
        },
{
    let n: usize = s.unicode_len();
    if n % 2 != 0 {
        let msg = String::from_str("invalid hex string: ").concat(s);
        return Err(Error::ArgumentError(msg));
    }
    let mut v: Vec<u8> = Vec::new();
    let mut i: usize = 0;
    while i < n
        invariant
            n == s@.len(),
            n % 2 == 0,
            i % 2 == 0,
            i <= n,
            v@.len() == i / 2,
            forall|j: int| 0 <= j < i ==> is_hex_digit(#[trigger] s@[j]),
            forall|k: int| 0 <= k < v@.len() ==> v@[k] == hex_bytes(s@)[k],
        decreases n - i,
    {
        let c0 = s.get_char(i);
        let c1 = s.get_char(i + 1);
        match (hex_digit_val(c0), hex_digit_val(c1)) {
            (Some(hi), Some(lo)) => {
                v.push(16 * hi + lo);
            },
            _ => {
                let msg = String::from_str("invalid hex string: ").concat(s);
                return Err(Error::ArgumentError(msg));
            },
        }
        i = i + 2;
    }
    proof {
        assert(v@ =~= hex_bytes(s@));
    }
    Ok(v)
}

/// An encoded byte sequence is always decodable, and decoding gives back
/// exactly the bytes that were encoded.
pub proof fn lemma_hex_round_trip(bytes: Seq<u8>)
    ensures
        valid_hex(hex_chars(bytes)),
        hex_bytes(hex_chars(bytes)) == bytes,
{
    let s = hex_chars(bytes);
    assert forall|i: int| 0 <= i < s.len() implies is_hex_digit(#[trigger] s[i]) by {
        lemma_hex_digit_char(if i % 2 == 0 {
            bytes[i / 2] / 16
        } else {
            bytes[i / 2] % 16
        });
    }
    assert forall|k: int| 0 <= k < bytes.len() implies hex_bytes(s)[k] == bytes[k] by {
        let b = bytes[k];
        lemma_hex_digit_char(b / 16);
        lemma_hex_digit_char(b % 16);
        assert(s[2 * k] == hex_digit_char(b / 16));
        assert(s[2 * k + 1] == hex_digit_char(b % 16));
        assert(16 * (b / 16) + b % 16 == b) by (nonlinear_arith);
    }
    assert(hex_bytes(s) =~= bytes);
}

/// A digit character below 16 is a hex digit and decodes to its own value.
proof fn lemma_hex_digit_char(v: u8)
    requires
        v < 16,
    ensures
        is_hex_digit(hex_digit_char(v)),
        hex_val(hex_digit_char(v)) == v,
{
}

} // verus!
