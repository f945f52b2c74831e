//! A plain three-channel colour and the parser that reads one from a
//! hexadecimal string such as `#fff`, `0xAABBCC` or `123456h`.

use vstd::prelude::*;
use vstd::string::StringSliceAdditionalSpecFns;
use crate::error::ParseRGBError;

verus! {

/// A colour as three independent 8-bit channels.
#[derive(Clone, Copy, PartialEq, Eq, Structural, Debug)]
pub struct Rgb8 {
    pub r: u8,
    pub g: u8,
    pub b: u8,
}

impl Rgb8 {
    /// The colour with the given channels.
    pub fn new(r: u8, g: u8, b: u8) -> (c: Rgb8)
        ensures
            c == (Rgb8 { r, g, b }),
    {
        Rgb8 { r, g, b }
    }
}

/// True of the ASCII bytes `0`..`9`, `A`..`F` and `a`..`f`.
pub open spec fn is_hex_digit(b: u8) -> bool {
    (0x30 <= b <= 0x39) || (0x41 <= b <= 0x46) || (0x61 <= b <= 0x66)
}

/// The value of a hexadecimal digit byte.
pub open spec fn hex_val(b: u8) -> u8
    recommends
        is_hex_digit(b),
{
    if 0x30 <= b <= 0x39 {
        (b - 0x30) as u8
    } else if 0x41 <= b <= 0x46 {
        (b - 0x41 + 10) as u8
    } else {
        (b - 0x61 + 10) as u8
    }
}

/// The sequence with every leading `0x` pair removed.
pub open spec fn strip_0x(s: Seq<u8>) -> Seq<u8>
    decreases s.len(),
{
    if s.len() >= 2 && s[0] == 0x30 && s[1] == 0x78 {
        strip_0x(s.subrange(2, s.len() as int))
    } else {
        s
    }
}

/// The sequence with every leading `#` removed.
pub open spec fn strip_hash(s: Seq<u8>) -> Seq<u8>
    decreases s.len(),
{
    if s.len() >= 1 && s[0] == 0x23 {
        strip_hash(s.subrange(1, s.len() as int))
    } else {
        s
    }
}

/// The sequence with every trailing `h` removed.
pub open spec fn strip_h(s: Seq<u8>) -> Seq<u8>
    decreases s.len(),
{
    if s.len() >= 1 && s.last() == 0x68 {
        strip_h(s.drop_last())
    } else {
        s
    }
}

/// The input with the accepted prefixes (`0x`, then `#`) and suffix (`h`)
/// stripped, in that order.
pub open spec fn trimmed(s: Seq<u8>) -> Seq<u8> {
    strip_h(strip_hash(strip_0x(s)))
}

/// True when every byte of the sequence is a hexadecimal digit.
pub open spec fn all_hex(s: Seq<u8>) -> bool {
    forall|i: int| 0 <= i < s.len() ==> is_hex_digit(s[i])
}

/// The first byte of the sequence that is not a hexadecimal digit.
pub open spec fn first_non_hex(s: Seq<u8>) -> u8
    recommends
        !all_hex(s),
    decreases s.len(),
{
    if s.len() == 0 {
        0u8
    } else if !is_hex_digit(s.first()) {
        s.first()
    } else {
        first_non_hex(s.drop_first())
    }
}

/// The first non-digit byte is what a forward scan finds.
proof fn lemma_first_non_hex_at(s: Seq<u8>, i: int)
    requires
        0 <= i < s.len(),
        forall|j: int| 0 <= j < i ==> is_hex_digit(s[j]),
        !is_hex_digit(s[i]),
    ensures
        !all_hex(s),
        first_non_hex(s) == s[i],
    decreases i,
{
    if i == 0 {
    } else {
        lemma_first_non_hex_at(s.drop_first(), i - 1);
    }
}

/// What parsing a hexadecimal colour string yields: after trimming, a
/// three-digit string doubles each digit per channel, a six-digit string
/// pairs them, and anything else is rejected by length; a non-digit byte is
/// rejected with the first such byte.
pub open spec fn rgb_spec(s: Seq<u8>) -> Result<Rgb8, ParseRGBError> {
    let t = trimmed(s);
    if t.len() == 3 {
        if all_hex(t) {
            Ok(
                Rgb8 {
                    r: (17 * hex_val(t[0])) as u8,
                    g: (17 * hex_val(t[1])) as u8,
                    b: (17 * hex_val(t[2])) as u8,
                },
            )
        } else {
            Err(ParseRGBError::ParseHex(first_non_hex(t)))
        }
    } else if t.len() == 6 {
        if all_hex(t) {
            Ok(
                Rgb8 {
                    r: (16 * hex_val(t[0]) + hex_val(t[1])) as u8,
                    g: (16 * hex_val(t[2]) + hex_val(t[3])) as u8,
                    b: (16 * hex_val(t[4]) + hex_val(t[5])) as u8,
                },
            )
        } else {
            Err(ParseRGBError::ParseHex(first_non_hex(t)))
        }
    } else {
        Err(ParseRGBError::WrongLength(t.len() as usize))
    }
}

/// True exactly of hexadecimal digit bytes.
fn is_hex_digit_byte(b: u8) -> (r: bool)
    ensures
        r == is_hex_digit(b),
{
    (0x30 <= b && b <= 0x39) || (0x41 <= b && b <= 0x46) || (0x61 <= b && b <= 0x66)
}

/// The value of a hexadecimal digit byte.
fn hex_value(b: u8) -> (v: u8)
    requires
        is_hex_digit(b),
    ensures
        v == hex_val(b),
        v <= 15,
{
    if 0x30 <= b && b <= 0x39 {
        b - 0x30
    } else if 0x41 <= b && b <= 0x46 {
        b - 0x41 + 10
    } else {
        b - 0x61 + 10
    }
}

/// Parses a colour from a hexadecimal string of the forms `RGB` or
/// `RRGGBB`, allowing any number of leading `0x` pairs, then leading `#`
/// marks, and trailing `h` marks.  In the three-digit form each digit is
/// doubled per channel.  A wrong trimmed length or a non-digit byte is an
/// error, exactly as `rgb_spec` says.
pub fn rgb_from_hex(input: &str) -> (res: Result<Rgb8, ParseRGBError>)
    ensures
        res == rgb_spec(input.spec_bytes()),
{
    let bytes: &[u8] = input.as_bytes();
    let len: usize = bytes.len();
    let mut start: usize = 0;
    let mut end: usize = len;

    proof {
        assert(bytes@.subrange(0, len as int) =~= bytes@);
    }
    while len - start >= 2 && bytes[start] == 0x30 && bytes[start + 1] == 0x78
        invariant
            start <= len == bytes@.len(),
            strip_0x(bytes@.subrange(start as int, len as int)) == strip_0x(bytes@),
        decreases len - start,
    {
        proof {
            let cur = bytes@.subrange(start as int, len as int);
            assert(cur.subrange(2, cur.len() as int) =~= bytes@.subrange(
                start + 2,
                len as int,
            ));
        }
        start = start + 2;
    }
    proof {
        assert(bytes@.subrange(start as int, len as int) == strip_0x(bytes@));
    }

    while start < len && bytes[start] == 0x23
        invariant
            start <= len == bytes@.len(),
            strip_hash(bytes@.subrange(start as int, len as int)) == strip_hash(strip_0x(bytes@)),
        decreases len - start,
    {
        proof {
            let cur = bytes@.subrange(start as int, len as int);
            assert(cur.subrange(1, cur.len() as int) =~= bytes@.subrange(
                start + 1,
                len as int,
            ));
        }
        start = start + 1;
    }
    proof {
        assert(bytes@.subrange(start as int, len as int) == strip_hash(strip_0x(bytes@)));
    }

    while end > start && bytes[end - 1] == 0x68
        invariant
            start <= end <= len == bytes@.len(),
            strip_h(bytes@.subrange(start as int, end as int)) == trimmed(bytes@),
        decreases end,
    {
        proof {
            let cur = bytes@.subrange(start as int, end as int);
            assert(cur.drop_last() =~= bytes@.subrange(start as int, end - 1));
        }
        end = end - 1;
    }
    let ghost t = trimmed(bytes@);
    proof {
        assert(bytes@.subrange(start as int, end as int) == t);
    }

    let t_len = end - start;
    if t_len != 3 && t_len != 6 {
        return Err(ParseRGBError::WrongLength(t_len));
    }

    let mut k: usize = 0;
    while k < t_len
        invariant
            k <= t_len == end - start,
            t_len == 3 || t_len == 6,
            start <= end <= len == bytes@.len(),
            bytes@ == input.spec_bytes(),
            t == bytes@.subrange(start as int, end as int),
            t == trimmed(bytes@),
            forall|j: int| 0 <= j < k ==> is_hex_digit(t[j]),
        decreases t_len - k,
    {
        let b = bytes[start + k];
        if !is_hex_digit_byte(b) {
            proof {
                lemma_first_non_hex_at(t, k as int);
            }
            return Err(ParseRGBError::ParseHex(b));
        }
        k = k + 1;
    }
    proof {
        assert(all_hex(t));
    }

    if t_len == 3 {
        let v0 = hex_value(bytes[start]);
        let v1 = hex_value(bytes[start + 1]);
        let v2 = hex_value(bytes[start + 2]);
        Ok(Rgb8 { r: 17 * v0, g: 17 * v1, b: 17 * v2 })
    } else {
        let v0 = hex_value(bytes[start]);
        let v1 = hex_value(bytes[start + 1]);
        let v2 = hex_value(bytes[start + 2]);
        let v3 = hex_value(bytes[start + 3]);
        let v4 = hex_value(bytes[start + 4]);
        let v5 = hex_value(bytes[start + 5]);
        Ok(Rgb8 { r: 16 * v0 + v1, g: 16 * v2 + v3, b: 16 * v4 + v5 })
    }
}

} // verus!
