//! Colours written as `#rrggbb`, read into the 16-bit channels that X uses.
use vstd::prelude::*;
use vstd::utf8::*;
use vstd::string::StringSliceAdditionalSpecFns;
use crate::error::{BackendError, ErrorSource, source_error};

verus! {

broadcast use {encode_utf8_valid_utf8, is_char_boundary_start_end_of_seq};

#[verifier::external_type_specification]
#[verifier::external_body]
pub struct ExParseIntError(core::num::ParseIntError);

/// The value of an ASCII hexadecimal digit, if the byte is one.
pub open spec fn hex_digit(b: u8) -> Option<u16> {
    if 0x30 <= b <= 0x39 {
        Some((b - 0x30) as u16)
    } else if 0x61 <= b <= 0x66 {
        Some((b - 0x61 + 10) as u16)
    } else if 0x41 <= b <= 0x46 {
        Some((b - 0x41 + 10) as u16)
    } else {
        None
    }
}

/// The number that two bytes spell in base 16: two digits, or a `+` and one digit.
pub open spec fn hex_pair(b: Seq<u8>) -> Option<u16>
    recommends
        b.len() == 2,
{
    if b[0] == 0x2b {
        hex_digit(b[1])
    } else {
        match (hex_digit(b[0]), hex_digit(b[1])) {
            (Some(hi), Some(lo)) => Some((16 * hi + lo) as u16),
            _ => None,
        }
    }
}

/// `u16::from_str_radix(s, 16)` on a string of two bytes. Its documentation
/// asks for an optional `+` followed by digits of the radix (`0-9`, `a-f`,
/// `A-F`); so the contract claims `Ok` with their value exactly when the two
/// bytes are two such digits or a `+` and one, and an error otherwise.
#[verifier::external_body]
fn hex_pair_radix16(s: &str) -> (r: Result<u16, core::num::ParseIntError>)
    requires
        s.spec_bytes().len() == 2,
    ensures
        match r {
            Ok(v) => hex_pair(s.spec_bytes()) == Some(v),
            Err(_) => hex_pair(s.spec_bytes()) is None,
        },
{
    u16::from_str_radix(s, 16)
}

/// The bytes of a colour string can be cut at 1, 3, 5 and 7: the string has at
/// least seven bytes and no character straddles those places.
pub open spec fn color_cuts_ok(b: Seq<u8>) -> bool {
    &&& is_char_boundary(b, 1)
    &&& is_char_boundary(b, 3)
    &&& is_char_boundary(b, 5)
    &&& is_char_boundary(b, 7)
}

/// The channels that a colour string gives: each pair of hex digits after the
/// first byte, scaled to 16 bits.
pub open spec fn color_channels(b: Seq<u8>) -> Option<(u16, u16, u16)> {
    match (hex_pair(b.subrange(1, 3)), hex_pair(b.subrange(3, 5)), hex_pair(b.subrange(5, 7))) {
        (Some(r), Some(g), Some(bl)) => Some(((r * 256) as u16, (g * 256) as u16, (bl * 256) as u16)),
        _ => None,
    }
}

proof fn lemma_hex_pair_small(b: Seq<u8>)
    requires
        b.len() == 2,
    ensures
        hex_pair(b) matches Some(v) ==> v < 256,
{
}

proof fn lemma_boundary_after_cut(b: Seq<u8>, i: int, j: int)
    requires
        valid_utf8(b),
        0 <= i <= j,
        is_char_boundary(b, i),
        is_char_boundary(b, j),
    ensures
        valid_utf8(b.subrange(i, b.len() as int)),
        is_char_boundary(b.subrange(i, b.len() as int), j - i),
{
    broadcast use valid_utf8_split, is_char_boundary_iff_not_is_continuation_byte;

    let rest = b.subrange(i, b.len() as int);
    assert(valid_utf8(rest));
    if j < b.len() {
        assert(rest[j - i] == b[j]);
        assert(is_char_boundary(b, j) <==> !is_continuation_byte(b[j]));
        assert(is_char_boundary(rest, j - i) <==> !is_continuation_byte(rest[j - i]));
    } else {
        assert(j <= b.len()) by {
            if j > b.len() {
                reveal_with_fuel(is_char_boundary, 1);
            }
        }
        assert(rest.len() == j - i);
    }
}

proof fn lemma_boundary_in_range(b: Seq<u8>, i: int)
    requires
        valid_utf8(b),
        is_char_boundary(b, i),
    ensures
        0 <= i <= b.len(),
{
    reveal_with_fuel(is_char_boundary, 1);
}

/// The `len` bytes of `s` that start at byte `start`.
fn cut(s: &str, start: usize, len: usize) -> (r: &str)
    requires
        is_char_boundary(s.spec_bytes(), start as int),
        is_char_boundary(s.spec_bytes(), start + len),
    ensures
        r.spec_bytes() =~= s.spec_bytes().subrange(start as int, start + len),
{
    proof {
        lemma_boundary_in_range(s.spec_bytes(), start as int);
        lemma_boundary_in_range(s.spec_bytes(), start + len);
        lemma_boundary_after_cut(s.spec_bytes(), start as int, start + len);
    }
    let (_, rest) = s.split_at(start);
    let (piece, _) = rest.split_at(len);
    piece
}

/// Reads a colour such as `#ff8000` into its red, green and blue channels,
/// each scaled to 16 bits (`0xff` becomes `0xff00`). The byte before the digits
/// is not looked at. A pair that is not a base-16 number gives the error of a
/// failed number parse.
pub fn parse_color_string(color: String) -> (r: Result<(u16, u16, u16), BackendError>)
    requires
        color_cuts_ok(encode_utf8(color@)),
    ensures
        match color_channels(encode_utf8(color@)) {
            Some(c) => r == Ok::<(u16, u16, u16), BackendError>(c),
            None => r == Err::<(u16, u16, u16), BackendError>(source_error(ErrorSource::ParseInt)),
        },
{
    let s = color.as_str();
    let ghost b = s.spec_bytes();
    let red = hex_pair_radix16(cut(s, 1, 2));
    let green = hex_pair_radix16(cut(s, 3, 2));
    let blue = hex_pair_radix16(cut(s, 5, 2));
    proof {
        lemma_hex_pair_small(b.subrange(1, 3));
        lemma_hex_pair_small(b.subrange(3, 5));
        lemma_hex_pair_small(b.subrange(5, 7));
    }
    match (red, green, blue) {
        (Ok(r), Ok(g), Ok(bl)) => Ok((r * 256, g * 256, bl * 256)),
        _ => Err(BackendError::from_source(ErrorSource::ParseInt)),
    }
}

} // verus!
