//! Colour codes: the `#rrggbb` / `#rrggbbaa` hex notation of 8-bit RGBA colours.
use vstd::prelude::*;

use vstd::string::StringSliceAdditionalSpecFns;
use vstd::utf8::{encode_utf8, is_ascii_chars, is_ascii_chars_encode_utf8};

use crate::text::concat_str;

verus! {

/// An RGBA colour with 8-bit channels.
#[derive(Debug, Clone, Copy, PartialEq, Eq, Structural)]
pub struct Rgba8 {
    pub r: u8,
    pub g: u8,
    pub b: u8,
    pub a: u8,
}

/// The value of an ASCII hex digit (either case).
pub open spec fn spec_hex_value(b: u8) -> Option<u8> {
    if 0x30 <= b <= 0x39 {
        Some((b - 0x30) as u8)
    } else if 0x61 <= b <= 0x66 {
        Some((b - 0x61 + 10) as u8)
    } else if 0x41 <= b <= 0x46 {
        Some((b - 0x41 + 10) as u8)
    } else {
        None
    }
}

/// A two-byte field read as a hex number: exactly two hex digits, high digit first.
pub open spec fn spec_hex_pair(b0: u8, b1: u8) -> Option<u8> {
    match (spec_hex_value(b0), spec_hex_value(b1)) {
        (Some(h), Some(l)) => Some((h * 16 + l) as u8),
        _ => None,
    }
}

/// The colour a hex code gives: `#` then six digits (opaque) or eight (with alpha);
/// nothing for anything else.
pub open spec fn spec_parse_hex_color(b: Seq<u8>) -> Option<Rgba8> {
    if b.len() == 7 && b[0] == 0x23 {
        match (spec_hex_pair(b[1], b[2]), spec_hex_pair(b[3], b[4]), spec_hex_pair(b[5], b[6])) {
            (Some(r), Some(g), Some(bl)) => Some(Rgba8 { r, g, b: bl, a: 255 }),
            _ => None,
        }
    } else if b.len() == 9 && b[0] == 0x23 {
        match (
            spec_hex_pair(b[1], b[2]),
            spec_hex_pair(b[3], b[4]),
            spec_hex_pair(b[5], b[6]),
            spec_hex_pair(b[7], b[8]),
        ) {
            (Some(r), Some(g), Some(bl), Some(a)) => Some(Rgba8 { r, g, b: bl, a }),
            _ => None,
        }
    } else {
        None
    }
}

fn hex_value(b: u8) -> (r: Option<u8>)
    ensures
        r == spec_hex_value(b),
{
    if 0x30 <= b && b <= 0x39 {
        Some(b - 0x30)
    } else if 0x61 <= b && b <= 0x66 {
        Some(b - 0x61 + 10)
    } else if 0x41 <= b && b <= 0x46 {
        Some(b - 0x41 + 10)
    } else {
        None
    }
}

fn hex_pair(b0: u8, b1: u8) -> (r: Option<u8>)
    ensures
        r == spec_hex_pair(b0, b1),
{
    match (hex_value(b0), hex_value(b1)) {
        (Some(h), Some(l)) => Some(h * 16 + l),
        _ => None,
    }
}

/// Parses a colour from a hex code (`#RRGGBB` or `#RRGGBBAA`, digits in either case);
/// anything else gives `None`.
pub fn parse_hex_color(hex: &str) -> (r: Option<Rgba8>)
    ensures
        r == spec_parse_hex_color(hex.spec_bytes()),
{
    let b = hex.as_bytes();
    let n = b.len();
    if (n != 7 && n != 9) || b[0] != 0x23 {
        return None;
    }
    let r = match hex_pair(b[1], b[2]) {
        Some(v) => v,
        None => {
            return None;
        },
    };
    let g = match hex_pair(b[3], b[4]) {
        Some(v) => v,
        None => {
            return None;
        },
    };
    let bl = match hex_pair(b[5], b[6]) {
        Some(v) => v,
        None => {
            return None;
        },
    };
    if n == 7 {
        return Some(Rgba8 { r, g, b: bl, a: 255 });
    }
    match hex_pair(b[7], b[8]) {
        Some(a) => Some(Rgba8 { r, g, b: bl, a }),
        None => None,
    }
}

/// The lower-case hex digit of a value below 16.
pub open spec fn spec_hex_char(d: u8) -> char {
    if d < 10 {
        (d + 0x30) as char
    } else {
        (d - 10 + 0x61) as char
    }
}

/// A byte as two lower-case hex digits.
pub open spec fn spec_hex_byte(v: u8) -> Seq<char> {
    seq![spec_hex_char(v / 16), spec_hex_char(v % 16)]
}

/// The hex code of a colour: `#rrggbb` when it is opaque, `#rrggbbaa` otherwise.
pub open spec fn spec_format_hex_color(c: Rgba8) -> Seq<char> {
    seq!['#'] + spec_hex_byte(c.r) + spec_hex_byte(c.g) + spec_hex_byte(c.b) + if c.a == 255 {
        Seq::<char>::empty()
    } else {
        spec_hex_byte(c.a)
    }
}

fn hex_byte(v: u8) -> (r: String)
    ensures
        r@ == spec_hex_byte(v),
{
    let digits = "0123456789abcdef";
    proof {
        reveal_strlit("0123456789abcdef");
    }
    let hi = (v / 16) as usize;
    let lo = (v % 16) as usize;
    let h = digits.substring_char(hi, hi + 1);
    let l = digits.substring_char(lo, lo + 1);
    let r = concat_str(h, l);
    proof {
        let s = "0123456789abcdef"@;
        assert forall|d: u8| d < 16 implies s[d as int] == #[trigger] spec_hex_char(d) by {
            if d == 0 { assert(s[0] == '0'); }
            else if d == 1 { assert(s[1] == '1'); }
            else if d == 2 { assert(s[2] == '2'); }
            else if d == 3 { assert(s[3] == '3'); }
            else if d == 4 { assert(s[4] == '4'); }
            else if d == 5 { assert(s[5] == '5'); }
            else if d == 6 { assert(s[6] == '6'); }
            else if d == 7 { assert(s[7] == '7'); }
            else if d == 8 { assert(s[8] == '8'); }
            else if d == 9 { assert(s[9] == '9'); }
            else if d == 10 { assert(s[10] == 'a'); }
            else if d == 11 { assert(s[11] == 'b'); }
            else if d == 12 { assert(s[12] == 'c'); }
            else if d == 13 { assert(s[13] == 'd'); }
            else if d == 14 { assert(s[14] == 'e'); }
            else { assert(s[15] == 'f'); }
        }
        assert(spec_hex_char(v / 16) == s[hi as int]);
        assert(spec_hex_char(v % 16) == s[lo as int]);
        assert(r@ =~= spec_hex_byte(v));
    }
    r
}

/// Writes a colour as a hex code: `#rrggbb` when it is opaque, `#rrggbbaa` otherwise,
/// in lower case.
pub fn format_hex_color(c: Rgba8) -> (r: String)
    ensures
        r@ == spec_format_hex_color(c),
{
    proof {
        reveal_strlit("#");
    }
    let s = concat_str("#", hex_byte(c.r).as_str());
    let s = concat_str(s.as_str(), hex_byte(c.g).as_str());
    let s = concat_str(s.as_str(), hex_byte(c.b).as_str());
    if c.a == 255 {
        assert(s@ =~= spec_format_hex_color(c));
        s
    } else {
        let s = concat_str(s.as_str(), hex_byte(c.a).as_str());
        assert(s@ =~= spec_format_hex_color(c));
        s
    }
}

proof fn lemma_hex_char_value(d: u8)
    requires
        d < 16,
    ensures
        spec_hex_value(spec_hex_char(d) as u8) == Some(d),
        '\0' <= spec_hex_char(d) <= '\u{7f}',
{
}

proof fn lemma_hex_byte_value(v: u8)
    ensures
        spec_hex_pair(spec_hex_byte(v)[0] as u8, spec_hex_byte(v)[1] as u8) == Some(v),
        is_ascii_chars(spec_hex_byte(v)),
{
    lemma_hex_char_value(v / 16);
    lemma_hex_char_value(v % 16);
    assert((v / 16) * 16 + v % 16 == v) by (nonlinear_arith);
}

/// Reading back the hex code of a colour gives the colour.
pub proof fn lemma_hex_color_roundtrip(c: Rgba8)
    ensures
        spec_parse_hex_color(encode_utf8(spec_format_hex_color(c))) == Some(c),
{
    let s = spec_format_hex_color(c);
    lemma_hex_byte_value(c.r);
    lemma_hex_byte_value(c.g);
    lemma_hex_byte_value(c.b);
    lemma_hex_byte_value(c.a);
    assert(is_ascii_chars(s)) by {
        assert forall|i: int| 0 <= i < s.len() implies '\0' <= #[trigger] s[i] <= '\u{7f}' by {
            if i == 0 {
            } else if i <= 2 {
                assert(s[i] == spec_hex_byte(c.r)[i - 1]);
            } else if i <= 4 {
                assert(s[i] == spec_hex_byte(c.g)[i - 3]);
            } else if i <= 6 {
                assert(s[i] == spec_hex_byte(c.b)[i - 5]);
            } else {
                assert(s[i] == spec_hex_byte(c.a)[i - 7]);
            }
        }
    }
    is_ascii_chars_encode_utf8(s);
    let b = encode_utf8(s);
    assert(b[0] == s[0] as u8);
    assert(b[1] == s[1] as u8 && b[2] == s[2] as u8);
    assert(b[3] == s[3] as u8 && b[4] == s[4] as u8);
    assert(b[5] == s[5] as u8 && b[6] == s[6] as u8);
    if c.a != 255 {
        assert(b[7] == s[7] as u8 && b[8] == s[8] as u8);
    }
}

} // verus!
