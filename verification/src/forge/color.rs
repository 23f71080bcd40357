//! Colours: the two print colours, and custom colours written as hexadecimal text.

use vstd::prelude::*;
use crate::text::{chars_of, opt_chars};
use crate::tools::{hex_digit, hex_value, is_hex_digit};

verus! {

/// A colour as red, green and blue.
#[derive(Debug, Clone, Copy, PartialEq, Eq, Structural)]
pub struct Rgb {
    pub r: u8,
    pub g: u8,
    pub b: u8,
}

/// Black.
pub open spec fn black() -> Rgb {
    Rgb { r: 0, g: 0, b: 0 }
}

/// White.
pub open spec fn white() -> Rgb {
    Rgb { r: 255, g: 255, b: 255 }
}

/// The first position at or after `i` that holds no hash sign.
pub open spec fn hashes_end(s: Seq<char>, i: int) -> int
    decreases s.len() - i,
{
    if 0 <= i < s.len() && s[i] == '#' {
        hashes_end(s, i + 1)
    } else {
        i
    }
}

/// The value of two characters read as a hexadecimal number: two digits, or a plus sign
/// and one digit.
pub open spec fn hex_pair(a: char, b: char) -> Option<u8> {
    if is_hex_digit(a) && is_hex_digit(b) {
        Some((hex_value(a) * 16 + hex_value(b)) as u8)
    } else if a == '+' && is_hex_digit(b) {
        Some(hex_value(b))
    } else {
        None
    }
}

/// The value of one character read as a hexadecimal number.
pub open spec fn hex_single(a: char) -> Option<u8> {
    if is_hex_digit(a) {
        Some(hex_value(a))
    } else {
        None
    }
}

/// The colour that six or three characters spell: `RRGGBB`, or `RGB` where each digit
/// stands for itself twice. Anything else is black.
pub open spec fn digits_color(s: Seq<char>) -> Rgb {
    if s.len() == 6 {
        match (hex_pair(s[0], s[1]), hex_pair(s[2], s[3]), hex_pair(s[4], s[5])) {
            (Some(r), Some(g), Some(b)) => Rgb { r, g, b },
            _ => black(),
        }
    } else if s.len() == 3 {
        match (hex_single(s[0]), hex_single(s[1]), hex_single(s[2])) {
            (Some(r), Some(g), Some(b)) => Rgb {
                r: (r * 17) as u8,
                g: (g * 17) as u8,
                b: (b * 17) as u8,
            },
            _ => black(),
        }
    } else {
        black()
    }
}

/// The colour that a custom colour text stands for: hash signs in front are dropped and
/// the rest is read as `RRGGBB` or `RGB`. No text, and text that cannot be read, is
/// black.
pub open spec fn hex_color(text: Option<Seq<char>>) -> Rgb {
    match text {
        Some(s) => digits_color(s.subrange(hashes_end(s, 0), s.len() as int)),
        None => black(),
    }
}

/// The drawing colour and the clearing colour of a box: a custom colour draws on white,
/// `B` is black on white, and every other letter is white on black.
pub open spec fn box_colors_of(color: char, custom: Option<Seq<char>>) -> (Rgb, Rgb) {
    if custom is Some {
        (hex_color(custom), white())
    } else if color == 'B' {
        (black(), white())
    } else {
        (white(), black())
    }
}

/// Two characters read as a hexadecimal number.
fn read_pair(a: char, b: char) -> (r: Option<u8>)
    ensures
        r == hex_pair(a, b),
{
    match (hex_digit(a), hex_digit(b)) {
        (Some(high), Some(low)) => Some(high * 16 + low),
        (None, Some(low)) => if a == '+' {
            Some(low)
        } else {
            None
        },
        _ => None,
    }
}

/// The colour that a custom colour text stands for.
pub fn parse_hex_color(color: &Option<String>) -> (rgb: Rgb)
    ensures
        rgb == hex_color(opt_chars(*color)),
{
    let text = match color {
        Some(text) => chars_of(text.as_str()),
        None => {
            return Rgb { r: 0, g: 0, b: 0 };
        },
    };
    let mut start: usize = 0;
    while start < text.len() && text[start] == '#'
        invariant
            start <= text@.len(),
            hashes_end(text@, start as int) == hashes_end(text@, 0),
        decreases text@.len() - start,
    {
        start += 1;
    }
    let count = text.len() - start;
    if count == 6 {
        match (
            read_pair(text[start], text[start + 1]),
            read_pair(text[start + 2], text[start + 3]),
            read_pair(text[start + 4], text[start + 5]),
        ) {
            (Some(r), Some(g), Some(b)) => Rgb { r, g, b },
            _ => Rgb { r: 0, g: 0, b: 0 },
        }
    } else if count == 3 {
        match (hex_digit(text[start]), hex_digit(text[start + 1]), hex_digit(text[start + 2])) {
            (Some(r), Some(g), Some(b)) => Rgb { r: r * 17, g: g * 17, b: b * 17 },
            _ => Rgb { r: 0, g: 0, b: 0 },
        }
    } else {
        Rgb { r: 0, g: 0, b: 0 }
    }
}

/// The drawing colour and the clearing colour of a box.
pub fn box_colors(color: char, custom: &Option<String>) -> (r: (Rgb, Rgb))
    ensures
        r == box_colors_of(color, opt_chars(*custom)),
{
    if custom.is_some() {
        (parse_hex_color(custom), Rgb { r: 255, g: 255, b: 255 })
    } else if color == 'B' {
        (Rgb { r: 0, g: 0, b: 0 }, Rgb { r: 255, g: 255, b: 255 })
    } else {
        (Rgb { r: 255, g: 255, b: 255 }, Rgb { r: 0, g: 0, b: 0 })
    }
}

} // verus!
