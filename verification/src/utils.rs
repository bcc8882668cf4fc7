//! Colours as text: reading `#rrggbb` and writing it.

use vstd::prelude::*;
use vstd::string::*;

verus! {

/// A colour by its red, green and blue parts.
#[derive(Clone, Copy, Debug, PartialEq, Eq, Structural)]
pub struct Rgb {
    pub r: u8,
    pub g: u8,
    pub b: u8,
}

/// The colour that stands for a text that is no colour: a medium gray.
pub open spec fn fallback_color() -> Rgb {
    Rgb { r: 100, g: 100, b: 100 }
}

/// The number that a byte stands for as a digit of base sixteen, in either
/// case of the letters.
pub open spec fn hex_digit_value(byte: u8) -> Option<nat> {
    if 0x30 <= byte <= 0x39 {
        Some((byte - 0x30) as nat)
    } else if 0x61 <= byte <= 0x66 {
        Some((byte - 0x61 + 10) as nat)
    } else if 0x41 <= byte <= 0x46 {
        Some((byte - 0x41 + 10) as nat)
    } else {
        None
    }
}

/// The number that two bytes write in base sixteen: two digits, or a plus
/// sign and one digit. `None` for anything else.
pub open spec fn hex_pair_value(first: u8, second: u8) -> Option<nat> {
    if first == 0x2B {
        hex_digit_value(second)
    } else {
        match (hex_digit_value(first), hex_digit_value(second)) {
            (Some(high), Some(low)) => Some(high * 16 + low),
            _ => None,
        }
    }
}

/// One part of a colour: the number that the two bytes write, or zero.
pub open spec fn color_part(first: u8, second: u8) -> u8 {
    match hex_pair_value(first, second) {
        Some(v) => v as u8,
        None => 0,
    }
}

/// The colour that the bytes of a text write: for seven bytes of which the
/// first is `#`, the three parts that the three pairs of bytes write, a pair
/// that writes no number standing for zero; the fallback for any other text.
pub open spec fn color_of_bytes(bytes: Seq<u8>) -> Rgb {
    if bytes.len() == 7 && bytes[0] == 0x23 {
        Rgb {
            r: color_part(bytes[1], bytes[2]),
            g: color_part(bytes[3], bytes[4]),
            b: color_part(bytes[5], bytes[6]),
        }
    } else {
        fallback_color()
    }
}

/// The digit of base sixteen that writes `value`, in lower case.
pub open spec fn hex_digit_char(value: nat) -> char {
    if value < 10 {
        ((0x30 + value) as u8) as char
    } else {
        ((0x61 + value - 10) as u8) as char
    }
}

/// A colour written as `#rrggbb`, in lower case.
pub open spec fn hex_text(color: Rgb) -> Seq<char> {
    seq![
        '#',
        hex_digit_char((color.r / 16) as nat),
        hex_digit_char((color.r % 16) as nat),
        hex_digit_char((color.g / 16) as nat),
        hex_digit_char((color.g % 16) as nat),
        hex_digit_char((color.b / 16) as nat),
        hex_digit_char((color.b % 16) as nat),
    ]
}

fn hex_digit(byte: u8) -> (value: Option<u8>)
    ensures
        match value {
            Some(v) => hex_digit_value(byte) == Some(v as nat) && v < 16,
            None => hex_digit_value(byte) is None,
        },
{
    if 0x30 <= byte && byte <= 0x39 {
        Some(byte - 0x30)
    } else if 0x61 <= byte && byte <= 0x66 {
        Some(byte - 0x61 + 10)
    } else if 0x41 <= byte && byte <= 0x46 {
        Some(byte - 0x41 + 10)
    } else {
        None
    }
}

fn part(first: u8, second: u8) -> (value: u8)
    ensures
        value == color_part(first, second),
{
    if first == 0x2B {
        match hex_digit(second) {
            Some(v) => v,
            None => 0,
        }
    } else {
        match (hex_digit(first), hex_digit(second)) {
            (Some(high), Some(low)) => high * 16 + low,
            _ => 0,
        }
    }
}

/// Reads a colour written as `#rrggbb`. A text of another form gives the
/// fallback gray.
pub fn hex_to_color(hex: &str) -> (color: Rgb)
    ensures
        color == color_of_bytes(hex.spec_bytes()),
{
    let bytes = hex.as_bytes();
    if bytes.len() == 7 && bytes[0] == 0x23 {
        Rgb { r: part(bytes[1], bytes[2]), g: part(bytes[3], bytes[4]), b: part(bytes[5], bytes[6]) }
    } else {
        Rgb { r: 100, g: 100, b: 100 }
    }
}

fn digit_char(value: u8) -> (c: char)
    requires
        value < 16,
    ensures
        c == hex_digit_char(value as nat),
{
    if value < 10 {
        (0x30 + value) as char
    } else {
        (0x61 + value - 10) as char
    }
}

/// Writes a colour as `#rrggbb`, in lower case.
pub fn brush_to_hex(color: Rgb) -> (hex: String)
    ensures
        hex@ == hex_text(color),
{
    let mut hex = String::new();
    hex.push('#');
    hex.push(digit_char(color.r / 16));
    hex.push(digit_char(color.r % 16));
    hex.push(digit_char(color.g / 16));
    hex.push(digit_char(color.g % 16));
    hex.push(digit_char(color.b / 16));
    hex.push(digit_char(color.b % 16));
    assert(hex@ =~= hex_text(color));
    hex
}

/// The bytes of a colour written as `#rrggbb`, each character being one
/// byte.
pub open spec fn hex_bytes(color: Rgb) -> Seq<u8> {
    Seq::new(7, |i: int| hex_text(color)[i] as u8)
}

proof fn lemma_digit_round_trip(value: nat)
    requires
        value < 16,
    ensures
        hex_digit_value(hex_digit_char(value) as u8) == Some(value),
        hex_digit_char(value) as u8 != 0x2B,
{
}

/// Writing a colour and reading it back gives the colour.
pub proof fn lemma_hex_round_trip(color: Rgb)
    ensures
        color_of_bytes(hex_bytes(color)) == color,
{
    lemma_digit_round_trip((color.r / 16) as nat);
    lemma_digit_round_trip((color.r % 16) as nat);
    lemma_digit_round_trip((color.g / 16) as nat);
    lemma_digit_round_trip((color.g % 16) as nat);
    lemma_digit_round_trip((color.b / 16) as nat);
    lemma_digit_round_trip((color.b % 16) as nat);
}

} // verus!
