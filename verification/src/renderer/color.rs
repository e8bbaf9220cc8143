//! Colors written as text: `#rrggbb` and `#rrggbbaa`.

use vstd::prelude::*;
use vstd::string::StringSliceAdditionalSpecFns;

verus! {

/// A color as four bytes.
#[derive(Clone, Copy, Debug, PartialEq, Eq, Structural)]
pub struct ColorBytes {
    pub r: u8,
    pub g: u8,
    pub b: u8,
    pub a: u8,
}

/// Why a color could not be read.
#[derive(Clone, Copy, Debug, PartialEq, Eq, Structural)]
pub enum ColorError {
    /// A channel holds something else than hexadecimal digits.
    InvalidDigit,
}

/// Opaque white, the color of every text that is not a hexadecimal color.
pub open spec fn white() -> ColorBytes {
    ColorBytes { r: 255, g: 255, b: 255, a: 255 }
}

/// The value of a hexadecimal digit, in either case.
pub open spec fn hex_digit(byte: u8) -> Option<u8> {
    if 0x30 <= byte <= 0x39 {
        Some((byte - 0x30) as u8)
    } else if 0x41 <= byte <= 0x46 {
        Some((byte - 0x41 + 10) as u8)
    } else if 0x61 <= byte <= 0x66 {
        Some((byte - 0x61 + 10) as u8)
    } else {
        None
    }
}

/// The value of a channel of two characters: two digits, or a plus sign and one digit.
pub open spec fn hex_channel(high: u8, low: u8) -> Option<u8> {
    if high == 0x2B {
        hex_digit(low)
    } else {
        match (hex_digit(high), hex_digit(low)) {
            (Some(h), Some(l)) => Some((h * 16 + l) as u8),
            _ => None,
        }
    }
}

/// The channel that starts at `at`.
pub open spec fn channel_at(text: Seq<u8>, at: int) -> Option<u8> {
    hex_channel(text[at], text[at + 1])
}

/// The color that a text stands for. A number sign and three channels give an opaque color, a
/// number sign and four channels give a color with its alpha; a channel that is no number
/// is an error. Every other text stands for opaque white.
pub open spec fn parsed_color(text: Seq<u8>) -> Result<ColorBytes, ColorError> {
    if text.len() == 7 && text[0] == 0x23 {
        match (channel_at(text, 1), channel_at(text, 3), channel_at(text, 5)) {
            (Some(r), Some(g), Some(b)) => Ok(ColorBytes { r, g, b, a: 255 }),
            _ => Err(ColorError::InvalidDigit),
        }
    } else if text.len() == 9 && text[0] == 0x23 {
        match (
            channel_at(text, 1),
            channel_at(text, 3),
            channel_at(text, 5),
            channel_at(text, 7),
        ) {
            (Some(r), Some(g), Some(b), Some(a)) => Ok(ColorBytes { r, g, b, a }),
            _ => Err(ColorError::InvalidDigit),
        }
    } else {
        Ok(white())
    }
}

/// Reads one hexadecimal digit.
fn read_digit(byte: u8) -> (value: Option<u8>)
    ensures
        value == hex_digit(byte),
        value matches Some(v) ==> v < 16,
{
    if 0x30 <= byte && byte <= 0x39 {
        Some(byte - 0x30)
    } else if 0x41 <= byte && byte <= 0x46 {
        Some(byte - 0x41 + 10)
    } else if 0x61 <= byte && byte <= 0x66 {
        Some(byte - 0x61 + 10)
    } else {
        None
    }
}

/// Reads the channel that starts at `at`.
fn read_channel(text: &[u8], at: usize) -> (value: Option<u8>)
    requires
        at + 1 < text@.len(),
    ensures
        value == channel_at(text@, at as int),
{
    let high: u8 = text[at];
    let low: u8 = text[at + 1];
    if high == 0x2B {
        read_digit(low)
    } else {
        match (read_digit(high), read_digit(low)) {
            (Some(h), Some(l)) => Some(h * 16 + l),
            _ => None,
        }
    }
}

/// Reads a color from text. See `parsed_color` for what each text stands for.
pub fn parse_color(color: &str) -> (result: Result<ColorBytes, ColorError>)
    ensures
        result == parsed_color(color.spec_bytes()),
{
    let text: &[u8] = color.as_bytes();
    let with_alpha: bool = text.len() == 9;
    if (text.len() == 7 || with_alpha) && text[0] == 0x23 {
        let r: Option<u8> = read_channel(text, 1);
        let g: Option<u8> = read_channel(text, 3);
        let b: Option<u8> = read_channel(text, 5);
        let a: Option<u8> = if with_alpha {
            read_channel(text, 7)
        } else {
            Some(255)
        };
        match (r, g, b, a) {
            (Some(r), Some(g), Some(b), Some(a)) => Ok(ColorBytes { r, g, b, a }),
            _ => Err(ColorError::InvalidDigit),
        }
    } else {
        Ok(ColorBytes { r: 255, g: 255, b: 255, a: 255 })
    }
}

} // verus!
