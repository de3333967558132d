//! Decoding of `#RRGGBB` / `#RRGGBBAA` color inputs into 8-bit channels.

use vstd::prelude::*;
use vstd::string::StringSliceAdditionalSpecFns;
use crate::parse::{debug_quoted, debug_text};
use crate::text::{owned, viewed};

verus! {

/// The four 8-bit channels of a decoded color.
#[derive(Clone, Copy, Debug, PartialEq, Eq)]
pub struct ColorChannels {
    pub red: u8,
    pub green: u8,
    pub blue: u8,
    pub alpha: u8,
}

/// The value of one ASCII hexadecimal digit byte.
pub open spec fn hex_value(b: u8) -> Option<nat> {
    if 0x30 <= b && b <= 0x39 {
        Some((b - 0x30) as nat)
    } else if 0x61 <= b && b <= 0x66 {
        Some((b - 0x61 + 10) as nat)
    } else if 0x41 <= b && b <= 0x46 {
        Some((b - 0x41 + 10) as nat)
    } else {
        None
    }
}

/// `u8::from_str_radix(pair, 16)` on a two-byte text: two hex digits, or
/// a `+` sign followed by one hex digit.
pub open spec fn hex_pair_value(b0: u8, b1: u8) -> Option<u8> {
    if b0 == 0x2b {
        match hex_value(b1) {
            Some(v) => Some(v as u8),
            None => None,
        }
    } else {
        match (hex_value(b0), hex_value(b1)) {
            (Some(h), Some(l)) => Some((h * 16 + l) as u8),
            _ => None,
        }
    }
}

/// The bytes of a color input after an optional leading `#`.
pub open spec fn color_digits(bytes: Seq<u8>) -> Seq<u8> {
    if bytes.len() > 0 && bytes[0] == 0x23 {
        bytes.drop_first()
    } else {
        bytes
    }
}

/// Whether byte offset `k` of `h` starts a character (is no UTF-8
/// continuation byte).
pub open spec fn starts_char(h: Seq<u8>, k: int) -> bool {
    !(0x80 <= h[k] && h[k] < 0xc0)
}

/// The two-byte slices a six- or eight-byte color input is cut into, as far
/// as they are cut before a channel fails to decode, start and end on
/// character boundaries: cutting one elsewhere is a panic of `str` slicing.
pub open spec fn color_pairs_on_char_boundaries(bytes: Seq<u8>) -> bool {
    let h = color_digits(bytes);
    (h.len() == 6 || h.len() == 8) ==> {
        &&& starts_char(h, 2)
        &&& hex_pair_value(h[0], h[1]) is Some ==> starts_char(h, 4)
        &&& (h.len() == 8 && hex_pair_value(h[0], h[1]) is Some && hex_pair_value(h[2], h[3]) is Some) ==> starts_char(h, 6)
    }
}

pub open spec fn color_format_text(command_id: Seq<char>, name: Seq<char>) -> Seq<char> {
    command_id + " requires --"@ + name + " as #RRGGBB or #RRGGBBAA"@
}

pub open spec fn invalid_color_text(command_id: Seq<char>, name: Seq<char>, raw: Seq<char>) -> Seq<char> {
    command_id + " received invalid --"@ + name + " color "@ + debug_text(raw)
}

/// The channels a color input names, or the error the command reports.
pub open spec fn parse_color_result(command_id: Seq<char>, name: Seq<char>, raw: Seq<char>, bytes: Seq<u8>) -> Result<ColorChannels, Seq<char>> {
    let h = color_digits(bytes);
    if h.len() != 6 && h.len() != 8 {
        Err(color_format_text(command_id, name))
    } else {
        let red = hex_pair_value(h[0], h[1]);
        let green = hex_pair_value(h[2], h[3]);
        let blue = hex_pair_value(h[4], h[5]);
        let alpha = if h.len() == 8 { hex_pair_value(h[6], h[7]) } else { Some(255u8) };
        match (red, green, blue, alpha) {
            (Some(r), Some(g), Some(b), Some(a)) => Ok(ColorChannels { red: r, green: g, blue: b, alpha: a }),
            _ => Err(invalid_color_text(command_id, name, raw)),
        }
    }
}

fn hex_digit(b: u8) -> (r: Option<u8>)
    ensures
        match hex_value(b) {
            Some(v) => r == Some(v as u8),
            None => r is None,
        },
{
    if 0x30 <= b && b <= 0x39 {
        Some(b - 0x30)
    } else if 0x61 <= b && b <= 0x66 {
        Some(b - 0x61 + 10)
    } else if 0x41 <= b && b <= 0x46 {
        Some(b - 0x41 + 10)
    } else {
        None
    }
}

fn hex_pair(b0: u8, b1: u8) -> (r: Option<u8>)
    ensures
        r == hex_pair_value(b0, b1),
{
    if b0 == 0x2b {
        return hex_digit(b1);
    }
    match (hex_digit(b0), hex_digit(b1)) {
        (Some(h), Some(l)) => Some(h * 16 + l),
        _ => None,
    }
}

fn invalid_color(command_id: &str, name: &str, raw: &str) -> (m: String)
    ensures
        m@ == invalid_color_text(command_id@, name@, raw@),
{
    let mut m = owned(command_id);
    m.append(" received invalid --");
    m.append(name);
    m.append(" color ");
    let quoted = debug_quoted(raw);
    m.append(quoted.as_str());
    m
}

/// Decodes `raw` as `#RRGGBB` or `#RRGGBBAA` (the `#` is optional); a
/// missing alpha channel is opaque.
pub fn parse_color(command_id: &str, name: &str, raw: &str) -> (r: Result<ColorChannels, String>)
    requires
        color_pairs_on_char_boundaries(raw.spec_bytes()),
    ensures
        viewed(r) == parse_color_result(command_id@, name@, raw@, raw.spec_bytes()),
{
    let bytes = raw.as_bytes();
    let start: usize = if bytes.len() > 0 && bytes[0] == 0x23 { 1 } else { 0 };
    let len = bytes.len() - start;
    let ghost h = color_digits(raw.spec_bytes());
    assert(h.len() == len);
    assert forall|k: int| 0 <= k < len implies h[k] == bytes@[start + k] by {}
    if len != 6 && len != 8 {
        let mut m = owned(command_id);
        m.append(" requires --");
        m.append(name);
        m.append(" as #RRGGBB or #RRGGBBAA");
        return Err(m);
    }
    let red = hex_pair(bytes[start], bytes[start + 1]);
    let green = hex_pair(bytes[start + 2], bytes[start + 3]);
    let blue = hex_pair(bytes[start + 4], bytes[start + 5]);
    let alpha = if len == 8 { hex_pair(bytes[start + 6], bytes[start + 7]) } else { Some(255u8) };
    match (red, green, blue, alpha) {
        (Some(r), Some(g), Some(b), Some(a)) => Ok(ColorChannels { red: r, green: g, blue: b, alpha: a }),
        _ => Err(invalid_color(command_id, name, raw)),
    }
}

} // verus!
