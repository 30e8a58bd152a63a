use vstd::prelude::*;

verus! {

/// A colour of a sidebar entry: the named terminal colours that the sidebar
/// uses, and 24-bit RGB for colours read from a forum's categories.
#[derive(Debug, Clone, Copy, PartialEq, Eq, Structural)]
pub enum Color {
    Green,
    Gray,
    Magenta,
    Rgb(u8, u8, u8),
}

/// The value of an ASCII hexadecimal digit byte.
pub open spec fn hex_digit_value(b: u8) -> Option<u8> {
    if 48 <= b <= 57 {
        Some((b - 48) as u8)
    } else if 97 <= b <= 102 {
        Some((b - 87) as u8)
    } else if 65 <= b <= 70 {
        Some((b - 55) as u8)
    } else {
        None
    }
}

/// What `u8::from_str_radix(.., 16)` gives for a two-byte text: two hex digits,
/// or a `+` sign followed by one hex digit.
pub open spec fn hex_pair_value(b0: u8, b1: u8) -> Option<u8> {
    if b0 == 43 {
        hex_digit_value(b1)
    } else {
        match (hex_digit_value(b0), hex_digit_value(b1)) {
            (Some(h), Some(l)) => Some((16 * h + l) as u8),
            _ => None,
        }
    }
}

/// The colour that a six-byte `rrggbb` hex text (no `#`) denotes, if any.
pub open spec fn color_from_hex(bytes: Seq<u8>) -> Option<Color> {
    if bytes.len() != 6 {
        None
    } else {
        match (
            hex_pair_value(bytes[0], bytes[1]),
            hex_pair_value(bytes[2], bytes[3]),
            hex_pair_value(bytes[4], bytes[5]),
        ) {
            (Some(r), Some(g), Some(b)) => Some(Color::Rgb(r, g, b)),
            _ => None,
        }
    }
}

/// The colour that a text denotes, read from its UTF-8 bytes.
pub open spec fn hex_color_of(text: Seq<char>) -> Option<Color> {
    color_from_hex(vstd::utf8::encode_utf8(text))
}

/// Reading the text two bytes at a time cuts no character in two, as far as the
/// reading goes: where the text is six bytes long, byte 2 starts a character,
/// and so does byte 4 once the first pair has been read as a number.
pub open spec fn hex_color_splits_cleanly(text: Seq<char>) -> bool {
    let b = vstd::utf8::encode_utf8(text);
    b.len() == 6 ==> {
        &&& vstd::utf8::is_char_boundary(b, 2)
        &&& (hex_pair_value(b[0], b[1]) is Some ==> vstd::utf8::is_char_boundary(b, 4))
    }
}

fn hex_digit(b: u8) -> (r: Option<u8>)
    ensures
        r == hex_digit_value(b),
{
    if 48 <= b && b <= 57 {
        Some(b - 48)
    } else if 97 <= b && b <= 102 {
        Some(b - 87)
    } else if 65 <= b && b <= 70 {
        Some(b - 55)
    } else {
        None
    }
}

fn hex_pair(b0: u8, b1: u8) -> (r: Option<u8>)
    ensures
        r == hex_pair_value(b0, b1),
{
    if b0 == 43 {
        return hex_digit(b1);
    }
    match (hex_digit(b0), hex_digit(b1)) {
        (Some(h), Some(l)) => Some(16 * h + l),
        _ => None,
    }
}

/// Whether reading `hex` as a colour, two bytes at a time, cuts no character
/// in two; where it would, the reading cannot be done.
pub fn splits_cleanly(hex: &str) -> (r: bool)
    ensures
        r == hex_color_splits_cleanly(hex@),
{
    let bytes = hex.as_bytes();
    if bytes.len() != 6 {
        return true;
    }
    if !hex.is_char_boundary(2) {
        return false;
    }
    match hex_pair(bytes[0], bytes[1]) {
        Some(_) => hex.is_char_boundary(4),
        None => true,
    }
}

/// Parses a six-digit hex colour written without `#`, such as a forum's
/// category colour `0088CC`; any other text gives `None`.
pub fn parse_color(hex: &str) -> (r: Option<Color>)
    requires
        hex_color_splits_cleanly(hex@),
    ensures
        r == hex_color_of(hex@),
{
    let bytes = hex.as_bytes();
    if bytes.len() == 6 {
        let r = hex_pair(bytes[0], bytes[1])?;
        let g = hex_pair(bytes[2], bytes[3])?;
        let b = hex_pair(bytes[4], bytes[5])?;
        Some(Color::Rgb(r, g, b))
    } else {
        None
    }
}


/// The byte of the hex digit for `v` (below 16), in upper or lower case.
pub open spec fn hex_digit_byte(v: u8, upper: bool) -> u8 {
    if v < 10 { (48 + v) as u8 } else if upper { (55 + v) as u8 } else { (87 + v) as u8 }
}

/// The six hex digits of a colour, two per channel.
pub open spec fn hex_bytes(r: u8, g: u8, b: u8, upper: bool) -> Seq<u8> {
    seq![
        hex_digit_byte(r / 16, upper), hex_digit_byte(r % 16, upper),
        hex_digit_byte(g / 16, upper), hex_digit_byte(g % 16, upper),
        hex_digit_byte(b / 16, upper), hex_digit_byte(b % 16, upper),
    ]
}

proof fn lemma_hex_pair_round_trip(v: u8, upper: bool)
    ensures
        hex_pair_value(hex_digit_byte(v / 16, upper), hex_digit_byte(v % 16, upper)) == Some(v),
{
    let h = v / 16;
    let l = v % 16;
    assert(h < 16 && l < 16);
    assert(hex_digit_value(hex_digit_byte(h, upper)) == Some(h));
    assert(hex_digit_value(hex_digit_byte(l, upper)) == Some(l));
    assert(16 * h + l == v);
}

/// Writing a colour as six hex digits and reading them back gives the colour.
pub proof fn lemma_color_round_trip(r: u8, g: u8, b: u8, upper: bool)
    ensures
        color_from_hex(hex_bytes(r, g, b, upper)) == Some(Color::Rgb(r, g, b)),
{
    lemma_hex_pair_round_trip(r, upper);
    lemma_hex_pair_round_trip(g, upper);
    lemma_hex_pair_round_trip(b, upper);
}

} // verus!
