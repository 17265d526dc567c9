//! The colours of a window, as the front end names them: six hexadecimal
//! digits after any number of `#`.

use crate::text::chars_of;
use vstd::prelude::*;
use vstd::utf8::{encode_utf8, is_ascii_chars, is_ascii_chars_encode_utf8};

verus! {

/// A colour by its red, green and blue channels.
#[derive(Debug, Clone, Copy, PartialEq, Eq, Structural)]
pub struct Rgb {
    pub red: u8,
    pub green: u8,
    pub blue: u8,
}

/// Why a text names no colour.
#[derive(Debug, Clone, Copy, PartialEq, Eq, Structural)]
pub enum ColorError {
    /// It is not six bytes long.
    Format,
    /// It holds something that is no hexadecimal digit.
    Digit,
}

/// The colours of a theme: the background of the window, and whether the
/// theme is a dark one.
#[derive(Debug, Clone, Copy, PartialEq, Eq, Structural)]
pub struct ThemeColors {
    pub background: Rgb,
    pub is_dark: bool,
}

/// `s` without the `#` at its start, however many there are.
pub open spec fn without_hashes(s: Seq<char>) -> Seq<char>
    decreases s.len(),
{
    if s.len() > 0 && s[0] == '#' {
        without_hashes(s.skip(1))
    } else {
        s
    }
}

/// What a hexadecimal digit counts for, in either case of the letters.
pub open spec fn hex_digit(c: char) -> Option<u8> {
    if '0' <= c && c <= '9' {
        Some((c as int - '0' as int) as u8)
    } else if 'a' <= c && c <= 'f' {
        Some((c as int - 'a' as int + 10) as u8)
    } else if 'A' <= c && c <= 'F' {
        Some((c as int - 'A' as int + 10) as u8)
    } else {
        None
    }
}

/// The channel that two characters write: two hexadecimal digits, or a `+`
/// and one digit.
pub open spec fn hex_channel(high: char, low: char) -> Option<u8> {
    if high == '+' {
        hex_digit(low)
    } else {
        match (hex_digit(high), hex_digit(low)) {
            (Some(sixteens), Some(ones)) => Some((sixteens * 16 + ones) as u8),
            _ => None,
        }
    }
}

/// The colour that a text names: after its `#`, six bytes that write three
/// channels.
pub open spec fn hex_color(s: Seq<char>) -> Result<Rgb, ColorError> {
    let digits = without_hashes(s);
    if encode_utf8(digits).len() != 6 {
        Err(ColorError::Format)
    } else if !is_ascii_chars(digits) {
        Err(ColorError::Digit)
    } else {
        match (
            hex_channel(digits[0], digits[1]),
            hex_channel(digits[2], digits[3]),
            hex_channel(digits[4], digits[5]),
        ) {
            (Some(red), Some(green), Some(blue)) => Ok(Rgb { red, green, blue }),
            _ => Err(ColorError::Digit),
        }
    }
}

/// Whether a theme with this foreground is a dark one: it is when the
/// foreground is bright, that is when its channels are above 128 on average.
pub open spec fn is_bright(color: Rgb) -> bool {
    color.red + color.green + color.blue > 3 * 128
}

fn digit_of(c: char) -> (value: Option<u8>)
    ensures
        value == hex_digit(c),
        value matches Some(v) ==> v < 16,
{
    if '0' <= c && c <= '9' {
        Some(c as u8 - 48)
    } else if 'a' <= c && c <= 'f' {
        Some(c as u8 - 97 + 10)
    } else if 'A' <= c && c <= 'F' {
        Some(c as u8 - 65 + 10)
    } else {
        None
    }
}

fn channel_of(high: char, low: char) -> (value: Option<u8>)
    ensures
        value == hex_channel(high, low),
{
    if high == '+' {
        return digit_of(low);
    }
    match digit_of(high) {
        Some(sixteens) => match digit_of(low) {
            Some(ones) => Some(sixteens * 16 + ones),
            None => None,
        },
        None => None,
    }
}

/// The colour that `hex_color` names.
pub fn parse_hex_color(hex_color: &str) -> (color: Result<Rgb, ColorError>)
    ensures
        color == self::hex_color(hex_color@),
{
    let text = chars_of(hex_color);
    let len = text.len();
    let mut start: usize = 0;
    assert(text@.skip(0) == text@);
    while start < len && text[start] == '#'
        invariant
            start <= len,
            len == text.len(),
            without_hashes(text@.skip(start as int)) == without_hashes(text@),
        decreases len - start,
    {
        assert(text@.skip(start as int).skip(1) == text@.skip(start + 1));
        start += 1;
    }
    let digits = hex_color.substring_char(start, len);
    assert(digits@ == text@.skip(start as int));
    assert(digits@ == without_hashes(hex_color@));
    if digits.as_bytes().len() != 6 {
        return Err(ColorError::Format);
    }
    if !digits.is_ascii() {
        return Err(ColorError::Digit);
    }
    proof {
        is_ascii_chars_encode_utf8(digits@);
    }
    let red = channel_of(text[start], text[start + 1]);
    let green = channel_of(text[start + 2], text[start + 3]);
    let blue = channel_of(text[start + 4], text[start + 5]);
    match (red, green, blue) {
        (Some(red), Some(green), Some(blue)) => Ok(Rgb { red, green, blue }),
        _ => Err(ColorError::Digit),
    }
}

/// Whether a theme with this foreground is a dark one.
pub fn is_dark_theme(foreground: Rgb) -> (dark: bool)
    ensures
        dark == is_bright(foreground),
{
    foreground.red as u16 + foreground.green as u16 + foreground.blue as u16 > 384
}

/// The words for a colour that could not be read, where `which` says which
/// colour it is.
pub open spec fn color_error_text(error: ColorError, which: Seq<char>) -> Seq<char> {
    match error {
        ColorError::Format => "Invalid "@ + which + "hex color format"@,
        ColorError::Digit => "invalid digit found in string"@,
    }
}

/// The words for a colour that could not be read, where `which` says which
/// colour it is: nothing, or a word with a space after it.
pub fn color_error_message(error: ColorError, which: &str) -> (out: String)
    ensures
        out@ == color_error_text(error, which@),
{
    match error {
        ColorError::Format => {
            let mut out = "Invalid ".to_string();
            out.append(which);
            out.append("hex color format");
            out
        },
        ColorError::Digit => "invalid digit found in string".to_string(),
    }
}

/// What `theme_colors` answers.
pub open spec fn theme_of(background: Seq<char>, foreground: Seq<char>) -> Result<
    ThemeColors,
    (ColorError, Seq<char>),
> {
    match hex_color(background) {
        Err(error) => Err((error, "background "@)),
        Ok(back) => match hex_color(foreground) {
            Err(error) => Err((error, "foreground "@)),
            Ok(fore) => Ok(ThemeColors { background: back, is_dark: is_bright(fore) }),
        },
    }
}

/// The colours of a theme by its background and foreground: the background
/// is the window's, and a bright foreground makes the theme a dark one. The
/// background is read first, and the first colour that cannot be read is the
/// error.
pub fn theme_colors(bg_hex: &str, fg_hex: &str) -> (theme: Result<ThemeColors, String>)
    ensures
        match theme_of(bg_hex@, fg_hex@) {
            Ok(colors) => theme == Ok::<ThemeColors, String>(colors),
            Err((error, which)) => theme matches Err(why) && why@ == color_error_text(
                error,
                which,
            ),
        },
{
    let background = match parse_hex_color(bg_hex) {
        Ok(color) => color,
        Err(error) => return Err(color_error_message(error, "background ")),
    };
    let foreground = match parse_hex_color(fg_hex) {
        Ok(color) => color,
        Err(error) => return Err(color_error_message(error, "foreground ")),
    };
    Ok(ThemeColors { background, is_dark: is_dark_theme(foreground) })
}

} // verus!
