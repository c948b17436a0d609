//! Terminal colors and the parameter codes that select them.

use crate::text::{chars_of, decimal, number_list, push_decimal, push_number_list};
use vstd::prelude::*;

verus! {

/// A terminal color: the terminal's default, one of the sixteen named ANSI
/// colors, an entry of the 256-color palette, or a true color.
#[derive(Debug, Clone, Copy, PartialEq, Eq, Hash, Structural)]
pub enum Color {
    /// Default terminal color.
    Default,
    /// Black (ANSI 0).
    Black,
    /// Red (ANSI 1).
    Red,
    /// Green (ANSI 2).
    Green,
    /// Yellow (ANSI 3).
    Yellow,
    /// Blue (ANSI 4).
    Blue,
    /// Magenta (ANSI 5).
    Magenta,
    /// Cyan (ANSI 6).
    Cyan,
    /// White (ANSI 7).
    White,
    /// Bright black (ANSI 8).
    BrightBlack,
    /// Bright red (ANSI 9).
    BrightRed,
    /// Bright green (ANSI 10).
    BrightGreen,
    /// Bright yellow (ANSI 11).
    BrightYellow,
    /// Bright blue (ANSI 12).
    BrightBlue,
    /// Bright magenta (ANSI 13).
    BrightMagenta,
    /// Bright cyan (ANSI 14).
    BrightCyan,
    /// Bright white (ANSI 15).
    BrightWhite,
    /// 256-color palette (0-255).
    Ansi256(u8),
    /// True color RGB.
    Rgb {
        /// Red component (0-255).
        r: u8,
        /// Green component (0-255).
        g: u8,
        /// Blue component (0-255).
        b: u8,
    },
}

/// Why a color could not be built.
#[derive(Debug, Clone, Copy, PartialEq, Eq, Hash, Structural)]
pub enum ColorError {
    /// The text is not six hexadecimal digits, with or without `#` in front.
    InvalidColorLiteral,
}

/// The name of the basic color with ANSI number `i`, for `i` from 0 to 7.
pub open spec fn spec_basic_color_name(i: int) -> Seq<char> {
    if i == 0 {
        "black"@
    } else if i == 1 {
        "red"@
    } else if i == 2 {
        "green"@
    } else if i == 3 {
        "yellow"@
    } else if i == 4 {
        "blue"@
    } else if i == 5 {
        "magenta"@
    } else if i == 6 {
        "cyan"@
    } else {
        "white"@
    }
}

/// The name of the basic color with ANSI number `i`.
pub(crate) fn basic_color_name(i: u16) -> (out: &'static str)
    requires
        i < 8,
    ensures
        out@ == spec_basic_color_name(i as int),
{
    if i == 0 {
        "black"
    } else if i == 1 {
        "red"
    } else if i == 2 {
        "green"
    } else if i == 3 {
        "yellow"
    } else if i == 4 {
        "blue"
    } else if i == 5 {
        "magenta"
    } else if i == 6 {
        "cyan"
    } else {
        "white"
    }
}

/// Whether `c` is a hexadecimal digit, in either case.
pub open spec fn is_hex_digit(c: char) -> bool {
    ('0' <= c <= '9') || ('a' <= c <= 'f') || ('A' <= c <= 'F')
}

/// The value of the hexadecimal digit `c`.
pub open spec fn hex_value(c: char) -> int {
    if '0' <= c <= '9' {
        c as int - 48
    } else if 'a' <= c <= 'f' {
        c as int - 87
    } else {
        c as int - 55
    }
}

/// The byte that the two hexadecimal digits `hi` and `lo` write.
pub open spec fn hex_byte(hi: char, lo: char) -> u8 {
    (16 * hex_value(hi) + hex_value(lo)) as u8
}

/// The color that exactly six hexadecimal digits write, two for each of
/// red, green and blue. `None` for every other text.
pub open spec fn hex_digits(d: Seq<char>) -> Option<Color> {
    if d.len() == 6 && (forall|i: int| 0 <= i < 6 ==> is_hex_digit(#[trigger] d[i])) {
        Some(Color::Rgb { r: hex_byte(d[0], d[1]), g: hex_byte(d[2], d[3]), b: hex_byte(d[4], d[5]) })
    } else {
        None
    }
}

/// The color that a hexadecimal literal denotes: six hexadecimal digits,
/// with or without one `#` in front. `None` for every other text, one with
/// a second `#` among them.
pub open spec fn hex_literal(s: Seq<char>) -> Option<Color> {
    if s.len() > 0 && s[0] == '#' {
        hex_digits(s.drop_first())
    } else {
        hex_digits(s)
    }
}

fn hex_digit(c: char) -> (out: Option<u8>)
    ensures
        out is Some <==> is_hex_digit(c),
        out is Some ==> out->0 == hex_value(c) && out->0 < 16,
{
    let v: u32 = c as u32;
    if '0' <= c && c <= '9' {
        Some((v - 48) as u8)
    } else if 'a' <= c && c <= 'f' {
        Some((v - 87) as u8)
    } else if 'A' <= c && c <= 'F' {
        Some((v - 55) as u8)
    } else {
        None
    }
}

fn hex_pair(hi: char, lo: char) -> (out: Option<u8>)
    ensures
        out is Some <==> is_hex_digit(hi) && is_hex_digit(lo),
        out is Some ==> out->0 == hex_byte(hi, lo),
{
    match (hex_digit(hi), hex_digit(lo)) {
        (Some(h), Some(l)) => Some(16 * h + l),
        _ => None,
    }
}

impl Color {
    /// The number of a named color among the sixteen ANSI colors; `None` for
    /// the default color, a palette entry and a true color.
    pub open spec fn spec_ansi_index(self) -> Option<int> {
        match self {
            Color::Black => Some(0),
            Color::Red => Some(1),
            Color::Green => Some(2),
            Color::Yellow => Some(3),
            Color::Blue => Some(4),
            Color::Magenta => Some(5),
            Color::Cyan => Some(6),
            Color::White => Some(7),
            Color::BrightBlack => Some(8),
            Color::BrightRed => Some(9),
            Color::BrightGreen => Some(10),
            Color::BrightYellow => Some(11),
            Color::BrightBlue => Some(12),
            Color::BrightMagenta => Some(13),
            Color::BrightCyan => Some(14),
            Color::BrightWhite => Some(15),
            _ => None,
        }
    }

    /// The style parameters that select this color: for the foreground where
    /// `base` is 30, for the background where it is 40. A basic color is
    /// `base` plus its number, a bright one 60 more, the default `base` plus
    /// 9; a palette entry and a true color follow the extended selector
    /// `base` plus 8.
    pub open spec fn spec_params(self, base: int) -> Seq<u16> {
        match self {
            Color::Default => seq![(base + 9) as u16],
            Color::Ansi256(code) => seq![(base + 8) as u16, 5u16, code as u16],
            Color::Rgb { r, g, b } => seq![(base + 8) as u16, 2u16, r as u16, g as u16, b as u16],
            _ => {
                let i = self.spec_ansi_index()->0;
                if i < 8 {
                    seq![(base + i) as u16]
                } else {
                    seq![(base + 60 + i - 8) as u16]
                }
            },
        }
    }

    /// The parameters that select this color for the foreground.
    pub open spec fn spec_fg_params(self) -> Seq<u16> {
        self.spec_params(30)
    }

    /// The parameters that select this color for the background.
    pub open spec fn spec_bg_params(self) -> Seq<u16> {
        self.spec_params(40)
    }

    /// The foreground parameters as text: in decimal, separated by `;`.
    pub open spec fn spec_fg_code(self) -> Seq<char> {
        number_list(self.spec_fg_params())
    }

    /// The background parameters as text: in decimal, separated by `;`.
    pub open spec fn spec_bg_code(self) -> Seq<char> {
        number_list(self.spec_bg_params())
    }

    /// The human-readable name of this color.
    pub open spec fn spec_name(self) -> Seq<char> {
        match self {
            Color::Default => "default"@,
            Color::Ansi256(code) => "color "@ + decimal(code as nat),
            Color::Rgb { r, g, b } => "rgb("@ + decimal(r as nat) + ", "@ + decimal(g as nat)
                + ", "@ + decimal(b as nat) + ")"@,
            _ => {
                let i = self.spec_ansi_index()->0;
                if i < 8 {
                    spec_basic_color_name(i)
                } else {
                    "bright "@ + spec_basic_color_name(i - 8)
                }
            },
        }
    }

    /// Create an RGB color.
    #[must_use]
    pub fn rgb(r: u8, g: u8, b: u8) -> (out: Self)
        ensures
            out == (Color::Rgb { r, g, b }),
    {
        Color::Rgb { r, g, b }
    }

    /// Create a color from a hexadecimal literal such as `#F97316` or
    /// `f97316`. Any other text is refused.
    pub fn from_hex(hex: &str) -> (out: Result<Self, ColorError>)
        ensures
            out == match hex_literal(hex@) {
                Some(color) => Ok::<Color, ColorError>(color),
                None => Err::<Color, ColorError>(ColorError::InvalidColorLiteral),
            },
    {
        let v = chars_of(hex);
        let k: usize = if v.len() > 0 && v[0] == '#' {
            1
        } else {
            0
        };
        if v.len() - k != 6 {
            return Err(ColorError::InvalidColorLiteral);
        }
        match (hex_pair(v[k], v[k + 1]), hex_pair(v[k + 2], v[k + 3]), hex_pair(v[k + 4], v[k + 5])) {
            (Some(r), Some(g), Some(b)) => Ok(Color::Rgb { r, g, b }),
            _ => Err(ColorError::InvalidColorLiteral),
        }
    }

    /// Create a 256-color palette color.
    #[must_use]
    pub fn ansi256(code: u8) -> (out: Self)
        ensures
            out == Color::Ansi256(code),
    {
        Color::Ansi256(code)
    }

    /// The number of a named color among the sixteen ANSI colors.
    fn ansi_index(&self) -> (out: Option<u16>)
        ensures
            out is Some <==> self.spec_ansi_index() is Some,
            out is Some ==> out->0 == self.spec_ansi_index()->0,
            (out is None) == (*self is Default || *self is Ansi256 || *self is Rgb),
    {
        match self {
            Color::Black => Some(0),
            Color::Red => Some(1),
            Color::Green => Some(2),
            Color::Yellow => Some(3),
            Color::Blue => Some(4),
            Color::Magenta => Some(5),
            Color::Cyan => Some(6),
            Color::White => Some(7),
            Color::BrightBlack => Some(8),
            Color::BrightRed => Some(9),
            Color::BrightGreen => Some(10),
            Color::BrightYellow => Some(11),
            Color::BrightBlue => Some(12),
            Color::BrightMagenta => Some(13),
            Color::BrightCyan => Some(14),
            Color::BrightWhite => Some(15),
            _ => None,
        }
    }

    fn params(&self, base: u16) -> (out: Vec<u16>)
        requires
            base == 30 || base == 40,
        ensures
            out@ == self.spec_params(base as int),
    {
        let out = match self.ansi_index() {
            Some(i) => if i < 8 {
                vec![base + i]
            } else {
                vec![base + 60 + i - 8]
            },
            None => match self {
                Color::Ansi256(code) => vec![base + 8, 5, *code as u16],
                Color::Rgb { r, g, b } => vec![base + 8, 2, *r as u16, *g as u16, *b as u16],
                _ => vec![base + 9],
            },
        };
        out
    }

    /// The style parameters that select this color for the foreground.
    #[must_use]
    pub fn fg_params(&self) -> (out: Vec<u16>)
        ensures
            out@ == self.spec_fg_params(),
    {
        self.params(30)
    }

    /// The style parameters that select this color for the background.
    #[must_use]
    pub fn bg_params(&self) -> (out: Vec<u16>)
        ensures
            out@ == self.spec_bg_params(),
    {
        self.params(40)
    }

    /// Get the ANSI SGR code for foreground.
    #[must_use]
    pub fn fg_code(&self) -> (out: String)
        ensures
            out@ == self.spec_fg_code(),
    {
        let params = self.fg_params();
        let mut out = String::new();
        push_number_list(&mut out, params.as_slice());
        out
    }

    /// Get the ANSI SGR code for background.
    #[must_use]
    pub fn bg_code(&self) -> (out: String)
        ensures
            out@ == self.spec_bg_code(),
    {
        let params = self.bg_params();
        let mut out = String::new();
        push_number_list(&mut out, params.as_slice());
        out
    }

    /// Get a human-readable name for the color.
    #[must_use]
    pub fn name(&self) -> (out: String)
        ensures
            out@ == self.spec_name(),
    {
        match self.ansi_index() {
            Some(i) => if i < 8 {
                basic_color_name(i).to_owned()
            } else {
                let mut out = "bright ".to_owned();
                out.append(basic_color_name(i - 8));
                out
            },
            None => match self {
                Color::Ansi256(code) => {
                    let mut out = "color ".to_owned();
                    push_decimal(&mut out, *code as u16);
                    out
                },
                Color::Rgb { r, g, b } => {
                    let mut out = "rgb(".to_owned();
                    push_decimal(&mut out, *r as u16);
                    out.append(", ");
                    push_decimal(&mut out, *g as u16);
                    out.append(", ");
                    push_decimal(&mut out, *b as u16);
                    out.append(")");
                    out
                },
                _ => "default".to_owned(),
            },
        }
    }
}

} // verus!
