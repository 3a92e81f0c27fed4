//! The sixteen named ANSI colors (4-bit: eight base colors and their bright variants).
use vstd::prelude::*;

use crate::mode::ColorKind;
use crate::sgr::{encode_args, encode_escape, Layer};
use crate::{Color, WriteColor};

verus! {

/// A named ANSI color
#[derive(Debug, Clone, Copy, PartialEq, Eq, Hash, Structural)]
pub enum AnsiColor {
    /// Palette entry 0
    Black,
    /// Palette entry 1
    Red,
    /// Palette entry 2
    Green,
    /// Palette entry 3
    Yellow,
    /// Palette entry 4
    Blue,
    /// Palette entry 5
    Magenta,
    /// Palette entry 6
    Cyan,
    /// Palette entry 7
    White,
    /// Palette entry 8
    BrightBlack,
    /// Palette entry 9
    BrightRed,
    /// Palette entry 10
    BrightGreen,
    /// Palette entry 11
    BrightYellow,
    /// Palette entry 12
    BrightBlue,
    /// Palette entry 13
    BrightMagenta,
    /// Palette entry 14
    BrightCyan,
    /// Palette entry 15
    BrightWhite,
}

impl AnsiColor {
    /// The palette entry of this color, `0..16`.
    pub open spec fn index(self) -> int {
        match self {
            AnsiColor::Black => 0,
            AnsiColor::Red => 1,
            AnsiColor::Green => 2,
            AnsiColor::Yellow => 3,
            AnsiColor::Blue => 4,
            AnsiColor::Magenta => 5,
            AnsiColor::Cyan => 6,
            AnsiColor::White => 7,
            AnsiColor::BrightBlack => 8,
            AnsiColor::BrightRed => 9,
            AnsiColor::BrightGreen => 10,
            AnsiColor::BrightYellow => 11,
            AnsiColor::BrightBlue => 12,
            AnsiColor::BrightMagenta => 13,
            AnsiColor::BrightCyan => 14,
            AnsiColor::BrightWhite => 15,
        }
    }

    /// The palette entry of this color.
    pub fn to_index(self) -> (r: u8)
        ensures
            r as int == self.index(),
            r < 16,
    {
        match self {
            AnsiColor::Black => 0,
            AnsiColor::Red => 1,
            AnsiColor::Green => 2,
            AnsiColor::Yellow => 3,
            AnsiColor::Blue => 4,
            AnsiColor::Magenta => 5,
            AnsiColor::Cyan => 6,
            AnsiColor::White => 7,
            AnsiColor::BrightBlack => 8,
            AnsiColor::BrightRed => 9,
            AnsiColor::BrightGreen => 10,
            AnsiColor::BrightYellow => 11,
            AnsiColor::BrightBlue => 12,
            AnsiColor::BrightMagenta => 13,
            AnsiColor::BrightCyan => 14,
            AnsiColor::BrightWhite => 15,
        }
    }

    /// The named color at palette entry `index`, if `index < 16`.
    pub fn from_index(index: u8) -> (r: Option<AnsiColor>)
        ensures
            r is Some <==> index < 16,
            r matches Some(c) ==> c.index() == index as int,
    {
        match index {
            0 => Some(AnsiColor::Black),
            1 => Some(AnsiColor::Red),
            2 => Some(AnsiColor::Green),
            3 => Some(AnsiColor::Yellow),
            4 => Some(AnsiColor::Blue),
            5 => Some(AnsiColor::Magenta),
            6 => Some(AnsiColor::Cyan),
            7 => Some(AnsiColor::White),
            8 => Some(AnsiColor::BrightBlack),
            9 => Some(AnsiColor::BrightRed),
            10 => Some(AnsiColor::BrightGreen),
            11 => Some(AnsiColor::BrightYellow),
            12 => Some(AnsiColor::BrightBlue),
            13 => Some(AnsiColor::BrightMagenta),
            14 => Some(AnsiColor::BrightCyan),
            15 => Some(AnsiColor::BrightWhite),
            _ => None,
        }
    }
}

} // verus!

verus! {

impl crate::seal::Seal for AnsiColor {

}

impl crate::ColorSpec for AnsiColor {
    type Dynamic = Color;

    open spec fn spec_value(&self) -> Color {
        Color::Ansi(*self)
    }

    fn kind(self) -> (r: ColorKind) {
        ColorKind::Ansi
    }

    fn into_dynamic(self) -> (r: Color) {
        Color::Ansi(self)
    }

    fn foreground_args(self) -> (r: String) {
        encode_args(Color::Ansi(self), Layer::Foreground)
    }

    fn background_args(self) -> (r: String) {
        encode_args(Color::Ansi(self), Layer::Background)
    }

    fn underline_args(self) -> (r: String) {
        encode_args(Color::Ansi(self), Layer::Underline)
    }

    fn foreground_escape(self) -> (r: String) {
        encode_escape(Color::Ansi(self), Layer::Foreground)
    }

    fn background_escape(self) -> (r: String) {
        encode_escape(Color::Ansi(self), Layer::Background)
    }

    fn underline_escape(self) -> (r: String) {
        encode_escape(Color::Ansi(self), Layer::Underline)
    }
}

impl From<AnsiColor> for Color {
    fn from(color: AnsiColor) -> (r: Self) {
        Color::Ansi(color)
    }
}

impl vstd::std_specs::convert::FromSpecImpl<AnsiColor> for Color {
    open spec fn obeys_from_spec() -> bool {
        true
    }

    open spec fn from_spec(color: AnsiColor) -> Self {
        Color::Ansi(color)
    }
}

impl From<AnsiColor> for Option<Color> {
    fn from(color: AnsiColor) -> (r: Self) {
        Some(Color::Ansi(color))
    }
}

impl vstd::std_specs::convert::FromSpecImpl<AnsiColor> for Option<Color> {
    open spec fn obeys_from_spec() -> bool {
        true
    }

    open spec fn from_spec(color: AnsiColor) -> Self {
        Some(Color::Ansi(color))
    }
}

} // verus!
