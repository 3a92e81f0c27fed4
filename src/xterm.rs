//! Xterm 8-bit colors (the 256-entry palette), a superset of the named ANSI colors.
use vstd::prelude::*;
use vstd::string::StringExecFns;

use crate::mode::ColorKind;
use crate::rgb::RgbBuffer;
use crate::sgr::{digits, encode_args, encode_escape, text, Layer, FIVE, SEMI};
use crate::{Color, ColorSpec, OptionalColor, WriteColor};

verus! {

/// A runtime Xterm palette color
#[derive(Debug, Clone, Copy, PartialEq, Eq, Hash, Structural)]
pub struct XtermColor {
    /// The palette entry
    pub code: u8,
}

/// `5;n`: the palette selector and entry, shared by every layer.
pub open spec fn xterm_raw_args(code: u8) -> Seq<u8> {
    seq![FIVE, SEMI] + digits(code)
}

impl XtermColor {
    /// The palette color with entry `code`.
    pub fn from_code(code: u8) -> (r: XtermColor)
        ensures
            r.code == code,
    {
        XtermColor { code }
    }

    /// The color arguments shared by every layer, `5;n`
    pub fn args(self) -> (r: String)
        ensures
            r@ == text(xterm_raw_args(self.code)),
    {
        let mut buffer = RgbBuffer::new();
        buffer.write_char(FIVE);
        buffer.write_sep();
        buffer.write_u8(self.code);
        assert(buffer@ =~= xterm_raw_args(self.code));
        String::from_str(buffer.to_str())
    }
}

impl crate::seal::Seal for XtermColor {

}

impl ColorSpec for XtermColor {
    type Dynamic = Color;

    open spec fn spec_value(&self) -> Color {
        Color::Xterm(*self)
    }

    fn kind(self) -> (r: ColorKind) {
        ColorKind::Xterm
    }

    fn into_dynamic(self) -> (r: Color) {
        Color::Xterm(self)
    }

    fn foreground_args(self) -> (r: String) {
        encode_args(Color::Xterm(self), Layer::Foreground)
    }

    fn background_args(self) -> (r: String) {
        encode_args(Color::Xterm(self), Layer::Background)
    }

    fn underline_args(self) -> (r: String) {
        encode_args(Color::Xterm(self), Layer::Underline)
    }

    fn foreground_escape(self) -> (r: String) {
        encode_escape(Color::Xterm(self), Layer::Foreground)
    }

    fn background_escape(self) -> (r: String) {
        encode_escape(Color::Xterm(self), Layer::Background)
    }

    fn underline_escape(self) -> (r: String) {
        encode_escape(Color::Xterm(self), Layer::Underline)
    }
}

/// A compile time Xterm palette color, entry `CODE`
///
/// Converts to [`XtermColor`], [`Color`] and `Option<Color>` via [`From`].
#[derive(Debug, Clone, Copy, PartialEq, Eq, Hash)]
pub struct Xterm<const CODE: u8>;

impl<const CODE: u8> Xterm<CODE> {
    /// The corresponding [`XtermColor`]
    pub fn dynamic() -> (r: XtermColor)
        ensures
            r.code == CODE,
    {
        XtermColor { code: CODE }
    }
}

impl<const CODE: u8> crate::seal::Seal for Xterm<CODE> {

}

impl<const CODE: u8> ColorSpec for Xterm<CODE> {
    type Dynamic = XtermColor;

    open spec fn spec_value(&self) -> Color {
        Color::Xterm(XtermColor { code: CODE })
    }

    fn kind(self) -> (r: ColorKind) {
        ColorKind::Xterm
    }

    fn into_dynamic(self) -> (r: XtermColor) {
        Self::dynamic()
    }

    fn foreground_args(self) -> (r: String) {
        Self::dynamic().foreground_args()
    }

    fn background_args(self) -> (r: String) {
        Self::dynamic().background_args()
    }

    fn underline_args(self) -> (r: String) {
        Self::dynamic().underline_args()
    }

    fn foreground_escape(self) -> (r: String) {
        Self::dynamic().foreground_escape()
    }

    fn background_escape(self) -> (r: String) {
        Self::dynamic().background_escape()
    }

    fn underline_escape(self) -> (r: String) {
        Self::dynamic().underline_escape()
    }
}

impl<const CODE: u8> crate::ComptimeColor for Xterm<CODE> {
    fn value(self) -> (r: Option<Color>) {
        Some(Color::Xterm(Self::dynamic()))
    }
}

impl From<XtermColor> for Color {
    fn from(color: XtermColor) -> (r: Self) {
        Color::Xterm(color)
    }
}

impl vstd::std_specs::convert::FromSpecImpl<XtermColor> for Color {
    open spec fn obeys_from_spec() -> bool {
        true
    }

    open spec fn from_spec(v: XtermColor) -> Self {
        Color::Xterm(v)
    }
}

impl From<XtermColor> for Option<Color> {
    fn from(color: XtermColor) -> (r: Self) {
        Some(Color::Xterm(color))
    }
}

impl vstd::std_specs::convert::FromSpecImpl<XtermColor> for Option<Color> {
    open spec fn obeys_from_spec() -> bool {
        true
    }

    open spec fn from_spec(v: XtermColor) -> Self {
        Some(Color::Xterm(v))
    }
}

impl From<u8> for XtermColor {
    fn from(code: u8) -> (r: Self) {
        XtermColor { code }
    }
}

impl vstd::std_specs::convert::FromSpecImpl<u8> for XtermColor {
    open spec fn obeys_from_spec() -> bool {
        true
    }

    open spec fn from_spec(v: u8) -> Self {
        XtermColor { code: v }
    }
}

impl<const CODE: u8> From<Xterm<CODE>> for XtermColor {
    fn from(_color: Xterm<CODE>) -> (r: Self) {
        XtermColor { code: CODE }
    }
}

impl<const CODE: u8> vstd::std_specs::convert::FromSpecImpl<Xterm<CODE>> for XtermColor {
    open spec fn obeys_from_spec() -> bool {
        true
    }

    open spec fn from_spec(v: Xterm<CODE>) -> Self {
        XtermColor { code: CODE }
    }
}

impl<const CODE: u8> From<Xterm<CODE>> for Color {
    fn from(_color: Xterm<CODE>) -> (r: Self) {
        Color::Xterm(XtermColor { code: CODE })
    }
}

impl<const CODE: u8> vstd::std_specs::convert::FromSpecImpl<Xterm<CODE>> for Color {
    open spec fn obeys_from_spec() -> bool {
        true
    }

    open spec fn from_spec(v: Xterm<CODE>) -> Self {
        Color::Xterm(XtermColor { code: CODE })
    }
}

impl<const CODE: u8> From<Xterm<CODE>> for Option<Color> {
    fn from(_color: Xterm<CODE>) -> (r: Self) {
        Some(Color::Xterm(XtermColor { code: CODE }))
    }
}

impl<const CODE: u8> vstd::std_specs::convert::FromSpecImpl<Xterm<CODE>> for Option<Color> {
    open spec fn obeys_from_spec() -> bool {
        true
    }

    open spec fn from_spec(v: Xterm<CODE>) -> Self {
        Some(Color::Xterm(XtermColor { code: CODE }))
    }
}

} // verus!
