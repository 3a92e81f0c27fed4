//! Terminal text styling rendered as ANSI escape sequences.
//!
//! A color is one of three models (named ANSI, the Xterm palette, 24-bit RGB),
//! either chosen at run time ([`Color`]) or fixed in its type
//! ([`rgb::Rgb`], [`xterm::Xterm`]). A [`Style`] joins up to three colors and a
//! set of effects into a single escape sequence.
use vstd::prelude::*;
use vstd::string::StringExecFns;

pub mod ansi;
pub mod effect;
pub mod mode;
pub mod rgb;
mod seal;
pub mod sgr;
pub mod style;
pub mod xterm;


pub use effect::{Effect, EffectFlags};
pub use style::Style;

use crate::mode::{kind_of, kind_of_option, ColorKind};
use crate::sgr::{args_of, escape_of, lemma_escape_wraps_args, text, Layer};

verus! {

/// A value together with the style to write it in
#[derive(Clone, Copy)]
pub struct StyledValue<T, F = NoColor, B = NoColor, U = NoColor> {
    /// The value to style
    pub value: T,
    /// The style to use
    pub style: style::Style<F, B, U>,
    /// The stream to use
    pub stream: Option<mode::Stream>,
}

impl<'a, F: OptionalColor, B: OptionalColor, U: OptionalColor> StyledValue<&'a str, F, B, U> {
    /// `value` to be written in `style` to `stream`.
    pub fn new(value: &'a str, style: Style<F, B, U>, stream: Option<mode::Stream>) -> (r: Self)
        ensures
            r.value == value,
            r.style == style,
            r.stream == stream,
    {
        StyledValue { value, style, stream }
    }

    /// Writes the value in its style, if `config` (or `mode`, which takes
    /// precedence) enables color for the value's stream.
    pub fn render(&self, config: &mode::ModeConfig, mode: Option<mode::ColorMode>) -> (r: String)
        ensures
            r@ == style::rendered(
                self.style.params(),
                self.value@,
                mode::spec_resolve(mode, config.default_mode, config.env, self.stream),
            ),
    {
        let enabled = config.should_color(mode, self.stream);
        self.style.render(self.value, enabled)
    }
}

/// A no color placeholder type
#[derive(Debug, Clone, Copy)]
pub struct NoColor;

/// A runtime color
#[derive(Debug, Clone, Copy, PartialEq, Eq, Hash, Structural)]
pub enum Color {
    /// A named ANSI color (see [`ansi`])
    Ansi(ansi::AnsiColor),
    /// An Xterm palette color (see [`xterm`])
    Xterm(xterm::XtermColor),
    /// A 24-bit color (see [`rgb`])
    Rgb(rgb::RgbColor),
}

/// A color whose escape sequences are known as whole strings
pub trait ColorSpec: seal::Seal {
    /// The runtime version of the color
    type Dynamic: WriteColor;

    /// The color this value stands for.
    spec fn spec_value(&self) -> Color;

    /// The color model of this color
    fn kind(self) -> (r: ColorKind)
        ensures
            r == kind_of(self.spec_value()),
    ;

    /// Convert to the runtime version of the color
    fn into_dynamic(self) -> (r: Self::Dynamic)
        ensures
            r.spec_color() == self.spec_value(),
    ;

    /// The foreground color arguments
    fn foreground_args(self) -> (r: String)
        ensures
            r@ == text(args_of(self.spec_value(), Layer::Foreground)),
    ;

    /// The background color arguments
    fn background_args(self) -> (r: String)
        ensures
            r@ == text(args_of(self.spec_value(), Layer::Background)),
    ;

    /// The underline color arguments
    fn underline_args(self) -> (r: String)
        ensures
            r@ == text(args_of(self.spec_value(), Layer::Underline)),
    ;

    /// The foreground color sequence
    fn foreground_escape(self) -> (r: String)
        ensures
            r@ == text(escape_of(self.spec_value(), Layer::Foreground)),
    ;

    /// The background color sequence
    fn background_escape(self) -> (r: String)
        ensures
            r@ == text(escape_of(self.spec_value(), Layer::Background)),
    ;

    /// The underline color sequence
    fn underline_escape(self) -> (r: String)
        ensures
            r@ == text(escape_of(self.spec_value(), Layer::Underline)),
    ;
}

/// A color that can write its escape sequences to a string
pub trait WriteColor: seal::Seal {
    /// The color this value stands for.
    spec fn spec_color(&self) -> Color;

    /// The color model of this color
    fn color_kind(self) -> (r: ColorKind)
        ensures
            r == kind_of(self.spec_color()),
    ;

    /// write the foreground color arguments
    fn fmt_foreground_args(self, f: &mut String)
        ensures
            final(f)@ == old(f)@ + text(args_of(self.spec_color(), Layer::Foreground)),
    ;

    /// write the background color arguments
    fn fmt_background_args(self, f: &mut String)
        ensures
            final(f)@ == old(f)@ + text(args_of(self.spec_color(), Layer::Background)),
    ;

    /// write the underline color arguments
    fn fmt_underline_args(self, f: &mut String)
        ensures
            final(f)@ == old(f)@ + text(args_of(self.spec_color(), Layer::Underline)),
    ;

    /// write the foreground color sequence
    fn fmt_foreground(self, f: &mut String)
        ensures
            final(f)@ == old(f)@ + text(escape_of(self.spec_color(), Layer::Foreground)),
    {
        proof {
            lemma_escape_wraps_args(self.spec_color(), Layer::Foreground);
        }
        f.append("\x1b[");
        self.fmt_foreground_args(f);
        f.append("m");
        assert(f@ =~= old(f)@ + text(escape_of(self.spec_color(), Layer::Foreground)));
    }

    /// write the background color sequence
    fn fmt_background(self, f: &mut String)
        ensures
            final(f)@ == old(f)@ + text(escape_of(self.spec_color(), Layer::Background)),
    {
        proof {
            lemma_escape_wraps_args(self.spec_color(), Layer::Background);
        }
        f.append("\x1b[");
        self.fmt_background_args(f);
        f.append("m");
        assert(f@ =~= old(f)@ + text(escape_of(self.spec_color(), Layer::Background)));
    }

    /// write the underline color sequence
    fn fmt_underline(self, f: &mut String)
        ensures
            final(f)@ == old(f)@ + text(escape_of(self.spec_color(), Layer::Underline)),
    {
        proof {
            lemma_escape_wraps_args(self.spec_color(), Layer::Underline);
        }
        f.append("\x1b[");
        self.fmt_underline_args(f);
        f.append("m");
        assert(f@ =~= old(f)@ + text(escape_of(self.spec_color(), Layer::Underline)));
    }
}

impl<C: ColorSpec> WriteColor for C {
    open spec fn spec_color(&self) -> Color {
        self.spec_value()
    }

    fn color_kind(self) -> (r: ColorKind) {
        self.kind()
    }

    fn fmt_foreground_args(self, f: &mut String) {
        let s = self.foreground_args();
        f.append(s.as_str());
    }

    fn fmt_background_args(self, f: &mut String) {
        let s = self.background_args();
        f.append(s.as_str());
    }

    fn fmt_underline_args(self, f: &mut String) {
        let s = self.underline_args();
        f.append(s.as_str());
    }

    fn fmt_foreground(self, f: &mut String) {
        let s = self.foreground_escape();
        f.append(s.as_str());
    }

    fn fmt_background(self, f: &mut String) {
        let s = self.background_escape();
        f.append(s.as_str());
    }

    fn fmt_underline(self, f: &mut String) {
        let s = self.underline_escape();
        f.append(s.as_str());
    }
}

impl seal::Seal for Color {

}

impl WriteColor for Color {
    open spec fn spec_color(&self) -> Color {
        *self
    }

    fn color_kind(self) -> (r: ColorKind) {
        mode::color_kind_of(self)
    }

    fn fmt_foreground_args(self, f: &mut String) {
        match self {
            Color::Ansi(color) => color.fmt_foreground_args(f),
            Color::Xterm(color) => color.fmt_foreground_args(f),
            Color::Rgb(color) => color.fmt_foreground_args(f),
        }
    }

    fn fmt_background_args(self, f: &mut String) {
        match self {
            Color::Ansi(color) => color.fmt_background_args(f),
            Color::Xterm(color) => color.fmt_background_args(f),
            Color::Rgb(color) => color.fmt_background_args(f),
        }
    }

    fn fmt_underline_args(self, f: &mut String) {
        match self {
            Color::Ansi(color) => color.fmt_underline_args(f),
            Color::Xterm(color) => color.fmt_underline_args(f),
            Color::Rgb(color) => color.fmt_underline_args(f),
        }
    }

    fn fmt_foreground(self, f: &mut String) {
        match self {
            Color::Ansi(color) => color.fmt_foreground(f),
            Color::Xterm(color) => color.fmt_foreground(f),
            Color::Rgb(color) => color.fmt_foreground(f),
        }
    }

    fn fmt_background(self, f: &mut String) {
        match self {
            Color::Ansi(color) => color.fmt_background(f),
            Color::Xterm(color) => color.fmt_background(f),
            Color::Rgb(color) => color.fmt_background(f),
        }
    }

    fn fmt_underline(self, f: &mut String) {
        match self {
            Color::Ansi(color) => color.fmt_underline(f),
            Color::Xterm(color) => color.fmt_underline(f),
            Color::Rgb(color) => color.fmt_underline(f),
        }
    }
}

/// Whether a color type always, sometimes or never holds a color
#[derive(Debug, Clone, Copy, PartialEq, Eq, Structural)]
pub enum Kind {
    /// Some values hold a color, others do not
    MaybeSome,
    /// Every value holds a color
    AlwaysSome,
    /// No value holds a color
    NeverSome,
}

/// An optional color type
pub trait OptionalColor: seal::Seal {
    /// The color type
    type Color: WriteColor;

    /// The color this value holds, if any.
    spec fn spec_get(&self) -> Option<crate::Color>;

    /// Whether values of this type always, sometimes or never hold a color.
    spec fn spec_presence(&self) -> Kind;

    /// Whether this type always, sometimes or never holds a color
    fn presence(self) -> (r: Kind)
        ensures
            r == self.spec_presence(),
            r == Kind::AlwaysSome ==> self.spec_get() is Some,
            r == Kind::NeverSome ==> self.spec_get() is None,
    ;

    /// Get the color value
    fn get(self) -> (r: Option<Self::Color>)
        ensures
            r is Some <==> self.spec_get() is Some,
            r matches Some(c) ==> self.spec_get() == Some(c.spec_color()),
    ;

    /// The color model of the color held, or `NoColor`
    fn color_kind(self) -> (r: ColorKind)
        ensures
            r == kind_of_option(self.spec_get()),
    {
        match self.get() {
            Some(c) => WriteColor::color_kind(c),
            None => ColorKind::NoColor,
        }
    }
}

impl<C: WriteColor> OptionalColor for C {
    type Color = Self;

    open spec fn spec_get(&self) -> Option<crate::Color> {
        Some(self.spec_color())
    }

    open spec fn spec_presence(&self) -> Kind {
        Kind::AlwaysSome
    }

    fn presence(self) -> (r: Kind) {
        Kind::AlwaysSome
    }

    fn get(self) -> (r: Option<Self::Color>) {
        Some(self)
    }
}

impl<C: seal::Seal> seal::Seal for Option<C> {

}

impl<C: OptionalColor> OptionalColor for Option<C> {
    type Color = C::Color;

    open spec fn spec_get(&self) -> Option<crate::Color> {
        match self {
            Some(c) => c.spec_get(),
            None => None,
        }
    }

    open spec fn spec_presence(&self) -> Kind {
        Kind::MaybeSome
    }

    fn presence(self) -> (r: Kind) {
        Kind::MaybeSome
    }

    fn get(self) -> (r: Option<Self::Color>) {
        match self {
            Some(c) => c.get(),
            None => None,
        }
    }
}

impl seal::Seal for NoColor {

}

impl OptionalColor for NoColor {
    type Color = crate::Color;

    open spec fn spec_get(&self) -> Option<crate::Color> {
        None
    }

    open spec fn spec_presence(&self) -> Kind {
        Kind::NeverSome
    }

    fn presence(self) -> (r: Kind) {
        Kind::NeverSome
    }

    fn get(self) -> (r: Option<Self::Color>) {
        None
    }
}

/// A color fixed by its type
pub trait ComptimeColor: OptionalColor {
    /// The corresponding [`Color`] value
    fn value(self) -> (r: Option<crate::Color>)
        ensures
            r == self.spec_get(),
    ;
}

impl ComptimeColor for NoColor {
    fn value(self) -> (r: Option<crate::Color>) {
        None
    }
}

impl From<NoColor> for Option<Color> {
    fn from(_value: NoColor) -> (r: Self) {
        None
    }
}

impl vstd::std_specs::convert::FromSpecImpl<NoColor> for Option<Color> {
    open spec fn obeys_from_spec() -> bool {
        true
    }

    open spec fn from_spec(v: NoColor) -> Self {
        None
    }
}

} // verus!
