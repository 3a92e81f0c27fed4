//! A style: up to three colors and a set of effects, written as one escape sequence.
use vstd::prelude::*;
use vstd::string::StringExecFns;

use crate::effect::{lemma_members_ordered, members, Effect, EffectFlags};
use crate::rgb::RgbBuffer;
use crate::sgr::{
    args_of, digits, is_param_bytes, lemma_args_are_param_bytes, lemma_text_concat, text, Layer, SEMI,
    ZERO,
};
use crate::{Color, NoColor, OptionalColor, WriteColor};

verus! {

/// A style to write a value in
#[derive(Debug, Clone, Copy)]
pub struct Style<F = NoColor, B = NoColor, U = NoColor> {
    /// The foreground color
    pub foreground: F,
    /// The background color
    pub background: B,
    /// The underline color
    pub underline_color: U,
    /// The text effects
    pub effects: EffectFlags,
}

/// The parameter list of an optional color on `layer`: one entry, or none.
pub open spec fn color_param(color: Option<Color>, layer: Layer) -> Seq<Seq<u8>> {
    match color {
        Some(c) => seq![args_of(c, layer)],
        None => Seq::empty(),
    }
}

/// The SGR code of each effect, in the order given.
pub open spec fn effect_params(effects: Seq<Effect>) -> Seq<Seq<u8>> {
    effects.map_values(|e: Effect| digits(e.spec_code()))
}

/// The parameters joined with `;`.
pub open spec fn join(params: Seq<Seq<u8>>) -> Seq<u8>
    decreases params.len(),
{
    if params.len() == 0 {
        Seq::empty()
    } else if params.len() == 1 {
        params[0]
    } else {
        join(params.drop_last()) + seq![SEMI] + params.last()
    }
}

/// What a style with parameters `params` writes around `value`: one opening
/// sequence and one reset when enabled and there is at least one parameter,
/// else the value alone.
pub open spec fn rendered(params: Seq<Seq<u8>>, value: Seq<char>, enabled: bool) -> Seq<char> {
    if enabled && params.len() > 0 {
        "\x1b["@ + text(join(params)) + "m"@ + value + "\x1b[0m"@
    } else {
        value
    }
}

proof fn lemma_text_join_push(ps: Seq<Seq<u8>>, p: Seq<u8>)
    ensures
        ps.len() == 0 ==> text(join(ps.push(p))) == text(p),
        ps.len() > 0 ==> text(join(ps.push(p))) == text(join(ps)) + ";"@ + text(p),
{
    reveal_strlit(";");
    assert(ps.push(p).drop_last() =~= ps);
    if ps.len() > 0 {
        lemma_text_concat(join(ps) + seq![SEMI], p);
        lemma_text_concat(join(ps), seq![SEMI]);
        assert(text(seq![SEMI]) =~= ";"@);
    }
}

/// Appends the SGR code of `e`.
fn write_effect_code(f: &mut String, e: Effect)
    ensures
        final(f)@ == old(f)@ + text(digits(e.spec_code())),
{
    let mut buffer = RgbBuffer::new();
    buffer.write_u8(e.code());
    assert(buffer@ =~= digits(e.spec_code()));
    f.append(buffer.to_str());
}

impl Style<NoColor, NoColor, NoColor> {
    /// A style with no colors and no effects.
    pub fn new() -> (r: Style)
        ensures
            r.effects@ == Set::<Effect>::empty(),
    {
        Style {
            foreground: NoColor,
            background: NoColor,
            underline_color: NoColor,
            effects: EffectFlags::new(),
        }
    }
}

impl<F, B, U> Style<F, B, U> {
    /// This style with foreground `color`.
    pub fn fg<C>(self, color: C) -> (r: Style<C, B, U>)
        ensures
            r.foreground == color,
            r.background == self.background,
            r.underline_color == self.underline_color,
            r.effects == self.effects,
    {
        Style {
            foreground: color,
            background: self.background,
            underline_color: self.underline_color,
            effects: self.effects,
        }
    }

    /// This style with background `color`.
    pub fn bg<C>(self, color: C) -> (r: Style<F, C, U>)
        ensures
            r.foreground == self.foreground,
            r.background == color,
            r.underline_color == self.underline_color,
            r.effects == self.effects,
    {
        Style {
            foreground: self.foreground,
            background: color,
            underline_color: self.underline_color,
            effects: self.effects,
        }
    }

    /// This style with underline color `color`.
    pub fn underline_color<C>(self, color: C) -> (r: Style<F, B, C>)
        ensures
            r.foreground == self.foreground,
            r.background == self.background,
            r.underline_color == color,
            r.effects == self.effects,
    {
        Style {
            foreground: self.foreground,
            background: self.background,
            underline_color: color,
            effects: self.effects,
        }
    }

    /// This style with effect `e` added.
    pub fn effect(self, e: Effect) -> (r: Self)
        ensures
            r.foreground == self.foreground,
            r.background == self.background,
            r.underline_color == self.underline_color,
            r.effects@ == self.effects@.insert(e),
    {
        Style {
            foreground: self.foreground,
            background: self.background,
            underline_color: self.underline_color,
            effects: self.effects.with(e),
        }
    }

    /// This style with every effect of `effects` added.
    pub fn with_effects(self, effects: EffectFlags) -> (r: Self)
        ensures
            r.foreground == self.foreground,
            r.background == self.background,
            r.underline_color == self.underline_color,
            r.effects@ == self.effects@.union(effects@),
    {
        Style {
            foreground: self.foreground,
            background: self.background,
            underline_color: self.underline_color,
            effects: self.effects.union(effects),
        }
    }
}

impl<F: OptionalColor, B: OptionalColor, U: OptionalColor> Style<F, B, U> {
    /// The SGR parameters of this style: the foreground, background and
    /// underline colors that are present, then each effect in ascending order.
    pub open spec fn params(&self) -> Seq<Seq<u8>> {
        color_param(self.foreground.spec_get(), Layer::Foreground) + color_param(
            self.background.spec_get(),
            Layer::Background,
        ) + color_param(self.underline_color.spec_get(), Layer::Underline) + effect_params(
            members(self.effects@),
        )
    }

    /// Writes the parameters of this style joined with `;`, and tells whether
    /// there were any.
    pub fn fmt_args(&self, f: &mut String) -> (any: bool)
        ensures
            final(f)@ == old(f)@ + text(join(self.params())),
            any == (self.params().len() > 0),
    {
        let ghost start = f@;
        let mut any = false;
        let ghost mut ps: Seq<Seq<u8>> = Seq::empty();
        match self.foreground.get() {
            Some(c) => {
                let ghost p = args_of(c.spec_color(), Layer::Foreground);
                proof {
                    lemma_text_join_push(ps, p);
                }
                c.fmt_foreground_args(f);
                any = true;
                proof {
                    ps = ps.push(p);
                }
            },
            None => {},
        }
        assert(ps =~= color_param(self.foreground.spec_get(), Layer::Foreground));
        let ghost ps1 = ps;
        match self.background.get() {
            Some(c) => {
                let ghost p = args_of(c.spec_color(), Layer::Background);
                proof {
                    lemma_text_join_push(ps, p);
                }
                if any {
                    f.append(";");
                }
                c.fmt_background_args(f);
                any = true;
                proof {
                    ps = ps.push(p);
                }
            },
            None => {},
        }
        assert(ps =~= ps1 + color_param(self.background.spec_get(), Layer::Background));
        let ghost ps2 = ps;
        match self.underline_color.get() {
            Some(c) => {
                let ghost p = args_of(c.spec_color(), Layer::Underline);
                proof {
                    lemma_text_join_push(ps, p);
                }
                if any {
                    f.append(";");
                }
                c.fmt_underline_args(f);
                any = true;
                proof {
                    ps = ps.push(p);
                }
            },
            None => {},
        }
        assert(ps =~= ps2 + color_param(self.underline_color.spec_get(), Layer::Underline));
        let ghost colors = ps;
        let effects = self.effects.iter();
        let mut i: usize = 0;
        while i < effects.len()
            invariant
                0 <= i <= effects@.len(),
                f@ == start + text(join(ps)),
                any == (ps.len() > 0),
                ps == colors + effect_params(effects@.take(i as int)),
            decreases effects@.len() - i,
        {
            let e = effects[i];
            let ghost p = digits(e.spec_code());
            proof {
                lemma_text_join_push(ps, p);
            }
            if any {
                f.append(";");
            }
            write_effect_code(f, e);
            any = true;
            proof {
                ps = ps.push(p);
            }
            assert(effects@.take(i + 1) =~= effects@.take(i as int).push(e));
            assert(ps =~= colors + effect_params(effects@.take(i + 1)));
            i += 1;
        }
        assert(effects@.take(effects@.len() as int) =~= effects@);
        any
    }

    /// Writes `value` in this style when `enabled`: one opening sequence with
    /// every parameter, the value, and one reset. With no parameters, or when
    /// not enabled, only the value is written.
    pub fn render(&self, value: &str, enabled: bool) -> (r: String)
        ensures
            r@ == rendered(self.params(), value@, enabled),
    {
        let mut out = String::new();
        if enabled {
            let mut args = String::new();
            let any = self.fmt_args(&mut args);
            if any {
                out.append("\x1b[");
                out.append(args.as_str());
                out.append("m");
                out.append(value);
                out.append("\x1b[0m");
                return out;
            }
        }
        out.append(value);
        out
    }
}

/// A style with no colors and no effects writes the value unchanged, whether
/// color is enabled or not.
pub proof fn lemma_plain_style_renders_value<F: OptionalColor, B: OptionalColor, U: OptionalColor>(
    style: Style<F, B, U>,
    value: Seq<char>,
    enabled: bool,
)
    requires
        style.foreground.spec_get() is None,
        style.background.spec_get() is None,
        style.underline_color.spec_get() is None,
        style.effects@ == Set::<Effect>::empty(),
    ensures
        rendered(style.params(), value, enabled) == value,
{
    lemma_members_ordered(style.effects@);
    let m = members(style.effects@);
    if m.len() > 0 {
        assert(m.contains(m[0]));
    }
    assert(style.params() =~= Seq::<Seq<u8>>::empty());
}

/// The parameters of a style without colors are the codes of its effects,
/// in ascending order.
pub proof fn lemma_effects_only_params<F: OptionalColor, B: OptionalColor, U: OptionalColor>(
    style: Style<F, B, U>,
)
    requires
        style.foreground.spec_get() is None,
        style.background.spec_get() is None,
        style.underline_color.spec_get() is None,
    ensures
        style.params() == members(style.effects@).map_values(|e: Effect| digits(e.spec_code())),
{
    assert(style.params() =~= members(style.effects@).map_values(
        |e: Effect| digits(e.spec_code()),
    ));
}

proof fn lemma_join_param_bytes(params: Seq<Seq<u8>>)
    requires
        forall|i: int| 0 <= i < params.len() ==> is_param_bytes(#[trigger] params[i]),
    ensures
        is_param_bytes(join(params)),
    decreases params.len(),
{
    if params.len() > 1 {
        lemma_join_param_bytes(params.drop_last());
        let j = join(params.drop_last()) + seq![SEMI] + params.last();
        assert(is_param_bytes(params.last()));
        assert forall|i: int| 0 <= i < j.len() implies ZERO <= #[trigger] j[i] <= SEMI by {
            if i >= join(params.drop_last()).len() + 1 {
                assert(j[i] == params.last()[i - join(params.drop_last()).len() - 1]);
            }
        }
    }
}

proof fn lemma_params_are_param_bytes<F: OptionalColor, B: OptionalColor, U: OptionalColor>(
    style: Style<F, B, U>,
)
    ensures
        is_param_bytes(join(style.params())),
{
    let ps = style.params();
    assert forall|i: int| 0 <= i < ps.len() implies is_param_bytes(#[trigger] ps[i]) by {
        if let Some(c) = style.foreground.spec_get() {
            lemma_args_are_param_bytes(c, Layer::Foreground);
        }
        if let Some(c) = style.background.spec_get() {
            lemma_args_are_param_bytes(c, Layer::Background);
        }
        if let Some(c) = style.underline_color.spec_get() {
            lemma_args_are_param_bytes(c, Layer::Underline);
        }
        let colors = color_param(style.foreground.spec_get(), Layer::Foreground) + color_param(
            style.background.spec_get(),
            Layer::Background,
        ) + color_param(style.underline_color.spec_get(), Layer::Underline);
        if i >= colors.len() {
            let e = members(style.effects@)[i - colors.len()];
            assert(ps[i] == digits(e.spec_code()));
            let n = e.spec_code() as int;
            assert(n / 100 < 10);
        }
    }
    lemma_join_param_bytes(ps);
}

/// When disabled, a style writes only the value. When enabled with at least
/// one parameter, the output is one opening sequence `ESC[`, parameters that
/// hold no escape character, `m`, the value, and one reset `ESC[0m`.
pub proof fn lemma_render_framing<F: OptionalColor, B: OptionalColor, U: OptionalColor>(
    style: Style<F, B, U>,
    value: Seq<char>,
)
    ensures
        rendered(style.params(), value, false) == value,
        style.params().len() > 0 ==> {
            let r = rendered(style.params(), value, true);
            let args = text(join(style.params()));
            &&& r == "\x1b["@ + args + "m"@ + value + "\x1b[0m"@
            &&& r.take(2) == "\x1b["@
            &&& r.skip(r.len() - 4) == "\x1b[0m"@
            &&& forall|i: int| 0 <= i < args.len() ==> #[trigger] args[i] != '\x1b'
        },
{
    reveal_strlit("\x1b[");
    reveal_strlit("\x1b[0m");
    if style.params().len() > 0 {
        let r = rendered(style.params(), value, true);
        assert(r.take(2) =~= "\x1b["@);
        assert(r.skip(r.len() - 4) =~= "\x1b[0m"@);
        lemma_params_are_param_bytes(style);
        let j = join(style.params());
        assert forall|i: int| 0 <= i < text(j).len() implies #[trigger] text(j)[i] != '\x1b' by {
            assert(ZERO <= j[i]);
        }
    }
}

} // verus!
