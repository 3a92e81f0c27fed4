//! The model of ANSI Select Graphic Rendition (SGR) sequences: what each
//! color writes for each layer, as bytes.
use vstd::prelude::*;

use vstd::string::StringExecFns;

use crate::rgb::RgbBuffer;
use crate::Color;

verus! {

/// The escape byte that starts every control sequence.
pub const ESC: u8 = 27;
/// `[`, which follows the escape byte.
pub const BRACKET: u8 = 91;
/// `;`, the parameter separator.
pub const SEMI: u8 = 59;
/// `m`, which ends an SGR sequence.
pub const FINAL_M: u8 = 109;
/// `0`
pub const ZERO: u8 = 48;
/// `2`, the 24-bit color selector.
pub const TWO: u8 = 50;
/// `3`, the foreground family.
pub const THREE: u8 = 51;
/// `4`, the background family.
pub const FOUR: u8 = 52;
/// `5`, the underline family and the palette color selector.
pub const FIVE: u8 = 53;
/// `8`, the extended color selector.
pub const EIGHT: u8 = 56;

/// Which text facet a color applies to.
#[derive(Debug, Clone, Copy, PartialEq, Eq, Structural)]
pub enum Layer {
    /// The text itself (SGR family 38)
    Foreground,
    /// The cell behind the text (SGR family 48)
    Background,
    /// The underline drawn below the text (SGR family 58)
    Underline,
}

/// The ASCII digit for `d`, where `0 <= d < 10`.
pub open spec fn digit(d: int) -> u8 {
    (ZERO + d) as u8
}

/// The shortest decimal spelling of `x`: one to three digits, no leading zero.
pub open spec fn digits(x: u8) -> Seq<u8> {
    let n = x as int;
    if n >= 100 {
        seq![digit(n / 100), digit((n / 10) % 10), digit(n % 10)]
    } else if n >= 10 {
        seq![digit(n / 10), digit(n % 10)]
    } else {
        seq![digit(n)]
    }
}

/// The leading digit of a layer's extended color family: `3`, `4` or `5`.
pub open spec fn layer_lead(layer: Layer) -> u8 {
    match layer {
        Layer::Foreground => THREE,
        Layer::Background => FOUR,
        Layer::Underline => FIVE,
    }
}

/// `38;2;` / `48;2;` / `58;2;`: the start of a 24-bit color's parameters.
pub open spec fn rgb_header(layer: Layer) -> Seq<u8> {
    seq![layer_lead(layer), EIGHT, SEMI, TWO, SEMI]
}

/// `38;5;` / `48;5;` / `58;5;`: the start of a palette color's parameters.
pub open spec fn indexed_header(layer: Layer) -> Seq<u8> {
    seq![layer_lead(layer), EIGHT, SEMI, FIVE, SEMI]
}

/// The control sequence introducer `ESC [`.
pub open spec fn csi() -> Seq<u8> {
    seq![ESC, BRACKET]
}

/// `r;g;b` with each channel in shortest decimal form.
pub open spec fn rgb_triple(red: u8, green: u8, blue: u8) -> Seq<u8> {
    digits(red) + seq![SEMI] + digits(green) + seq![SEMI] + digits(blue)
}

/// The SGR code of a named color on the foreground (30-37, 90-97) or on the
/// background (40-47, 100-107).
pub open spec fn ansi_code(index: int, layer: Layer) -> int {
    let base = if index < 8 { 30 + index } else { 90 + (index - 8) };
    match layer {
        Layer::Background => base + 10,
        _ => base,
    }
}

/// The SGR parameters that select `color` for `layer`, without `ESC [` and `m`.
pub open spec fn args_of(color: Color, layer: Layer) -> Seq<u8> {
    match color {
        Color::Ansi(a) => match layer {
            Layer::Underline => indexed_header(layer) + digits(a.index() as u8),
            _ => digits(ansi_code(a.index(), layer) as u8),
        },
        Color::Xterm(x) => indexed_header(layer) + digits(x.code),
        Color::Rgb(c) => rgb_header(layer) + rgb_triple(c.red, c.green, c.blue),
    }
}

/// The complete escape sequence that selects `color` for `layer`.
pub open spec fn escape_of(color: Color, layer: Layer) -> Seq<u8> {
    csi() + args_of(color, layer) + seq![FINAL_M]
}

/// Bytes below 128, each of which stands for one character.
pub open spec fn is_ascii_bytes(b: Seq<u8>) -> bool {
    forall|i: int| 0 <= i < b.len() ==> #[trigger] b[i] < 128
}

/// The bytes that ASCII characters are written as.
pub open spec fn bytes_of(s: Seq<char>) -> Seq<u8> {
    s.map_values(|c: char| c as u8)
}

/// The characters that ASCII bytes spell.
pub open spec fn text(b: Seq<u8>) -> Seq<char> {
    b.map_values(|x: u8| x as char)
}

/// Every byte of `b` is a decimal digit, `:` or `;`; none is an escape byte.
pub open spec fn is_param_bytes(b: Seq<u8>) -> bool {
    forall|i: int| 0 <= i < b.len() ==> ZERO <= #[trigger] b[i] <= SEMI
}

/// SGR parameters are made of digits and separators only.
pub proof fn lemma_args_are_param_bytes(color: Color, layer: Layer)
    ensures
        is_param_bytes(args_of(color, layer)),
{
    let a = args_of(color, layer);
    assert forall|x: u8| is_param_bytes(#[trigger] digits(x)) by {
        let n = x as int;
        assert(n / 100 < 10);
    }
    assert forall|i: int| 0 <= i < a.len() implies ZERO <= #[trigger] a[i] <= SEMI by {
        match color {
            Color::Ansi(c) => {
                assert(is_param_bytes(digits(c.index() as u8)));
                assert(is_param_bytes(digits(ansi_code(c.index(), layer) as u8)));
            },
            Color::Xterm(x) => {
                assert(is_param_bytes(digits(x.code)));
            },
            Color::Rgb(c) => {
                assert(is_param_bytes(digits(c.red)));
                assert(is_param_bytes(digits(c.green)));
                assert(is_param_bytes(digits(c.blue)));
            },
        }
    }
}

/// The text of `a + b` is the text of `a` followed by the text of `b`.
pub proof fn lemma_text_concat(a: Seq<u8>, b: Seq<u8>)
    ensures
        text(a + b) == text(a) + text(b),
{
    assert(text(a + b) =~= text(a) + text(b));
}

/// Each escape sequence is its parameters between `ESC [` and `m`. The
/// underline sequence in particular always opens with `ESC[58;`, and the rest
/// of it is its parameters after their own leading `58;`.
pub proof fn lemma_escape_wraps_args(color: Color, layer: Layer)
    ensures
        text(escape_of(color, layer)) == "\x1b["@ + text(args_of(color, layer)) + "m"@,
        layer == Layer::Underline ==> {
            &&& args_of(color, layer).subrange(0, 3) == seq![FIVE, EIGHT, SEMI]
            &&& text(escape_of(color, layer)) == "\x1b[58;"@ + text(
                args_of(color, layer).subrange(3, args_of(color, layer).len() as int),
            ) + "m"@
        },
{
    reveal_strlit("\x1b[");
    reveal_strlit("m");
    reveal_strlit("\x1b[58;");
    let a = args_of(color, layer);
    assert(text(escape_of(color, layer)) =~= "\x1b["@ + text(a) + "m"@);
    if layer == Layer::Underline {
        assert(a.subrange(0, 3) =~= seq![FIVE, EIGHT, SEMI]);
        assert(text(escape_of(color, layer)) =~= "\x1b[58;"@ + text(a.subrange(3, a.len() as int))
            + "m"@);
    }
}

/// A foreground 24-bit color is written `ESC[38;2;r;g;bm`, each channel in
/// shortest decimal form.
pub proof fn lemma_rgb_foreground_escape(red: u8, green: u8, blue: u8)
    ensures
        escape_of(Color::Rgb(crate::rgb::RgbColor { red, green, blue }), Layer::Foreground)
            == seq![ESC, BRACKET, THREE, EIGHT, SEMI, TWO, SEMI] + digits(red) + seq![SEMI]
            + digits(green) + seq![SEMI] + digits(blue) + seq![FINAL_M],
{
    assert(escape_of(Color::Rgb(crate::rgb::RgbColor { red, green, blue }), Layer::Foreground)
        =~= seq![ESC, BRACKET, THREE, EIGHT, SEMI, TWO, SEMI] + digits(red) + seq![SEMI] + digits(
        green,
    ) + seq![SEMI] + digits(blue) + seq![FINAL_M]);
}

/// The parameters of a palette color header, `38;5;`, `48;5;` or `58;5;`.
fn write_indexed_header(buffer: &mut RgbBuffer, layer: Layer)
    requires
        old(buffer).wf(),
        old(buffer)@.len() + 5 <= crate::rgb::BUFFER_SIZE,
    ensures
        final(buffer).wf(),
        final(buffer)@ == old(buffer)@ + indexed_header(layer),
{
    proof {
        reveal_strlit("38;5;");
        reveal_strlit("48;5;");
        reveal_strlit("58;5;");
    }
    buffer.write(
        match layer {
            Layer::Foreground => "38;5;",
            Layer::Background => "48;5;",
            Layer::Underline => "58;5;",
        },
    );
    assert(buffer@ =~= old(buffer)@ + indexed_header(layer));
}

/// Appends the parameters that select `color` for `layer`.
pub fn write_color_args(buffer: &mut RgbBuffer, color: Color, layer: Layer)
    requires
        old(buffer).wf(),
        old(buffer)@.len() + 16 <= crate::rgb::BUFFER_SIZE,
    ensures
        final(buffer).wf(),
        final(buffer)@ == old(buffer)@ + args_of(color, layer),
{
    match color {
        Color::Ansi(a) => {
            let index = a.to_index();
            match layer {
                Layer::Underline => {
                    write_indexed_header(buffer, layer);
                    buffer.write_u8(index);
                },
                _ => {
                    let base: u8 = if index < 8 {
                        30 + index
                    } else {
                        90 + (index - 8)
                    };
                    let code: u8 = match layer {
                        Layer::Background => base + 10,
                        _ => base,
                    };
                    buffer.write_u8(code);
                },
            }
        },
        Color::Xterm(x) => {
            write_indexed_header(buffer, layer);
            buffer.write_u8(x.code);
        },
        Color::Rgb(c) => {
            buffer.write_args_header(layer);
            buffer.write_args(c.red, c.green, c.blue);
        },
    }
    assert(buffer@ =~= old(buffer)@ + args_of(color, layer));
}

/// The SGR parameters that select `color` for `layer`, e.g. `38;5;196`.
pub fn encode_args(color: Color, layer: Layer) -> (r: String)
    ensures
        r@ == text(args_of(color, layer)),
{
    let mut buffer = RgbBuffer::new();
    write_color_args(&mut buffer, color, layer);
    assert(buffer@ =~= args_of(color, layer));
    String::from_str(buffer.to_str())
}

/// The complete escape sequence that selects `color` for `layer`, e.g. `ESC[38;5;196m`.
pub fn encode_escape(color: Color, layer: Layer) -> (r: String)
    ensures
        r@ == text(escape_of(color, layer)),
{
    let mut buffer = RgbBuffer::new();
    proof {
        reveal_strlit("\x1b[");
    }
    buffer.write("\x1b[");
    write_color_args(&mut buffer, color, layer);
    buffer.write_escape_end();
    assert(buffer@ =~= escape_of(color, layer));
    String::from_str(buffer.to_str())
}

} // verus!
