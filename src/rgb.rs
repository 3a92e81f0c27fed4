//! 24-bit color values. Not as widely supported as the named ANSI or Xterm colors.
use vstd::prelude::*;

use vstd::string::{is_ascii, StringExecFns, StringSliceAdditionalSpecFns};

use crate::mode::ColorKind;
use crate::sgr::{
    args_of, bytes_of, csi, digit, digits, escape_of, is_ascii_bytes, rgb_header, rgb_triple, text,
    Layer, BRACKET, EIGHT, ESC, FINAL_M, FIVE, FOUR, SEMI, THREE, TWO, ZERO,
};
use crate::{Color, ColorSpec, WriteColor};

verus! {

/// An Rgb value for color
#[derive(Debug, Clone, Copy, PartialEq, Eq, Hash, Structural)]
pub struct RgbColor {
    /// The red component of the color
    pub red: u8,
    /// The green component of the color
    pub green: u8,
    /// The blue component of the color
    pub blue: u8,
}

/// Room for the longest sequence a single color can need, `ESC[38;2;255;255;255m`.
pub const BUFFER_SIZE: usize = 19;

/// A fixed-size byte buffer that SGR parameters are written into.
///
/// Unwritten bytes hold `;`, so that writing a separator only advances the length.
pub struct RgbBuffer {
    data: [u8; 19],
    len: u8,
}

/// Relies on `core::str::from_utf8`: ASCII bytes are valid UTF-8, and each of
/// them decodes to the character with the same number.
#[verifier::external_body]
fn ascii_str(bytes: &[u8]) -> (r: &str)
    requires
        is_ascii_bytes(bytes@),
    ensures
        r@ == text(bytes@),
{
    core::str::from_utf8(bytes).unwrap()
}

impl View for RgbBuffer {
    type V = Seq<u8>;

    closed spec fn view(&self) -> Seq<u8> {
        self.data@.subrange(0, self.len as int)
    }
}

impl RgbBuffer {
    /// The buffer's internal invariant.
    pub closed spec fn wf(&self) -> bool {
        &&& self.len as usize <= BUFFER_SIZE
        &&& forall|i: int| self.len <= i < 19 ==> #[trigger] self.data@[i] == SEMI
        &&& forall|i: int| 0 <= i < 19 ==> #[trigger] self.data@[i] < 128
    }

    /// An empty buffer.
    pub fn new() -> (r: RgbBuffer)
        ensures
            r.wf(),
            r@ == Seq::<u8>::empty(),
    {
        let r = RgbBuffer { data: [SEMI; 19], len: 0 };
        assert(r@ =~= Seq::<u8>::empty());
        r
    }

    /// Appends the ASCII bytes of `s`.
    pub fn write(&mut self, s: &str)
        requires
            old(self).wf(),
            is_ascii(s),
            old(self)@.len() + s@.len() <= BUFFER_SIZE,
        ensures
            final(self).wf(),
            text(final(self)@) == text(old(self)@) + s@,
            final(self)@ == old(self)@ + bytes_of(s@),
    {
        proof {
            vstd::utf8::is_ascii_chars_encode_utf8(s@);
        }
        let bytes = s.as_bytes();
        let n = bytes.len();
        let start = self.len as usize;
        let mut i: usize = 0;
        while i < n
            invariant
                0 <= i <= n,
                n == s@.len(),
                bytes@ == s.spec_bytes(),
                s.spec_bytes().len() == s@.len(),
                forall|k: int| 0 <= k < s@.len() ==> s@[k] as u8 == #[trigger] s.spec_bytes()[k],
                is_ascii(s),
                start == old(self).len,
                start + n <= 19,
                self.len == old(self).len,
                forall|k: int| 0 <= k < start ==> #[trigger] self.data@[k] == old(self).data@[k],
                forall|k: int| 0 <= k < i ==> #[trigger] self.data@[start + k] == bytes@[k],
                forall|k: int| start + i <= k < 19 ==> #[trigger] self.data@[k] == SEMI,
                forall|k: int| 0 <= k < 19 ==> #[trigger] self.data@[k] < 128,
            decreases n - i,
        {
            assert(s@[i as int] <= '\u{7f}');
            self.data[start + i] = bytes[i];
            i = i + 1;
        }
        self.len = (start + n) as u8;
        assert forall|k: int| 0 <= k < start + n implies #[trigger] self@[k] == (old(self)@
            + s.spec_bytes())[k] by {
            if k >= start {
                assert(self.data@[start + (k - start)] == bytes@[k - start]);
            }
        }
        assert(self@ =~= old(self)@ + s.spec_bytes());
        assert(s.spec_bytes() =~= bytes_of(s@));
        assert(text(self@) =~= text(old(self)@) + s@);
    }

    /// Appends one ASCII byte.
    pub fn write_char(&mut self, x: u8)
        requires
            old(self).wf(),
            x < 128,
            old(self)@.len() + 1 <= BUFFER_SIZE,
        ensures
            final(self).wf(),
            final(self)@ == old(self)@.push(x),
    {
        self.data[self.len as usize] = x;
        self.len = self.len + 1;
        assert(self@ =~= old(self)@.push(x));
    }

    /// Appends a `;`. The byte is already in place, so only the length moves.
    pub fn write_sep(&mut self)
        requires
            old(self).wf(),
            old(self)@.len() + 1 <= BUFFER_SIZE,
        ensures
            final(self).wf(),
            final(self)@ == old(self)@.push(SEMI),
    {
        self.len = self.len + 1;
        assert(self@ =~= old(self)@.push(SEMI));
    }

    /// Appends the final `m` of an escape sequence.
    pub fn write_escape_end(&mut self)
        requires
            old(self).wf(),
            old(self)@.len() + 1 <= BUFFER_SIZE,
        ensures
            final(self).wf(),
            final(self)@ == old(self)@.push(FINAL_M),
    {
        self.write_char(FINAL_M)
    }

    /// Appends `x` in shortest decimal form.
    pub fn write_u8(&mut self, x: u8)
        requires
            old(self).wf(),
            old(self)@.len() + 3 <= BUFFER_SIZE,
        ensures
            final(self).wf(),
            final(self)@ == old(self)@ + digits(x),
    {
        if x >= 100 {
            self.write_char(x / 100 + ZERO);
            self.write_char((x / 10) % 10 + ZERO);
        } else if x >= 10 {
            self.write_char(x / 10 + ZERO);
        }
        self.write_char(x % 10 + ZERO);
        assert(self@ =~= old(self)@ + digits(x));
    }

    /// Appends `ESC[38;2;`, `ESC[48;2;` or `ESC[58;2;`.
    pub fn write_escape_start(&mut self, layer: Layer)
        requires
            old(self).wf(),
            old(self)@.len() + 7 <= BUFFER_SIZE,
        ensures
            final(self).wf(),
            final(self)@ == old(self)@ + csi() + rgb_header(layer),
    {
        proof {
            reveal_strlit("\x1b[38;2;");
            reveal_strlit("\x1b[48;2;");
            reveal_strlit("\x1b[58;2;");
        }
        self.write(
            match layer {
                Layer::Foreground => "\x1b[38;2;",
                Layer::Background => "\x1b[48;2;",
                Layer::Underline => "\x1b[58;2;",
            },
        );
        assert(self@ =~= old(self)@ + csi() + rgb_header(layer));
    }

    /// Appends `38;2;`, `48;2;` or `58;2;`.
    pub fn write_args_header(&mut self, layer: Layer)
        requires
            old(self).wf(),
            old(self)@.len() + 5 <= BUFFER_SIZE,
        ensures
            final(self).wf(),
            final(self)@ == old(self)@ + rgb_header(layer),
    {
        proof {
            reveal_strlit("38;2;");
            reveal_strlit("48;2;");
            reveal_strlit("58;2;");
        }
        self.write(
            match layer {
                Layer::Foreground => "38;2;",
                Layer::Background => "48;2;",
                Layer::Underline => "58;2;",
            },
        );
        assert(self@ =~= old(self)@ + rgb_header(layer));
    }

    /// Appends the three channels as `r;g;b`.
    pub fn write_args(&mut self, red: u8, green: u8, blue: u8)
        requires
            old(self).wf(),
            old(self)@.len() + 11 <= BUFFER_SIZE,
        ensures
            final(self).wf(),
            final(self)@ == old(self)@ + rgb_triple(red, green, blue),
    {
        self.write_u8(red);
        self.write_sep();
        self.write_u8(green);
        self.write_sep();
        self.write_u8(blue);
        assert(self@ =~= old(self)@ + rgb_triple(red, green, blue));
    }

    /// The written bytes as text.
    pub fn to_str(&self) -> (r: &str)
        requires
            self.wf(),
        ensures
            r@ == text(self@),
    {
        let bytes = &self.data.as_slice()[0..self.len as usize];
        assert(bytes@ =~= self@);
        ascii_str(bytes)
    }
}

impl crate::seal::Seal for RgbColor {

}

impl WriteColor for RgbColor {
    open spec fn spec_color(&self) -> Color {
        Color::Rgb(*self)
    }

    fn color_kind(self) -> (r: ColorKind) {
        ColorKind::Rgb
    }

    fn fmt_foreground_args(self, f: &mut String) {
        let mut buffer = RgbBuffer::new();
        buffer.write_args_header(Layer::Foreground);
        buffer.write_args(self.red, self.green, self.blue);
        assert(buffer@ =~= args_of(self.spec_color(), Layer::Foreground));
        f.append(buffer.to_str());
    }

    fn fmt_background_args(self, f: &mut String) {
        let mut buffer = RgbBuffer::new();
        buffer.write_args_header(Layer::Background);
        buffer.write_args(self.red, self.green, self.blue);
        assert(buffer@ =~= args_of(self.spec_color(), Layer::Background));
        f.append(buffer.to_str());
    }

    fn fmt_underline_args(self, f: &mut String) {
        let mut buffer = RgbBuffer::new();
        buffer.write_args_header(Layer::Underline);
        buffer.write_args(self.red, self.green, self.blue);
        assert(buffer@ =~= args_of(self.spec_color(), Layer::Underline));
        f.append(buffer.to_str());
    }

    fn fmt_foreground(self, f: &mut String) {
        let mut buffer = RgbBuffer::new();
        buffer.write_escape_start(Layer::Foreground);
        buffer.write_args(self.red, self.green, self.blue);
        buffer.write_escape_end();
        assert(buffer@ =~= escape_of(self.spec_color(), Layer::Foreground));
        f.append(buffer.to_str());
    }

    fn fmt_background(self, f: &mut String) {
        let mut buffer = RgbBuffer::new();
        buffer.write_escape_start(Layer::Background);
        buffer.write_args(self.red, self.green, self.blue);
        buffer.write_escape_end();
        assert(buffer@ =~= escape_of(self.spec_color(), Layer::Background));
        f.append(buffer.to_str());
    }

    fn fmt_underline(self, f: &mut String) {
        let mut buffer = RgbBuffer::new();
        buffer.write_escape_start(Layer::Underline);
        buffer.write_args(self.red, self.green, self.blue);
        buffer.write_escape_end();
        assert(buffer@ =~= escape_of(self.spec_color(), Layer::Underline));
        f.append(buffer.to_str());
    }
}

/// A finished escape sequence of a 24-bit color, held in a fixed array.
pub struct Payload {
    len: usize,
    data: [u8; 19],
}

impl View for Payload {
    type V = Seq<u8>;

    closed spec fn view(&self) -> Seq<u8> {
        self.data@.subrange(0, self.len as int)
    }
}

/// The 24-bit color layer whose family starts with `lead`.
pub open spec fn layer_of_lead(lead: u8) -> Layer {
    if lead == THREE {
        Layer::Foreground
    } else if lead == FOUR {
        Layer::Background
    } else {
        Layer::Underline
    }
}

/// `2;r;g;b`: the 24-bit selector and channels, shared by every layer.
pub open spec fn rgb_raw_args(red: u8, green: u8, blue: u8) -> Seq<u8> {
    seq![TWO, SEMI] + rgb_triple(red, green, blue)
}

impl Payload {
    /// The payload's internal invariant.
    pub closed spec fn wf(&self) -> bool {
        &&& self.len <= BUFFER_SIZE
        &&& forall|i: int| 0 <= i < 19 ==> #[trigger] self.data@[i] < 128
    }

    /// The parameters shared by every layer: the escape without `ESC[x8;` and `m`.
    pub fn raw_args_payload(&self) -> (r: Payload)
        requires
            self.wf(),
            self@.len() >= 6,
        ensures
            r.wf(),
            r@ == self@.subrange(5, self@.len() - 1),
    {
        let mut data: [u8; 19] = [0; 19];
        let n = self.len - 1 - 5;
        let mut i: usize = 0;
        while i < n
            invariant
                n == self.len - 6,
                self.len <= 19,
                0 <= i <= n,
                forall|k: int| 0 <= k < i ==> #[trigger] data@[k] == self.data@[k + 5],
                forall|k: int| 0 <= k < 19 ==> #[trigger] data@[k] < 128,
                forall|k: int| 0 <= k < 19 ==> #[trigger] self.data@[k] < 128,
            decreases n - i,
        {
            data[i] = self.data[i + 5];
            i += 1;
        }
        let r = Payload { len: n, data };
        assert(r@ =~= self@.subrange(5, self@.len() - 1));
        r
    }

    /// The parameters of this layer: the escape without `ESC[` and `m`.
    pub fn args_payload(&self) -> (r: Payload)
        requires
            self.wf(),
            self@.len() >= 3,
        ensures
            r.wf(),
            r@ == self@.subrange(2, self@.len() - 1),
    {
        let mut data: [u8; 19] = [0; 19];
        let n = self.len - 1 - 2;
        let mut i: usize = 0;
        while i < n
            invariant
                n == self.len - 3,
                self.len <= 19,
                0 <= i <= n,
                forall|k: int| 0 <= k < i ==> #[trigger] data@[k] == self.data@[k + 2],
                forall|k: int| 0 <= k < 19 ==> #[trigger] data@[k] < 128,
                forall|k: int| 0 <= k < 19 ==> #[trigger] self.data@[k] < 128,
            decreases n - i,
        {
            data[i] = self.data[i + 2];
            i += 1;
        }
        let r = Payload { len: n, data };
        assert(r@ =~= self@.subrange(2, self@.len() - 1));
        r
    }

    /// The payload as text.
    pub fn get(&self) -> (r: &str)
        requires
            self.wf(),
        ensures
            r@ == text(self@),
    {
        let bytes = &self.data.as_slice()[0..self.len];
        assert(bytes@ =~= self@);
        ascii_str(bytes)
    }
}

/// The digit of `x` at decimal place `n` (ones, tens or hundreds).
fn nth_digit(x: u8, n: u8) -> (r: u8)
    requires
        n <= 2,
    ensures
        n == 0 ==> r == digit(x as int % 10),
        n == 1 ==> r == digit((x as int / 10) % 10),
        n == 2 ==> r == digit((x as int / 100) % 10),
{
    let mut x = x;
    let mut n = n;
    let ghost x0 = x;
    let ghost n0 = n;
    while n != 0
        invariant
            n <= n0 <= 2,
            n0 - n == 0 ==> x == x0,
            n0 - n == 1 ==> x == x0 / 10,
            n0 - n == 2 ==> x == x0 / 100,
        decreases n,
    {
        x /= 10;
        n -= 1;
    }
    x % 10 + ZERO
}

/// Writes `x` in shortest decimal form at `data[len..]`, returning the new length.
fn write_channel(data: &mut [u8; 19], len: usize, x: u8) -> (r: usize)
    requires
        len + 3 <= 19,
        forall|k: int| 0 <= k < 19 ==> #[trigger] old(data)@[k] < 128,
    ensures
        r == len + digits(x).len(),
        final(data)@.subrange(0, r as int) == old(data)@.subrange(0, len as int) + digits(x),
        forall|k: int| 0 <= k < 19 ==> #[trigger] final(data)@[k] < 128,
{
    let mut len = len;
    let ghost d0 = data@;
    let ghost l0 = len;
    if x >= 100 {
        data[len] = nth_digit(x, 2);
        len += 1;
    }
    if x >= 10 {
        data[len] = nth_digit(x, 1);
        len += 1;
    }
    data[len] = nth_digit(x, 0);
    len += 1;
    assert(data@.subrange(0, len as int) =~= d0.subrange(0, l0 as int) + digits(x));
    len
}

/// The escape sequence `ESC[x8;2;r;g;bm` of a 24-bit color, where `x` is `lead`.
pub fn payload(first: u8, r: u8, g: u8, b: u8) -> (p: Payload)
    requires
        first == THREE || first == FOUR || first == FIVE,
    ensures
        p.wf(),
        p@ == escape_of(Color::Rgb(RgbColor { red: r, green: g, blue: b }), layer_of_lead(first)),
{
    let mut data: [u8; 19] = [SEMI; 19];
    data[0] = ESC;
    data[1] = BRACKET;
    data[2] = first;
    data[3] = EIGHT;
    data[5] = TWO;
    let ghost c = Color::Rgb(RgbColor { red: r, green: g, blue: b });
    let ghost head = csi() + rgb_header(layer_of_lead(first));
    assert(data@.subrange(0, 7) =~= head);
    let mut len: usize = 7;
    len = write_channel(&mut data, len, r);
    let ghost s1 = head + digits(r);
    data[len] = SEMI;
    len += 1;
    assert(data@.subrange(0, len as int) =~= s1.push(SEMI));
    len = write_channel(&mut data, len, g);
    let ghost s2 = s1.push(SEMI) + digits(g);
    data[len] = SEMI;
    len += 1;
    assert(data@.subrange(0, len as int) =~= s2.push(SEMI));
    len = write_channel(&mut data, len, b);
    let ghost s3 = s2.push(SEMI) + digits(b);
    data[len] = FINAL_M;
    len += 1;
    assert(data@.subrange(0, len as int) =~= s3.push(FINAL_M));
    assert(s3.push(FINAL_M) =~= escape_of(c, layer_of_lead(first)));
    let p = Payload { len, data };
    assert(p@ =~= escape_of(Color::Rgb(RgbColor { red: r, green: g, blue: b }), layer_of_lead(first)));
    p
}

/// A compile time Rgb color type
///
/// Converts to [`RgbColor`], [`Color`] and `Option<Color>` via [`From`].
#[derive(Debug, Clone, Copy, PartialEq, Eq, Hash)]
pub struct Rgb<const RED: u8, const GREEN: u8, const BLUE: u8>;

impl<const RED: u8, const GREEN: u8, const BLUE: u8> Rgb<RED, GREEN, BLUE> {
    /// The corresponding [`RgbColor`]
    pub fn dynamic() -> (r: RgbColor)
        ensures
            r == (RgbColor { red: RED, green: GREEN, blue: BLUE }),
    {
        RgbColor { red: RED, green: GREEN, blue: BLUE }
    }

    /// The color arguments shared by every layer, `2;r;g;b`
    pub fn args() -> (r: String)
        ensures
            r@ == text(rgb_raw_args(RED, GREEN, BLUE)),
    {
        let p = payload(THREE, RED, GREEN, BLUE).raw_args_payload();
        assert(p@ =~= rgb_raw_args(RED, GREEN, BLUE));
        String::from_str(p.get())
    }

    /// The parameters of one layer, cut from its precomputed escape sequence.
    fn layer_args(lead: u8) -> (r: String)
        requires
            lead == THREE || lead == FOUR || lead == FIVE,
        ensures
            r@ == text(args_of(Color::Rgb(RgbColor { red: RED, green: GREEN, blue: BLUE }), layer_of_lead(lead))),
    {
        let p = payload(lead, RED, GREEN, BLUE).args_payload();
        assert(p@ =~= args_of(Color::Rgb(RgbColor { red: RED, green: GREEN, blue: BLUE }), layer_of_lead(lead)));
        String::from_str(p.get())
    }

    /// The escape sequence of one layer.
    fn layer_escape(lead: u8) -> (r: String)
        requires
            lead == THREE || lead == FOUR || lead == FIVE,
        ensures
            r@ == text(escape_of(Color::Rgb(RgbColor { red: RED, green: GREEN, blue: BLUE }), layer_of_lead(lead))),
    {
        let p = payload(lead, RED, GREEN, BLUE);
        String::from_str(p.get())
    }
}

impl<const RED: u8, const GREEN: u8, const BLUE: u8> crate::seal::Seal for Rgb<RED, GREEN, BLUE> {

}

impl<const RED: u8, const GREEN: u8, const BLUE: u8> ColorSpec for Rgb<RED, GREEN, BLUE> {
    type Dynamic = RgbColor;

    open spec fn spec_value(&self) -> Color {
        Color::Rgb(RgbColor { red: RED, green: GREEN, blue: BLUE })
    }

    fn kind(self) -> (r: ColorKind) {
        ColorKind::Rgb
    }

    fn into_dynamic(self) -> (r: RgbColor) {
        Self::dynamic()
    }

    fn foreground_args(self) -> (r: String) {
        Self::layer_args(THREE)
    }

    fn background_args(self) -> (r: String) {
        Self::layer_args(FOUR)
    }

    fn underline_args(self) -> (r: String) {
        Self::layer_args(FIVE)
    }

    fn foreground_escape(self) -> (r: String) {
        Self::layer_escape(THREE)
    }

    fn background_escape(self) -> (r: String) {
        Self::layer_escape(FOUR)
    }

    fn underline_escape(self) -> (r: String) {
        Self::layer_escape(FIVE)
    }
}

impl<const RED: u8, const GREEN: u8, const BLUE: u8> crate::ComptimeColor for Rgb<RED, GREEN, BLUE> {
    fn value(self) -> (r: Option<Color>) {
        Some(Color::Rgb(Self::dynamic()))
    }
}

impl From<RgbColor> for Color {
    fn from(color: RgbColor) -> (r: Self) {
        Color::Rgb(color)
    }
}

impl vstd::std_specs::convert::FromSpecImpl<RgbColor> for Color {
    open spec fn obeys_from_spec() -> bool {
        true
    }

    open spec fn from_spec(color: RgbColor) -> Self {
        Color::Rgb(color)
    }
}

impl From<RgbColor> for Option<Color> {
    fn from(color: RgbColor) -> (r: Self) {
        Some(Color::Rgb(color))
    }
}

impl vstd::std_specs::convert::FromSpecImpl<RgbColor> for Option<Color> {
    open spec fn obeys_from_spec() -> bool {
        true
    }

    open spec fn from_spec(color: RgbColor) -> Self {
        Some(Color::Rgb(color))
    }
}

impl<const RED: u8, const GREEN: u8, const BLUE: u8> From<Rgb<RED, GREEN, BLUE>> for RgbColor {
    fn from(color: Rgb<RED, GREEN, BLUE>) -> (r: Self) {
        RgbColor { red: RED, green: GREEN, blue: BLUE }
    }
}

impl<const RED: u8, const GREEN: u8, const BLUE: u8> vstd::std_specs::convert::FromSpecImpl<Rgb<RED, GREEN, BLUE>> for RgbColor {
    open spec fn obeys_from_spec() -> bool {
        true
    }

    open spec fn from_spec(color: Rgb<RED, GREEN, BLUE>) -> Self {
        RgbColor { red: RED, green: GREEN, blue: BLUE }
    }
}

impl<const RED: u8, const GREEN: u8, const BLUE: u8> From<Rgb<RED, GREEN, BLUE>> for Color {
    fn from(color: Rgb<RED, GREEN, BLUE>) -> (r: Self) {
        Color::Rgb(RgbColor { red: RED, green: GREEN, blue: BLUE })
    }
}

impl<const RED: u8, const GREEN: u8, const BLUE: u8> vstd::std_specs::convert::FromSpecImpl<Rgb<RED, GREEN, BLUE>> for Color {
    open spec fn obeys_from_spec() -> bool {
        true
    }

    open spec fn from_spec(color: Rgb<RED, GREEN, BLUE>) -> Self {
        Color::Rgb(RgbColor { red: RED, green: GREEN, blue: BLUE })
    }
}

impl<const RED: u8, const GREEN: u8, const BLUE: u8> From<Rgb<RED, GREEN, BLUE>> for Option<Color> {
    fn from(color: Rgb<RED, GREEN, BLUE>) -> (r: Self) {
        Some(Color::Rgb(RgbColor { red: RED, green: GREEN, blue: BLUE }))
    }
}

impl<const RED: u8, const GREEN: u8, const BLUE: u8> vstd::std_specs::convert::FromSpecImpl<Rgb<RED, GREEN, BLUE>> for Option<Color> {
    open spec fn obeys_from_spec() -> bool {
        true
    }

    open spec fn from_spec(color: Rgb<RED, GREEN, BLUE>) -> Self {
        Some(Color::Rgb(RgbColor { red: RED, green: GREEN, blue: BLUE }))
    }
}

} // verus!
