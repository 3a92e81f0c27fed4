use colorz::ansi::AnsiColor;
use colorz::rgb::{payload, Rgb, RgbBuffer, RgbColor};
use colorz::sgr::{encode_args, encode_escape, Layer};
use colorz::xterm::{Xterm, XtermColor};
use colorz::{Color, ColorSpec, WriteColor};

fn rgb(red: u8, green: u8, blue: u8) -> Color {
    Color::Rgb(RgbColor { red, green, blue })
}

#[test]
fn rgb_foreground_escape_uses_minimal_digits() {
    assert_eq!(encode_escape(rgb(255, 0, 0), Layer::Foreground), "\x1b[38;2;255;0;0m");
    assert_eq!(encode_escape(rgb(205, 5, 10), Layer::Foreground), "\x1b[38;2;205;5;10m");
    assert_eq!(encode_escape(rgb(100, 99, 9), Layer::Foreground), "\x1b[38;2;100;99;9m");
    assert_eq!(encode_escape(rgb(0, 0, 0), Layer::Foreground), "\x1b[38;2;0;0;0m");
    assert_eq!(
        encode_escape(rgb(255, 255, 255), Layer::Foreground),
        "\x1b[38;2;255;255;255m"
    );
}

#[test]
fn rgb_foreground_escape_for_many_triples() {
    for red in [0u8, 7, 10, 42, 99, 100, 101, 205, 250, 255] {
        for green in [0u8, 9, 10, 200] {
            for blue in [1u8, 55, 105] {
                let expected = format!("\x1b[38;2;{};{};{}m", red, green, blue);
                assert_eq!(encode_escape(rgb(red, green, blue), Layer::Foreground), expected);
            }
        }
    }
}

#[test]
fn comptime_rgb_matches_runtime() {
    let runtime = RgbColor { red: 205, green: 5, blue: 10 };
    let mut s = String::new();
    runtime.fmt_foreground(&mut s);
    assert_eq!(Rgb::<205, 5, 10>.foreground_escape(), s);
    assert_eq!(Rgb::<205, 5, 10>.background_escape(), "\x1b[48;2;205;5;10m");
    assert_eq!(Rgb::<205, 5, 10>.underline_escape(), "\x1b[58;2;205;5;10m");
    assert_eq!(Rgb::<205, 5, 10>.foreground_args(), "38;2;205;5;10");
    assert_eq!(Rgb::<205, 5, 10>.background_args(), "48;2;205;5;10");
    assert_eq!(Rgb::<205, 5, 10>.underline_args(), "58;2;205;5;10");
    assert_eq!(Rgb::<205, 5, 10>::args(), "2;205;5;10");
    assert_eq!(Rgb::<205, 5, 10>.into_dynamic(), runtime);
}

#[test]
fn runtime_rgb_writes_every_layer() {
    let c = RgbColor { red: 1, green: 22, blue: 133 };
    let mut s = String::from("x");
    c.fmt_background_args(&mut s);
    assert_eq!(s, "x48;2;1;22;133");
    let mut s = String::new();
    c.fmt_underline(&mut s);
    assert_eq!(s, "\x1b[58;2;1;22;133m");
}

#[test]
fn args_are_escape_without_frame() {
    let colors = [
        rgb(12, 200, 3),
        Color::Xterm(XtermColor::from_code(196)),
        Color::Ansi(AnsiColor::BrightCyan),
        Color::Ansi(AnsiColor::Green),
    ];
    for c in colors {
        for layer in [Layer::Foreground, Layer::Background, Layer::Underline] {
            let args = encode_args(c, layer);
            let escape = encode_escape(c, layer);
            assert_eq!(escape, format!("\x1b[{}m", args));
        }
        let args = encode_args(c, Layer::Underline);
        assert!(args.starts_with("58;"));
        assert_eq!(encode_escape(c, Layer::Underline), format!("\x1b[58;{}m", &args[3..]));
    }
}

#[test]
fn xterm_indexed_foreground() {
    let c = XtermColor::from_code(196);
    assert_eq!(c.foreground_args(), "38;5;196");
    assert_eq!(c.foreground_escape(), "\x1b[38;5;196m");
    assert_eq!(c.background_args(), "48;5;196");
    assert_eq!(c.underline_escape(), "\x1b[58;5;196m");
    assert_eq!(c.args(), "5;196");
    assert_eq!(Xterm::<196>.foreground_escape(), "\x1b[38;5;196m");
    assert_eq!(Xterm::<7>.background_args(), "48;5;7");
}

#[test]
fn ansi_bright_red_codes() {
    let c = AnsiColor::BrightRed;
    assert_eq!(c.to_index(), 9);
    assert_eq!(c.foreground_args(), "91");
    assert_eq!(c.background_args(), "101");
    assert_eq!(c.foreground_escape(), "\x1b[91m");
    assert_eq!(c.underline_args(), "58;5;9");
    assert_eq!(AnsiColor::BrightBlack.foreground_args(), "90");
    assert_eq!(AnsiColor::BrightBlack.background_args(), "100");
    assert_eq!(AnsiColor::Red.foreground_args(), "31");
    assert_eq!(AnsiColor::Red.background_args(), "41");
    assert_eq!(AnsiColor::BrightWhite.background_escape(), "\x1b[107m");
}

#[test]
fn ansi_from_index() {
    assert_eq!(AnsiColor::from_index(9), Some(AnsiColor::BrightRed));
    assert_eq!(AnsiColor::from_index(0), Some(AnsiColor::Black));
    assert_eq!(AnsiColor::from_index(16), None);
}

#[test]
fn color_dispatches_to_its_model() {
    let mut s = String::new();
    Color::Rgb(RgbColor { red: 9, green: 8, blue: 7 }).fmt_foreground_args(&mut s);
    assert_eq!(s, "38;2;9;8;7");
    let mut s = String::new();
    Color::Xterm(XtermColor::from_code(33)).fmt_background(&mut s);
    assert_eq!(s, "\x1b[48;5;33m");
    let mut s = String::new();
    Color::Ansi(AnsiColor::Yellow).fmt_underline(&mut s);
    assert_eq!(s, "\x1b[58;5;3m");
}

#[test]
fn payload_and_its_cuts() {
    let p = payload(b'4', 1, 20, 255);
    assert_eq!(p.get(), "\x1b[48;2;1;20;255m");
    assert_eq!(p.args_payload().get(), "48;2;1;20;255");
    assert_eq!(p.raw_args_payload().get(), "2;1;20;255");
}

#[test]
fn buffer_writes() {
    let mut b = RgbBuffer::new();
    b.write_escape_start(Layer::Background);
    b.write_args(205, 0, 50);
    b.write_escape_end();
    assert_eq!(b.to_str(), "\x1b[48;2;205;0;50m");
    let mut b = RgbBuffer::new();
    b.write_args_header(Layer::Underline);
    b.write_u8(100);
    b.write_sep();
    b.write_char(b'x');
    b.write("ab");
    assert_eq!(b.to_str(), "58;2;100;xab");
}
