use colorz::ansi::AnsiColor;
use colorz::mode::{color_kind_of, ColorKind, ColorMode, Environment, ModeConfig, Stream};
use colorz::rgb::{Rgb, RgbColor};
use colorz::xterm::{Xterm, XtermColor};
use colorz::{Color, ComptimeColor, Kind, NoColor, OptionalColor};

fn env(no_color: bool, force_color: bool) -> Environment {
    Environment { no_color, force_color, stdout_tty: true, stderr_tty: false, stdin_tty: true }
}

#[test]
fn environment_decides_per_stream() {
    let e = env(false, false);
    assert!(e.should_colorize(Stream::Stdout));
    assert!(!e.should_colorize(Stream::Stderr));
    assert!(e.should_colorize(Stream::Stdin));
    assert!(!env(true, true).should_colorize(Stream::Stdout));
    assert!(env(false, true).should_colorize(Stream::Stderr));
    assert_eq!(env(true, false).initial_mode(), ColorMode::Never);
    assert_eq!(env(false, true).initial_mode(), ColorMode::Always);
    assert_eq!(env(false, false).initial_mode(), ColorMode::Auto);
}

#[test]
fn override_wins_over_default() {
    let config = ModeConfig::new(env(true, false));
    assert!(!config.should_color(None, None));
    assert!(config.should_color(Some(ColorMode::Always), None));
    let auto = ModeConfig::new(env(false, false));
    assert!(auto.should_color(None, None));
    assert!(!auto.should_color(None, Some(Stream::Stderr)));
    assert!(!auto.should_color(Some(ColorMode::Never), Some(Stream::Stdout)));
}

#[test]
fn color_kinds() {
    assert_eq!(color_kind_of(Color::Ansi(AnsiColor::Red)), ColorKind::Ansi);
    assert_eq!(color_kind_of(Color::Xterm(XtermColor::from_code(1))), ColorKind::Xterm);
    assert_eq!(color_kind_of(Color::Rgb(RgbColor { red: 1, green: 2, blue: 3 })), ColorKind::Rgb);
    assert_eq!(OptionalColor::color_kind(NoColor), ColorKind::NoColor);
    assert_eq!(OptionalColor::color_kind(None::<Color>), ColorKind::NoColor);
    assert_eq!(OptionalColor::color_kind(Some(Xterm::<3>)), ColorKind::Xterm);
}

#[test]
fn presence_and_get() {
    assert_eq!(NoColor.presence(), Kind::NeverSome);
    assert_eq!(Some(AnsiColor::Red).presence(), Kind::MaybeSome);
    assert_eq!(AnsiColor::Red.presence(), Kind::AlwaysSome);
    assert!(NoColor.get().is_none());
    assert!(None::<AnsiColor>.get().is_none());
    assert_eq!(Some(AnsiColor::Red).get(), Some(AnsiColor::Red));
}

#[test]
fn conversions_widen() {
    let c: RgbColor = Rgb::<1, 2, 3>.into();
    assert_eq!(c, RgbColor { red: 1, green: 2, blue: 3 });
    let c: Color = Rgb::<1, 2, 3>.into();
    assert_eq!(c, Color::Rgb(RgbColor { red: 1, green: 2, blue: 3 }));
    let c: Option<Color> = Rgb::<1, 2, 3>.into();
    assert_eq!(c, Some(Color::Rgb(RgbColor { red: 1, green: 2, blue: 3 })));
    let c: Option<Color> = NoColor.into();
    assert_eq!(c, None);
    let c: XtermColor = 200u8.into();
    assert_eq!(c, XtermColor::from_code(200));
    let c: Option<Color> = Xterm::<5>.into();
    assert_eq!(c, Some(Color::Xterm(XtermColor::from_code(5))));
    let c: Color = AnsiColor::Cyan.into();
    assert_eq!(c, Color::Ansi(AnsiColor::Cyan));
    assert_eq!(Rgb::<4, 5, 6>.value(), Some(Color::Rgb(RgbColor { red: 4, green: 5, blue: 6 })));
    assert_eq!(NoColor.value(), None);
    assert_eq!(Xterm::<8>.value(), Some(Color::Xterm(XtermColor::from_code(8))));
}
