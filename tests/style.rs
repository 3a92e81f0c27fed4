use colorz::ansi::AnsiColor;
use colorz::mode::{ColorMode, Environment, ModeConfig, Stream};
use colorz::rgb::{Rgb, RgbColor};
use colorz::xterm::XtermColor;
use colorz::{Color, Effect, EffectFlags, NoColor, Style, StyledValue};

fn env(no_color: bool, force_color: bool, tty: bool) -> Environment {
    Environment { no_color, force_color, stdout_tty: tty, stderr_tty: false, stdin_tty: false }
}

#[test]
fn red_bold_scenario() {
    let style = Style::new().fg(RgbColor { red: 255, green: 0, blue: 0 }).effect(Effect::Bold);
    assert_eq!(style.render("hi", true), "\x1b[38;2;255;0;0;1mhi\x1b[0m");
}

#[test]
fn plain_style_writes_value_only() {
    let style = Style::new();
    assert_eq!(style.render("hi", true), "hi");
    assert_eq!(style.render("hi", false), "hi");
    let style = Style::new().fg(None::<Color>).bg(NoColor);
    assert_eq!(style.render("", true), "");
}

#[test]
fn disabled_style_never_escapes() {
    let style = Style::new()
        .fg(XtermColor::from_code(196))
        .bg(AnsiColor::Blue)
        .underline_color(Rgb::<1, 2, 3>)
        .effect(Effect::Italic)
        .effect(Effect::Strikethrough);
    let out = style.render("text", false);
    assert_eq!(out, "text");
    assert!(!out.contains("\x1b["));
}

#[test]
fn enabled_style_frames_once() {
    let style = Style::new()
        .fg(XtermColor::from_code(196))
        .bg(AnsiColor::Blue)
        .underline_color(Rgb::<1, 2, 3>)
        .effect(Effect::Underline);
    let out = style.render("text", true);
    assert_eq!(out, "\x1b[38;5;196;44;58;2;1;2;3;4mtext\x1b[0m");
    assert!(out.starts_with("\x1b["));
    assert!(out.ends_with("\x1b[0m"));
    assert_eq!(out.matches("\x1b[").count(), 2);
    assert_eq!(out.matches("\x1b[0m").count(), 1);
}

#[test]
fn effects_only_args_are_codes_in_order() {
    let style = Style::new()
        .effect(Effect::Overline)
        .effect(Effect::Bold)
        .effect(Effect::DoubleUnderline)
        .effect(Effect::Italic);
    let mut args = String::new();
    assert!(style.fmt_args(&mut args));
    assert_eq!(args, "1;3;21;53");
    let mut none = String::new();
    assert!(!Style::new().fmt_args(&mut none));
    assert_eq!(none, "");
}

#[test]
fn optional_colors_render_when_present() {
    let style = Style::new().fg(Some(Color::Ansi(AnsiColor::Red))).bg(None::<Color>);
    assert_eq!(style.render("a", true), "\x1b[31ma\x1b[0m");
}

#[test]
fn styled_value_follows_mode() {
    let style = Style::new().fg(AnsiColor::Green);
    let value = StyledValue::new("ok", style, Some(Stream::Stdout));
    let config = ModeConfig::new(env(false, false, true));
    assert_eq!(config.default_mode, ColorMode::Auto);
    assert_eq!(value.render(&config, None), "\x1b[32mok\x1b[0m");
    assert_eq!(value.render(&config, Some(ColorMode::Never)), "ok");
    let piped = ModeConfig::new(env(false, false, false));
    assert_eq!(value.render(&piped, None), "ok");
    assert_eq!(value.render(&piped, Some(ColorMode::Always)), "\x1b[32mok\x1b[0m");
    let mut forced = piped;
    forced.set_default_mode(ColorMode::Always);
    assert_eq!(value.render(&forced, None), "\x1b[32mok\x1b[0m");
    let to_stderr = StyledValue::new("ok", style, Some(Stream::Stderr));
    assert_eq!(to_stderr.render(&config, None), "ok");
}

#[test]
fn effect_flags_set_operations() {
    let a = Effect::Bold.flags().union(Effect::Hidden.flags());
    assert!(a.contains(Effect::Bold));
    assert!(a.contains(Effect::Hidden));
    assert!(!a.contains(Effect::Blink));
    let b = a.remove(Effect::Bold);
    assert!(!b.contains(Effect::Bold));
    assert!(b.contains(Effect::Hidden));
    let c = a.difference(Effect::Hidden.flags());
    assert_eq!(c.iter(), vec![Effect::Bold]);
    assert_eq!(EffectFlags::new().iter(), Vec::<Effect>::new());
    let all = [
        Effect::Overline,
        Effect::DoubleUnderline,
        Effect::Strikethrough,
        Effect::Hidden,
        Effect::Reverse,
        Effect::BlinkFast,
        Effect::Blink,
        Effect::Underline,
        Effect::Italic,
        Effect::Dimmed,
        Effect::Bold,
    ];
    let mut flags = EffectFlags::new();
    for e in all {
        flags = flags.with(e);
    }
    let codes: Vec<u8> = flags.iter().into_iter().map(|e| e.code()).collect();
    assert_eq!(codes, vec![1, 2, 3, 4, 5, 6, 7, 8, 9, 21, 53]);
}
