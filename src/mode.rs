//! Deciding whether escape sequences are written at all.
use vstd::prelude::*;

use crate::Color;

verus! {

/// The color model of a color, used to detect whether to color on a given terminal
#[derive(Debug, Clone, Copy, PartialEq, Eq, Structural)]
pub enum ColorKind {
    /// No color at all
    NoColor,
    /// A named ANSI color
    Ansi,
    /// An Xterm palette color
    Xterm,
    /// A 24-bit color
    Rgb,
}

/// The color model of `color`.
pub open spec fn kind_of(color: Color) -> ColorKind {
    match color {
        Color::Ansi(_) => ColorKind::Ansi,
        Color::Xterm(_) => ColorKind::Xterm,
        Color::Rgb(_) => ColorKind::Rgb,
    }
}

/// The color model of an optional color.
pub open spec fn kind_of_option(color: Option<Color>) -> ColorKind {
    match color {
        Some(c) => kind_of(c),
        None => ColorKind::NoColor,
    }
}

/// The color model of `color`.
pub fn color_kind_of(color: Color) -> (r: ColorKind)
    ensures
        r == kind_of(color),
{
    match color {
        Color::Ansi(_) => ColorKind::Ansi,
        Color::Xterm(_) => ColorKind::Xterm,
        Color::Rgb(_) => ColorKind::Rgb,
    }
}

/// Whether to write escape sequences
#[derive(Debug, Clone, Copy, PartialEq, Eq, Structural)]
pub enum ColorMode {
    /// Always write them
    Always,
    /// Never write them
    Never,
    /// Write them when the target stream supports color
    Auto,
}

/// An output stream of the process
#[derive(Debug, Clone, Copy, PartialEq, Eq, Structural)]
pub enum Stream {
    /// The standard output
    Stdout,
    /// The standard error
    Stderr,
    /// The standard input
    Stdin,
}

/// What the process environment says about color, read once at start-up.
#[derive(Debug, Clone, Copy, PartialEq, Eq, Structural)]
pub struct Environment {
    /// A variable asks that no color be written
    pub no_color: bool,
    /// A variable asks that color be written, terminal or not
    pub force_color: bool,
    /// The standard output is a color-capable terminal
    pub stdout_tty: bool,
    /// The standard error is a color-capable terminal
    pub stderr_tty: bool,
    /// The standard input is a color-capable terminal
    pub stdin_tty: bool,
}

impl Environment {
    /// Whether `stream` is a color-capable terminal.
    pub open spec fn spec_is_tty(self, stream: Stream) -> bool {
        match stream {
            Stream::Stdout => self.stdout_tty,
            Stream::Stderr => self.stderr_tty,
            Stream::Stdin => self.stdin_tty,
        }
    }

    /// Whether `stream` is a color-capable terminal.
    pub fn is_tty(self, stream: Stream) -> (r: bool)
        ensures
            r == self.spec_is_tty(stream),
    {
        match stream {
            Stream::Stdout => self.stdout_tty,
            Stream::Stderr => self.stderr_tty,
            Stream::Stdin => self.stdin_tty,
        }
    }

    /// Whether color should be written to `stream`: never when asked for no
    /// color, always when color is forced, and otherwise when the stream is a
    /// terminal.
    pub open spec fn spec_should_colorize(self, stream: Stream) -> bool {
        if self.no_color {
            false
        } else if self.force_color {
            true
        } else {
            self.spec_is_tty(stream)
        }
    }

    /// Whether color should be written to `stream`.
    pub fn should_colorize(self, stream: Stream) -> (r: bool)
        ensures
            r == self.spec_should_colorize(stream),
    {
        if self.no_color {
            false
        } else if self.force_color {
            true
        } else {
            self.is_tty(stream)
        }
    }

    /// The default mode that this environment calls for.
    pub open spec fn spec_initial_mode(self) -> ColorMode {
        if self.no_color {
            ColorMode::Never
        } else if self.force_color {
            ColorMode::Always
        } else {
            ColorMode::Auto
        }
    }

    /// The default mode that this environment calls for.
    pub fn initial_mode(self) -> (r: ColorMode)
        ensures
            r == self.spec_initial_mode(),
    {
        if self.no_color {
            ColorMode::Never
        } else if self.force_color {
            ColorMode::Always
        } else {
            ColorMode::Auto
        }
    }
}

/// The stream that a value with no stream of its own is written to.
pub open spec fn target_stream(stream: Option<Stream>) -> Stream {
    match stream {
        Some(s) => s,
        None => Stream::Stdout,
    }
}

/// Whether escapes are written: a per-call mode wins over the default, and
/// `Auto` asks the environment about the target stream.
pub open spec fn spec_resolve(
    mode: Option<ColorMode>,
    default_mode: ColorMode,
    env: Environment,
    stream: Option<Stream>,
) -> bool {
    let m = match mode {
        Some(m) => m,
        None => default_mode,
    };
    match m {
        ColorMode::Always => true,
        ColorMode::Never => false,
        ColorMode::Auto => env.spec_should_colorize(target_stream(stream)),
    }
}

/// The color configuration of a process: a default mode and the environment
/// it was read from.
#[derive(Debug, Clone, Copy)]
pub struct ModeConfig {
    /// The mode used when a call gives none
    pub default_mode: ColorMode,
    /// The environment that `Auto` consults
    pub env: Environment,
}

impl ModeConfig {
    /// The configuration that `env` calls for.
    pub fn new(env: Environment) -> (r: ModeConfig)
        ensures
            r.env == env,
            r.default_mode == env.spec_initial_mode(),
    {
        ModeConfig { default_mode: env.initial_mode(), env }
    }

    /// Replaces the default mode.
    pub fn set_default_mode(&mut self, mode: ColorMode)
        ensures
            final(self).default_mode == mode,
            final(self).env == old(self).env,
    {
        self.default_mode = mode;
    }

    /// Whether escapes are written for a call with `mode` to `stream`.
    pub fn should_color(&self, mode: Option<ColorMode>, stream: Option<Stream>) -> (r: bool)
        ensures
            r == spec_resolve(mode, self.default_mode, self.env, stream),
    {
        let m = match mode {
            Some(m) => m,
            None => self.default_mode,
        };
        let target = match stream {
            Some(s) => s,
            None => Stream::Stdout,
        };
        match m {
            ColorMode::Always => true,
            ColorMode::Never => false,
            ColorMode::Auto => self.env.should_colorize(target),
        }
    }
}

} // verus!
