//! Color configuration for log formatting.
//!
//! [`ColorAttribute`] names a terminal color, [`Color`] pairs a foreground
//! with a background, and [`Colors`] is the full palette: one independently
//! optional slot per rendered field.
//!
//! Styling itself is done by the `owo_colors` crate, which emits the text
//! unchanged whenever the destination stream does not support color (or
//! styling is switched off process-wide). Each styling call therefore has the
//! contract "the text unchanged, or the text between this color's escape
//! codes": [`fg_applied`] and [`bg_applied`] state that disjunction.

use vstd::prelude::*;

use crate::level::Level;
use owo_colors::OwoColorize;
use owo_colors::Stream;

verus! {

/// Destination stream of `owo_colors`: styling is suppressed when the chosen
/// stream does not support color.
#[verifier::external_type_specification]
#[verifier::external_body]
pub struct ExStream(Stream);

/// Color attribute for terminal output.
#[derive(Clone, Copy, Debug, PartialEq, Eq, Structural)]
pub enum ColorAttribute {
    /// No color (transparent/reset)
    Reset,
    // Standard colors
    Black,
    Red,
    Green,
    Yellow,
    Blue,
    Magenta,
    Cyan,
    White,
    // Bright/high-intensity colors
    HiBlack,
    HiRed,
    HiGreen,
    HiYellow,
    HiBlue,
    HiMagenta,
    HiCyan,
    HiWhite,
}

impl Default for ColorAttribute {
    /// The default attribute: no color.
    fn default() -> (r: Self)
        ensures
            r == ColorAttribute::Reset,
    {
        ColorAttribute::Reset
    }
}

/// The escape sequence that starts this foreground color, empty for `Reset`.
pub open spec fn fg_prefix(a: ColorAttribute) -> Seq<char> {
    match a {
        ColorAttribute::Reset => Seq::<char>::empty(),
        ColorAttribute::Black => "\u{1b}[30m"@,
        ColorAttribute::Red => "\u{1b}[31m"@,
        ColorAttribute::Green => "\u{1b}[32m"@,
        ColorAttribute::Yellow => "\u{1b}[33m"@,
        ColorAttribute::Blue => "\u{1b}[34m"@,
        ColorAttribute::Magenta => "\u{1b}[35m"@,
        ColorAttribute::Cyan => "\u{1b}[36m"@,
        ColorAttribute::White => "\u{1b}[37m"@,
        ColorAttribute::HiBlack => "\u{1b}[90m"@,
        ColorAttribute::HiRed => "\u{1b}[91m"@,
        ColorAttribute::HiGreen => "\u{1b}[92m"@,
        ColorAttribute::HiYellow => "\u{1b}[93m"@,
        ColorAttribute::HiBlue => "\u{1b}[94m"@,
        ColorAttribute::HiMagenta => "\u{1b}[95m"@,
        ColorAttribute::HiCyan => "\u{1b}[96m"@,
        ColorAttribute::HiWhite => "\u{1b}[97m"@,
    }
}

/// The escape sequence that starts this background color, empty for `Reset`.
pub open spec fn bg_prefix(a: ColorAttribute) -> Seq<char> {
    match a {
        ColorAttribute::Reset => Seq::<char>::empty(),
        ColorAttribute::Black => "\u{1b}[40m"@,
        ColorAttribute::Red => "\u{1b}[41m"@,
        ColorAttribute::Green => "\u{1b}[42m"@,
        ColorAttribute::Yellow => "\u{1b}[43m"@,
        ColorAttribute::Blue => "\u{1b}[44m"@,
        ColorAttribute::Magenta => "\u{1b}[45m"@,
        ColorAttribute::Cyan => "\u{1b}[46m"@,
        ColorAttribute::White => "\u{1b}[47m"@,
        ColorAttribute::HiBlack => "\u{1b}[100m"@,
        ColorAttribute::HiRed => "\u{1b}[101m"@,
        ColorAttribute::HiGreen => "\u{1b}[102m"@,
        ColorAttribute::HiYellow => "\u{1b}[103m"@,
        ColorAttribute::HiBlue => "\u{1b}[104m"@,
        ColorAttribute::HiMagenta => "\u{1b}[105m"@,
        ColorAttribute::HiCyan => "\u{1b}[106m"@,
        ColorAttribute::HiWhite => "\u{1b}[107m"@,
    }
}

/// The escape sequence that resets the foreground color.
pub open spec fn fg_suffix() -> Seq<char> {
    "\u{1b}[39m"@
}

/// The escape sequence that resets the background color.
pub open spec fn bg_suffix() -> Seq<char> {
    "\u{1b}[49m"@
}

/// `s` wrapped in the foreground escape codes of `a`.
pub open spec fn fg_styled(a: ColorAttribute, s: Seq<char>) -> Seq<char> {
    fg_prefix(a) + s + fg_suffix()
}

/// `s` wrapped in the background escape codes of `a`.
pub open spec fn bg_styled(a: ColorAttribute, s: Seq<char>) -> Seq<char> {
    bg_prefix(a) + s + bg_suffix()
}

/// What applying foreground attribute `a` to `s` may return: for `Reset` the
/// text unchanged; otherwise either the text unchanged (stream without color
/// support) or the styled text.
pub open spec fn fg_applied(a: ColorAttribute, s: Seq<char>, r: Seq<char>) -> bool {
    if a is Reset {
        r == s
    } else {
        r == s || r == fg_styled(a, s)
    }
}

/// What applying background attribute `a` to `s` may return.
pub open spec fn bg_applied(a: ColorAttribute, s: Seq<char>, r: Seq<char>) -> bool {
    if a is Reset {
        r == s
    } else {
        r == s || r == bg_styled(a, s)
    }
}

/// What applying a full [`Color`] to `s` may return: the foreground first,
/// then the background over the result.
pub open spec fn color_applied(c: Color, s: Seq<char>, r: Seq<char>) -> bool {
    exists|m: Seq<char>| #[trigger] fg_applied(c.fg, s, m) && bg_applied(c.bg, m, r)
}

impl ColorAttribute {
    /// Apply this color to a string as a foreground color.
    pub fn apply(&self, text: &str, stream: Stream) -> (r: String)
        ensures
            fg_applied(*self, text@, r@),
    {
        match self {
            ColorAttribute::Reset => text.to_owned(),
            ColorAttribute::Black => style_fg_black(text, stream),
            ColorAttribute::Red => style_fg_red(text, stream),
            ColorAttribute::Green => style_fg_green(text, stream),
            ColorAttribute::Yellow => style_fg_yellow(text, stream),
            ColorAttribute::Blue => style_fg_blue(text, stream),
            ColorAttribute::Magenta => style_fg_magenta(text, stream),
            ColorAttribute::Cyan => style_fg_cyan(text, stream),
            ColorAttribute::White => style_fg_white(text, stream),
            ColorAttribute::HiBlack => style_fg_hi_black(text, stream),
            ColorAttribute::HiRed => style_fg_hi_red(text, stream),
            ColorAttribute::HiGreen => style_fg_hi_green(text, stream),
            ColorAttribute::HiYellow => style_fg_hi_yellow(text, stream),
            ColorAttribute::HiBlue => style_fg_hi_blue(text, stream),
            ColorAttribute::HiMagenta => style_fg_hi_magenta(text, stream),
            ColorAttribute::HiCyan => style_fg_hi_cyan(text, stream),
            ColorAttribute::HiWhite => style_fg_hi_white(text, stream),
        }
    }

    /// Apply this color to a string as a background color.
    pub fn apply_bg(&self, text: &str, stream: Stream) -> (r: String)
        ensures
            bg_applied(*self, text@, r@),
    {
        match self {
            ColorAttribute::Reset => text.to_owned(),
            ColorAttribute::Black => style_bg_black(text, stream),
            ColorAttribute::Red => style_bg_red(text, stream),
            ColorAttribute::Green => style_bg_green(text, stream),
            ColorAttribute::Yellow => style_bg_yellow(text, stream),
            ColorAttribute::Blue => style_bg_blue(text, stream),
            ColorAttribute::Magenta => style_bg_magenta(text, stream),
            ColorAttribute::Cyan => style_bg_cyan(text, stream),
            ColorAttribute::White => style_bg_white(text, stream),
            ColorAttribute::HiBlack => style_bg_hi_black(text, stream),
            ColorAttribute::HiRed => style_bg_hi_red(text, stream),
            ColorAttribute::HiGreen => style_bg_hi_green(text, stream),
            ColorAttribute::HiYellow => style_bg_hi_yellow(text, stream),
            ColorAttribute::HiBlue => style_bg_hi_blue(text, stream),
            ColorAttribute::HiMagenta => style_bg_hi_magenta(text, stream),
            ColorAttribute::HiCyan => style_bg_hi_cyan(text, stream),
            ColorAttribute::HiWhite => style_bg_hi_white(text, stream),
        }
    }
}

/// Foreground and background color configuration.
#[derive(Clone, Copy, Debug, PartialEq, Eq, Structural)]
pub struct Color {
    /// Foreground color
    pub fg: ColorAttribute,
    /// Background color
    pub bg: ColorAttribute,
}

impl Default for Color {
    /// Both attributes reset: no styling at all.
    fn default() -> (r: Self)
        ensures
            r == (Color { fg: ColorAttribute::Reset, bg: ColorAttribute::Reset }),
    {
        Color { fg: ColorAttribute::Reset, bg: ColorAttribute::Reset }
    }
}

impl Color {
    /// Create a color with just foreground
    pub fn fg(color: ColorAttribute) -> (r: Self)
        ensures
            r == (Color { fg: color, bg: ColorAttribute::Reset }),
    {
        Color { fg: color, bg: ColorAttribute::Reset }
    }

    /// Create a color with foreground and background
    pub fn new(fg: ColorAttribute, bg: ColorAttribute) -> (r: Self)
        ensures
            r == (Color { fg, bg }),
    {
        Color { fg, bg }
    }

    /// Apply both foreground and background to text
    pub fn apply(&self, text: &str, stream: Stream) -> (r: String)
        ensures
            color_applied(*self, text@, r@),
    {
        let with_fg = self.fg.apply(text, stream);
        if self.bg == ColorAttribute::Reset {
            proof {
                assert(fg_applied(self.fg, text@, with_fg@));
            }
            with_fg
        } else {
            let r = self.bg.apply_bg(with_fg.as_str(), stream);
            proof {
                assert(fg_applied(self.fg, text@, with_fg@));
            }
            r
        }
    }
}

// Convenience constructors
impl Color {
    pub fn black() -> (r: Self)
        ensures
            r == (Color { fg: ColorAttribute::Black, bg: ColorAttribute::Reset }),
    {
        Self::fg(ColorAttribute::Black)
    }

    pub fn red() -> (r: Self)
        ensures
            r == (Color { fg: ColorAttribute::Red, bg: ColorAttribute::Reset }),
    {
        Self::fg(ColorAttribute::Red)
    }

    pub fn green() -> (r: Self)
        ensures
            r == (Color { fg: ColorAttribute::Green, bg: ColorAttribute::Reset }),
    {
        Self::fg(ColorAttribute::Green)
    }

    pub fn yellow() -> (r: Self)
        ensures
            r == (Color { fg: ColorAttribute::Yellow, bg: ColorAttribute::Reset }),
    {
        Self::fg(ColorAttribute::Yellow)
    }

    pub fn blue() -> (r: Self)
        ensures
            r == (Color { fg: ColorAttribute::Blue, bg: ColorAttribute::Reset }),
    {
        Self::fg(ColorAttribute::Blue)
    }

    pub fn magenta() -> (r: Self)
        ensures
            r == (Color { fg: ColorAttribute::Magenta, bg: ColorAttribute::Reset }),
    {
        Self::fg(ColorAttribute::Magenta)
    }

    pub fn cyan() -> (r: Self)
        ensures
            r == (Color { fg: ColorAttribute::Cyan, bg: ColorAttribute::Reset }),
    {
        Self::fg(ColorAttribute::Cyan)
    }

    pub fn white() -> (r: Self)
        ensures
            r == (Color { fg: ColorAttribute::White, bg: ColorAttribute::Reset }),
    {
        Self::fg(ColorAttribute::White)
    }

    pub fn hi_black() -> (r: Self)
        ensures
            r == (Color { fg: ColorAttribute::HiBlack, bg: ColorAttribute::Reset }),
    {
        Self::fg(ColorAttribute::HiBlack)
    }

    pub fn hi_red() -> (r: Self)
        ensures
            r == (Color { fg: ColorAttribute::HiRed, bg: ColorAttribute::Reset }),
    {
        Self::fg(ColorAttribute::HiRed)
    }

    pub fn hi_green() -> (r: Self)
        ensures
            r == (Color { fg: ColorAttribute::HiGreen, bg: ColorAttribute::Reset }),
    {
        Self::fg(ColorAttribute::HiGreen)
    }

    pub fn hi_yellow() -> (r: Self)
        ensures
            r == (Color { fg: ColorAttribute::HiYellow, bg: ColorAttribute::Reset }),
    {
        Self::fg(ColorAttribute::HiYellow)
    }

    pub fn hi_blue() -> (r: Self)
        ensures
            r == (Color { fg: ColorAttribute::HiBlue, bg: ColorAttribute::Reset }),
    {
        Self::fg(ColorAttribute::HiBlue)
    }

    pub fn hi_magenta() -> (r: Self)
        ensures
            r == (Color { fg: ColorAttribute::HiMagenta, bg: ColorAttribute::Reset }),
    {
        Self::fg(ColorAttribute::HiMagenta)
    }

    pub fn hi_cyan() -> (r: Self)
        ensures
            r == (Color { fg: ColorAttribute::HiCyan, bg: ColorAttribute::Reset }),
    {
        Self::fg(ColorAttribute::HiCyan)
    }

    pub fn hi_white() -> (r: Self)
        ensures
            r == (Color { fg: ColorAttribute::HiWhite, bg: ColorAttribute::Reset }),
    {
        Self::fg(ColorAttribute::HiWhite)
    }
}

/// Fine-grained color configuration for all log components.
#[derive(Clone, Debug, PartialEq)]
pub struct Colors {
    /// Timestamp color
    pub timestamp: Option<Color>,
    /// TRACE level color
    pub level_trace: Option<Color>,
    /// DEBUG level color
    pub level_debug: Option<Color>,
    /// INFO level color
    pub level_info: Option<Color>,
    /// WARN level color
    pub level_warn: Option<Color>,
    /// ERROR level color
    pub level_error: Option<Color>,
    /// Message text color
    pub message: Option<Color>,
    /// Arrow separator color
    pub arrow: Option<Color>,
    /// Caller file name color
    pub caller_file: Option<Color>,
    /// Caller line number color
    pub caller_line: Option<Color>,
    /// Target/module name color
    pub target: Option<Color>,
    /// Structured logging key color
    pub attr_key: Option<Color>,
    /// Structured logging value color
    pub attr_value: Option<Color>,
}

/// The palette with every slot set to its customary color.
pub open spec fn default_colors() -> Colors {
    Colors {
        timestamp: Some(Color { fg: ColorAttribute::Green, bg: ColorAttribute::Reset }),
        level_trace: Some(Color { fg: ColorAttribute::HiBlue, bg: ColorAttribute::Reset }),
        level_debug: Some(Color { fg: ColorAttribute::Cyan, bg: ColorAttribute::Reset }),
        level_info: Some(Color { fg: ColorAttribute::HiGreen, bg: ColorAttribute::Reset }),
        level_warn: Some(Color { fg: ColorAttribute::HiYellow, bg: ColorAttribute::Reset }),
        level_error: Some(Color { fg: ColorAttribute::Red, bg: ColorAttribute::Reset }),
        message: Some(Color { fg: ColorAttribute::Green, bg: ColorAttribute::Reset }),
        arrow: Some(Color { fg: ColorAttribute::Cyan, bg: ColorAttribute::Reset }),
        caller_file: Some(Color { fg: ColorAttribute::HiYellow, bg: ColorAttribute::Reset }),
        caller_line: Some(Color { fg: ColorAttribute::HiYellow, bg: ColorAttribute::Reset }),
        target: Some(Color { fg: ColorAttribute::HiYellow, bg: ColorAttribute::Reset }),
        attr_key: Some(Color { fg: ColorAttribute::HiYellow, bg: ColorAttribute::Reset }),
        attr_value: Some(Color { fg: ColorAttribute::Cyan, bg: ColorAttribute::Reset }),
    }
}

impl Default for Colors {
    /// Returns the customary palette: green timestamp and message, cyan
    /// arrow, bright-yellow caller, target and keys, per-level level colors.
    fn default() -> (r: Self)
        ensures
            r == default_colors(),
    {
        Colors {
            timestamp: Some(Color::green()),
            level_trace: Some(Color::hi_blue()),
            level_debug: Some(Color::cyan()),
            level_info: Some(Color::hi_green()),
            level_warn: Some(Color::hi_yellow()),
            level_error: Some(Color::red()),
            message: Some(Color::green()),
            arrow: Some(Color::cyan()),
            caller_file: Some(Color::hi_yellow()),
            caller_line: Some(Color::hi_yellow()),
            target: Some(Color::hi_yellow()),
            attr_key: Some(Color::hi_yellow()),
            attr_value: Some(Color::cyan()),
        }
    }
}

/// The palette slot that colors a given level.
pub open spec fn spec_level_color(c: Colors, level: Level) -> Option<Color> {
    match level {
        Level::Error => c.level_error,
        Level::Warn => c.level_warn,
        Level::Info => c.level_info,
        Level::Debug => c.level_debug,
        Level::Trace => c.level_trace,
    }
}

impl Colors {
    /// Get the color slot for a specific log level.
    pub fn level_color(&self, level: Level) -> (r: Option<&Color>)
        ensures
            match r {
                Some(c) => spec_level_color(*self, level) == Some(*c),
                None => spec_level_color(*self, level) is None,
            },
    {
        match level {
            Level::Error => self.level_error.as_ref(),
            Level::Warn => self.level_warn.as_ref(),
            Level::Info => self.level_info.as_ref(),
            Level::Debug => self.level_debug.as_ref(),
            Level::Trace => self.level_trace.as_ref(),
        }
    }
}

/// Relies on `owo_colors::set_override`: forces styling on or off
/// process-wide, ahead of what the destination stream supports.
#[verifier::external_body]
pub(crate) fn set_color_override(enabled: bool) {
    owo_colors::set_override(enabled);
}

/// Relies on `owo_colors::Stream::Stdout`: the stream value that stands for
/// standard output (files are styled as standard output as well).
#[verifier::external_body]
pub(crate) fn stdout_stream() -> Stream {
    Stream::Stdout
}

/// Relies on `owo_colors::Stream::Stderr`: the stream value that stands for
/// standard error.
#[verifier::external_body]
pub(crate) fn stderr_stream() -> Stream {
    Stream::Stderr
}

// Each of the following relies on one color method of
// `owo_colors::OwoColorize`, called through `if_supports_color`: the result
// is the text unchanged (stream without color support, or styling switched
// off), or the text between that color's escape codes, exactly as the
// `colors!` table of `owo_colors` lists them.

/// Relies on `OwoColorize::black`.
#[verifier::external_body]
fn style_fg_black(t: &str, stream: Stream) -> (r: String)
    ensures
        r@ == t@ || r@ == fg_styled(ColorAttribute::Black, t@),
{
    t.if_supports_color(stream, |x| x.black()).to_string()
}

/// Relies on `OwoColorize::red`.
#[verifier::external_body]
fn style_fg_red(t: &str, stream: Stream) -> (r: String)
    ensures
        r@ == t@ || r@ == fg_styled(ColorAttribute::Red, t@),
{
    t.if_supports_color(stream, |x| x.red()).to_string()
}

/// Relies on `OwoColorize::green`.
#[verifier::external_body]
fn style_fg_green(t: &str, stream: Stream) -> (r: String)
    ensures
        r@ == t@ || r@ == fg_styled(ColorAttribute::Green, t@),
{
    t.if_supports_color(stream, |x| x.green()).to_string()
}

/// Relies on `OwoColorize::yellow`.
#[verifier::external_body]
fn style_fg_yellow(t: &str, stream: Stream) -> (r: String)
    ensures
        r@ == t@ || r@ == fg_styled(ColorAttribute::Yellow, t@),
{
    t.if_supports_color(stream, |x| x.yellow()).to_string()
}

/// Relies on `OwoColorize::blue`.
#[verifier::external_body]
fn style_fg_blue(t: &str, stream: Stream) -> (r: String)
    ensures
        r@ == t@ || r@ == fg_styled(ColorAttribute::Blue, t@),
{
    t.if_supports_color(stream, |x| x.blue()).to_string()
}

/// Relies on `OwoColorize::magenta`.
#[verifier::external_body]
fn style_fg_magenta(t: &str, stream: Stream) -> (r: String)
    ensures
        r@ == t@ || r@ == fg_styled(ColorAttribute::Magenta, t@),
{
    t.if_supports_color(stream, |x| x.magenta()).to_string()
}

/// Relies on `OwoColorize::cyan`.
#[verifier::external_body]
fn style_fg_cyan(t: &str, stream: Stream) -> (r: String)
    ensures
        r@ == t@ || r@ == fg_styled(ColorAttribute::Cyan, t@),
{
    t.if_supports_color(stream, |x| x.cyan()).to_string()
}

/// Relies on `OwoColorize::white`.
#[verifier::external_body]
fn style_fg_white(t: &str, stream: Stream) -> (r: String)
    ensures
        r@ == t@ || r@ == fg_styled(ColorAttribute::White, t@),
{
    t.if_supports_color(stream, |x| x.white()).to_string()
}

/// Relies on `OwoColorize::bright_black`.
#[verifier::external_body]
fn style_fg_hi_black(t: &str, stream: Stream) -> (r: String)
    ensures
        r@ == t@ || r@ == fg_styled(ColorAttribute::HiBlack, t@),
{
    t.if_supports_color(stream, |x| x.bright_black()).to_string()
}

/// Relies on `OwoColorize::bright_red`.
#[verifier::external_body]
fn style_fg_hi_red(t: &str, stream: Stream) -> (r: String)
    ensures
        r@ == t@ || r@ == fg_styled(ColorAttribute::HiRed, t@),
{
    t.if_supports_color(stream, |x| x.bright_red()).to_string()
}

/// Relies on `OwoColorize::bright_green`.
#[verifier::external_body]
fn style_fg_hi_green(t: &str, stream: Stream) -> (r: String)
    ensures
        r@ == t@ || r@ == fg_styled(ColorAttribute::HiGreen, t@),
{
    t.if_supports_color(stream, |x| x.bright_green()).to_string()
}

/// Relies on `OwoColorize::bright_yellow`.
#[verifier::external_body]
fn style_fg_hi_yellow(t: &str, stream: Stream) -> (r: String)
    ensures
        r@ == t@ || r@ == fg_styled(ColorAttribute::HiYellow, t@),
{
    t.if_supports_color(stream, |x| x.bright_yellow()).to_string()
}

/// Relies on `OwoColorize::bright_blue`.
#[verifier::external_body]
fn style_fg_hi_blue(t: &str, stream: Stream) -> (r: String)
    ensures
        r@ == t@ || r@ == fg_styled(ColorAttribute::HiBlue, t@),
{
    t.if_supports_color(stream, |x| x.bright_blue()).to_string()
}

/// Relies on `OwoColorize::bright_magenta`.
#[verifier::external_body]
fn style_fg_hi_magenta(t: &str, stream: Stream) -> (r: String)
    ensures
        r@ == t@ || r@ == fg_styled(ColorAttribute::HiMagenta, t@),
{
    t.if_supports_color(stream, |x| x.bright_magenta()).to_string()
}

/// Relies on `OwoColorize::bright_cyan`.
#[verifier::external_body]
fn style_fg_hi_cyan(t: &str, stream: Stream) -> (r: String)
    ensures
        r@ == t@ || r@ == fg_styled(ColorAttribute::HiCyan, t@),
{
    t.if_supports_color(stream, |x| x.bright_cyan()).to_string()
}

/// Relies on `OwoColorize::bright_white`.
#[verifier::external_body]
fn style_fg_hi_white(t: &str, stream: Stream) -> (r: String)
    ensures
        r@ == t@ || r@ == fg_styled(ColorAttribute::HiWhite, t@),
{
    t.if_supports_color(stream, |x| x.bright_white()).to_string()
}

/// Relies on `OwoColorize::on_black`.
#[verifier::external_body]
fn style_bg_black(t: &str, stream: Stream) -> (r: String)
    ensures
        r@ == t@ || r@ == bg_styled(ColorAttribute::Black, t@),
{
    t.if_supports_color(stream, |x| x.on_black()).to_string()
}

/// Relies on `OwoColorize::on_red`.
#[verifier::external_body]
fn style_bg_red(t: &str, stream: Stream) -> (r: String)
    ensures
        r@ == t@ || r@ == bg_styled(ColorAttribute::Red, t@),
{
    t.if_supports_color(stream, |x| x.on_red()).to_string()
}

/// Relies on `OwoColorize::on_green`.
#[verifier::external_body]
fn style_bg_green(t: &str, stream: Stream) -> (r: String)
    ensures
        r@ == t@ || r@ == bg_styled(ColorAttribute::Green, t@),
{
    t.if_supports_color(stream, |x| x.on_green()).to_string()
}

/// Relies on `OwoColorize::on_yellow`.
#[verifier::external_body]
fn style_bg_yellow(t: &str, stream: Stream) -> (r: String)
    ensures
        r@ == t@ || r@ == bg_styled(ColorAttribute::Yellow, t@),
{
    t.if_supports_color(stream, |x| x.on_yellow()).to_string()
}

/// Relies on `OwoColorize::on_blue`.
#[verifier::external_body]
fn style_bg_blue(t: &str, stream: Stream) -> (r: String)
    ensures
        r@ == t@ || r@ == bg_styled(ColorAttribute::Blue, t@),
{
    t.if_supports_color(stream, |x| x.on_blue()).to_string()
}

/// Relies on `OwoColorize::on_magenta`.
#[verifier::external_body]
fn style_bg_magenta(t: &str, stream: Stream) -> (r: String)
    ensures
        r@ == t@ || r@ == bg_styled(ColorAttribute::Magenta, t@),
{
    t.if_supports_color(stream, |x| x.on_magenta()).to_string()
}

/// Relies on `OwoColorize::on_cyan`.
#[verifier::external_body]
fn style_bg_cyan(t: &str, stream: Stream) -> (r: String)
    ensures
        r@ == t@ || r@ == bg_styled(ColorAttribute::Cyan, t@),
{
    t.if_supports_color(stream, |x| x.on_cyan()).to_string()
}

/// Relies on `OwoColorize::on_white`.
#[verifier::external_body]
fn style_bg_white(t: &str, stream: Stream) -> (r: String)
    ensures
        r@ == t@ || r@ == bg_styled(ColorAttribute::White, t@),
{
    t.if_supports_color(stream, |x| x.on_white()).to_string()
}

/// Relies on `OwoColorize::on_bright_black`.
#[verifier::external_body]
fn style_bg_hi_black(t: &str, stream: Stream) -> (r: String)
    ensures
        r@ == t@ || r@ == bg_styled(ColorAttribute::HiBlack, t@),
{
    t.if_supports_color(stream, |x| x.on_bright_black()).to_string()
}

/// Relies on `OwoColorize::on_bright_red`.
#[verifier::external_body]
fn style_bg_hi_red(t: &str, stream: Stream) -> (r: String)
    ensures
        r@ == t@ || r@ == bg_styled(ColorAttribute::HiRed, t@),
{
    t.if_supports_color(stream, |x| x.on_bright_red()).to_string()
}

/// Relies on `OwoColorize::on_bright_green`.
#[verifier::external_body]
fn style_bg_hi_green(t: &str, stream: Stream) -> (r: String)
    ensures
        r@ == t@ || r@ == bg_styled(ColorAttribute::HiGreen, t@),
{
    t.if_supports_color(stream, |x| x.on_bright_green()).to_string()
}

/// Relies on `OwoColorize::on_bright_yellow`.
#[verifier::external_body]
fn style_bg_hi_yellow(t: &str, stream: Stream) -> (r: String)
    ensures
        r@ == t@ || r@ == bg_styled(ColorAttribute::HiYellow, t@),
{
    t.if_supports_color(stream, |x| x.on_bright_yellow()).to_string()
}

/// Relies on `OwoColorize::on_bright_blue`.
#[verifier::external_body]
fn style_bg_hi_blue(t: &str, stream: Stream) -> (r: String)
    ensures
        r@ == t@ || r@ == bg_styled(ColorAttribute::HiBlue, t@),
{
    t.if_supports_color(stream, |x| x.on_bright_blue()).to_string()
}

/// Relies on `OwoColorize::on_bright_magenta`.
#[verifier::external_body]
fn style_bg_hi_magenta(t: &str, stream: Stream) -> (r: String)
    ensures
        r@ == t@ || r@ == bg_styled(ColorAttribute::HiMagenta, t@),
{
    t.if_supports_color(stream, |x| x.on_bright_magenta()).to_string()
}

/// Relies on `OwoColorize::on_bright_cyan`.
#[verifier::external_body]
fn style_bg_hi_cyan(t: &str, stream: Stream) -> (r: String)
    ensures
        r@ == t@ || r@ == bg_styled(ColorAttribute::HiCyan, t@),
{
    t.if_supports_color(stream, |x| x.on_bright_cyan()).to_string()
}

/// Relies on `OwoColorize::on_bright_white`.
#[verifier::external_body]
fn style_bg_hi_white(t: &str, stream: Stream) -> (r: String)
    ensures
        r@ == t@ || r@ == bg_styled(ColorAttribute::HiWhite, t@),
{
    t.if_supports_color(stream, |x| x.on_bright_white()).to_string()
}

} // verus!
