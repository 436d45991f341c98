//! Log lines: the colour policy, the per-level colour, symbol and label,
//! and the formatted line of each message.
use vstd::prelude::*;
use crate::text::{ascii_lower_spec, owned, str_eq, to_ascii_lowercase};

verus! {

/// When to colour output.
#[derive(Debug, Clone, Copy, PartialEq, Eq, Structural)]
pub enum ColourPolicy {
    /// Colour when writing to a terminal.
    Auto,
    Always,
    Never,
}

/// The colour policy from the environment: `APP_COLOR` decides when it is
/// set (`always`, `1`, `true` or `never`, `0`, `false`, in any case;
/// anything else means auto); otherwise `FORCE_COLOR` forces colours and
/// `NO_COLOR` disables them.
pub open spec fn policy_of(app_color: Option<Seq<char>>, force_color: bool, no_color: bool) -> ColourPolicy {
    match app_color {
        Some(v) => {
            let l = ascii_lower_spec(v);
            if l == "always"@ || l == "1"@ || l == "true"@ {
                ColourPolicy::Always
            } else if l == "never"@ || l == "0"@ || l == "false"@ {
                ColourPolicy::Never
            } else {
                ColourPolicy::Auto
            }
        },
        None => if force_color {
            ColourPolicy::Always
        } else if no_color {
            ColourPolicy::Never
        } else {
            ColourPolicy::Auto
        },
    }
}

/// Determines the colour policy from the value of `APP_COLOR` (if set) and
/// whether `FORCE_COLOR` and `NO_COLOR` are set. (The words are ASCII, so
/// lowercasing ASCII letters decides the same as full lowercasing.)
pub fn colour_policy(app_color: Option<&str>, force_color_set: bool, no_color_set: bool) -> (r: ColourPolicy)
    ensures
        r == policy_of(match app_color { Some(v) => Some(v@), None => None }, force_color_set, no_color_set),
{
    match app_color {
        Some(v) => {
            let l = to_ascii_lowercase(v);
            let s = l.as_str();
            if str_eq(s, "always") || str_eq(s, "1") || str_eq(s, "true") {
                ColourPolicy::Always
            } else if str_eq(s, "never") || str_eq(s, "0") || str_eq(s, "false") {
                ColourPolicy::Never
            } else {
                ColourPolicy::Auto
            }
        },
        None => {
            if force_color_set {
                ColourPolicy::Always
            } else if no_color_set {
                ColourPolicy::Never
            } else {
                ColourPolicy::Auto
            }
        },
    }
}

/// Whether to colour a stream: by policy, or when it is a terminal.
pub fn use_colours(policy: ColourPolicy, is_terminal: bool) -> (r: bool)
    ensures
        r == match policy {
            ColourPolicy::Always => true,
            ColourPolicy::Never => false,
            ColourPolicy::Auto => is_terminal,
        },
{
    match policy {
        ColourPolicy::Always => true,
        ColourPolicy::Never => false,
        ColourPolicy::Auto => is_terminal,
    }
}

/// The ANSI code when colouring, otherwise nothing.
pub fn ansi(code: &'static str, colours: bool) -> (r: &'static str)
    ensures
        r@ == if colours { code@ } else { Seq::<char>::empty() },
{
    proof {
        reveal_strlit("");
    }
    if colours {
        code
    } else {
        ""
    }
}

/// Log levels with visual indicators.
#[derive(Debug, Clone, Copy, PartialEq, Eq, Structural)]
pub enum LogLevel {
    Info,
    Success,
    Warning,
    Error,
    Debug,
}

impl LogLevel {
    /// The ANSI colour of each level: cyan, green, yellow, red and grey.
    pub open spec fn colour_text(self) -> Seq<char> {
        match self {
            LogLevel::Info => "\x1b[36m"@,
            LogLevel::Success => "\x1b[32m"@,
            LogLevel::Warning => "\x1b[33m"@,
            LogLevel::Error => "\x1b[31m"@,
            LogLevel::Debug => "\x1b[90m"@,
        }
    }

    /// The symbol of each level.
    pub open spec fn symbol_text(self) -> Seq<char> {
        match self {
            LogLevel::Info => "ℹ"@,
            LogLevel::Success => "✓"@,
            LogLevel::Warning => "⚠"@,
            LogLevel::Error => "✗"@,
            LogLevel::Debug => "•"@,
        }
    }

    /// The label of each level.
    pub open spec fn label_text(self) -> Seq<char> {
        match self {
            LogLevel::Info => "INFO"@,
            LogLevel::Success => "SUCCESS"@,
            LogLevel::Warning => "WARNING"@,
            LogLevel::Error => "ERROR"@,
            LogLevel::Debug => "DEBUG"@,
        }
    }

    /// The colour code for this level, when colouring.
    pub fn colour_code(&self, colours: bool) -> (r: &'static str)
        ensures
            r@ == if colours { self.colour_text() } else { Seq::<char>::empty() },
    {
        match self {
            LogLevel::Info => ansi("\x1b[36m", colours),
            LogLevel::Success => ansi("\x1b[32m", colours),
            LogLevel::Warning => ansi("\x1b[33m", colours),
            LogLevel::Error => ansi("\x1b[31m", colours),
            LogLevel::Debug => ansi("\x1b[90m", colours),
        }
    }

    /// The symbol for this level.
    pub fn symbol(&self) -> (r: &'static str)
        ensures
            r@ == self.symbol_text(),
    {
        match self {
            LogLevel::Info => "ℹ",
            LogLevel::Success => "✓",
            LogLevel::Warning => "⚠",
            LogLevel::Error => "✗",
            LogLevel::Debug => "•",
        }
    }

    /// The label for this level.
    pub fn label(&self) -> (r: &'static str)
        ensures
            r@ == self.label_text(),
    {
        match self {
            LogLevel::Info => "INFO",
            LogLevel::Success => "SUCCESS",
            LogLevel::Warning => "WARNING",
            LogLevel::Error => "ERROR",
            LogLevel::Debug => "DEBUG",
        }
    }
}

/// The line of a message at a level: colour, symbol, a space, label, reset,
/// a space, then the message (no colour codes when not colouring).
pub open spec fn log_line_text(level: LogLevel, message: Seq<char>, colours: bool) -> Seq<char> {
    let colour = if colours { level.colour_text() } else { Seq::<char>::empty() };
    let reset = if colours { "\x1b[0m"@ } else { Seq::<char>::empty() };
    colour + level.symbol_text() + " "@ + level.label_text() + reset + " "@ + message
}

/// Formats the line of a message at a level.
pub fn log_message(level: LogLevel, message: &str, colours: bool) -> (r: String)
    ensures
        r@ == log_line_text(level, message@, colours),
{
    let mut s = owned(level.colour_code(colours));
    s.append(level.symbol());
    s.append(" ");
    s.append(level.label());
    s.append(ansi("\x1b[0m", colours));
    s.append(" ");
    s.append(message);
    s
}

/// The line of an info message.
pub fn info(message: &str, colours: bool) -> (r: String)
    ensures
        r@ == log_line_text(LogLevel::Info, message@, colours),
{
    log_message(LogLevel::Info, message, colours)
}

/// The line of a success message.
pub fn success(message: &str, colours: bool) -> (r: String)
    ensures
        r@ == log_line_text(LogLevel::Success, message@, colours),
{
    log_message(LogLevel::Success, message, colours)
}

/// The line of a warning.
pub fn warning(message: &str, colours: bool) -> (r: String)
    ensures
        r@ == log_line_text(LogLevel::Warning, message@, colours),
{
    log_message(LogLevel::Warning, message, colours)
}

/// The line of an error.
pub fn error(message: &str, colours: bool) -> (r: String)
    ensures
        r@ == log_line_text(LogLevel::Error, message@, colours),
{
    log_message(LogLevel::Error, message, colours)
}

/// The line of a debug message, only when debug logs are enabled.
pub fn debug(message: &str, colours: bool, enabled: bool) -> (r: Option<String>)
    ensures
        enabled ==> (r matches Some(s) && s@ == log_line_text(LogLevel::Debug, message@, colours)),
        !enabled ==> r is None,
{
    if enabled {
        Some(log_message(LogLevel::Debug, message, colours))
    } else {
        None
    }
}

} // verus!
