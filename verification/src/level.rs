//! Severity levels, the severity order, and the threshold filter.
//!
//! A [`Level`] is the severity of one event; a [`LevelFilter`] is the
//! configured threshold: an event is processed exactly when its level is at
//! least as severe as the threshold (and the threshold is not `Off`).

use vstd::prelude::*;

use crate::text::ascii_eq_lower;
use crate::text::eq_ignore_ascii_lower;

verus! {

/// Severity of a single log event, from least to most severe.
#[derive(Clone, Copy, Debug, PartialEq, Eq, Structural)]
pub enum Level {
    Trace,
    Debug,
    Info,
    Warn,
    Error,
}

/// Threshold for the severity filter: `Off` rejects every event, any other
/// variant accepts the events whose level is at least as severe.
#[derive(Clone, Copy, Debug, PartialEq, Eq, Structural)]
pub enum LevelFilter {
    Off,
    Error,
    Warn,
    Info,
    Debug,
    Trace,
}

/// Rank of a level in the severity order: `Trace` is lowest, `Error` highest.
pub open spec fn severity(l: Level) -> int {
    match l {
        Level::Trace => 0,
        Level::Debug => 1,
        Level::Info => 2,
        Level::Warn => 3,
        Level::Error => 4,
    }
}

/// The least severity a filter lets through; `None` for `Off`, which lets
/// nothing through.
pub open spec fn filter_floor(f: LevelFilter) -> Option<int> {
    match f {
        LevelFilter::Off => None,
        LevelFilter::Error => Some(4int),
        LevelFilter::Warn => Some(3int),
        LevelFilter::Info => Some(2int),
        LevelFilter::Debug => Some(1int),
        LevelFilter::Trace => Some(0int),
    }
}

/// What the severity filter decides: true iff the filter is not `Off` and the
/// level is at least as severe as the filter's floor.
pub open spec fn spec_enabled(threshold: LevelFilter, level: Level) -> bool {
    match filter_floor(threshold) {
        None => false,
        Some(floor) => severity(level) >= floor,
    }
}

/// The severity filter: decides whether an event at `level` passes the
/// configured `threshold`. Constant time, no allocation.
pub fn enabled(threshold: LevelFilter, level: Level) -> (r: bool)
    ensures
        r == spec_enabled(threshold, level),
{
    let floor: u8 = match threshold {
        LevelFilter::Off => return false,
        LevelFilter::Error => 4,
        LevelFilter::Warn => 3,
        LevelFilter::Info => 2,
        LevelFilter::Debug => 1,
        LevelFilter::Trace => 0,
    };
    let sev: u8 = match level {
        Level::Trace => 0,
        Level::Debug => 1,
        Level::Info => 2,
        Level::Warn => 3,
        Level::Error => 4,
    };
    sev >= floor
}

/// A level strictly below the threshold's floor is never enabled, whatever
/// the threshold.
pub proof fn lemma_enabled_below_threshold(threshold: LevelFilter, level: Level)
    requires
        filter_floor(threshold) is Some ==> severity(level) < filter_floor(threshold)->0,
    ensures
        !spec_enabled(threshold, level),
{
}

/// The canonical text of a level, as it appears in a rendered line.
pub open spec fn level_text(l: Level) -> Seq<char> {
    match l {
        Level::Trace => "TRACE"@,
        Level::Debug => "DEBUG"@,
        Level::Info => "INFO"@,
        Level::Warn => "WARN"@,
        Level::Error => "ERROR"@,
    }
}

impl Level {
    /// The canonical uppercase text of this level.
    pub fn as_str(&self) -> (r: &'static str)
        ensures
            r@ == level_text(*self),
    {
        match self {
            Level::Trace => "TRACE",
            Level::Debug => "DEBUG",
            Level::Info => "INFO",
            Level::Warn => "WARN",
            Level::Error => "ERROR",
        }
    }
}

/// Which threshold a level name denotes: the six filter names, compared
/// without regard to ASCII case; any other name denotes nothing.
pub open spec fn spec_parse_filter(s: Seq<char>) -> Option<LevelFilter> {
    if ascii_eq_lower(s, "off"@) {
        Some(LevelFilter::Off)
    } else if ascii_eq_lower(s, "error"@) {
        Some(LevelFilter::Error)
    } else if ascii_eq_lower(s, "warn"@) {
        Some(LevelFilter::Warn)
    } else if ascii_eq_lower(s, "info"@) {
        Some(LevelFilter::Info)
    } else if ascii_eq_lower(s, "debug"@) {
        Some(LevelFilter::Debug)
    } else if ascii_eq_lower(s, "trace"@) {
        Some(LevelFilter::Trace)
    } else {
        None
    }
}

/// Parse a threshold name, case-insensitively.
pub fn parse_filter(s: &str) -> (r: Option<LevelFilter>)
    ensures
        r == spec_parse_filter(s@),
{
    if eq_ignore_ascii_lower(s, "off") {
        Some(LevelFilter::Off)
    } else if eq_ignore_ascii_lower(s, "error") {
        Some(LevelFilter::Error)
    } else if eq_ignore_ascii_lower(s, "warn") {
        Some(LevelFilter::Warn)
    } else if eq_ignore_ascii_lower(s, "info") {
        Some(LevelFilter::Info)
    } else if eq_ignore_ascii_lower(s, "debug") {
        Some(LevelFilter::Debug)
    } else if eq_ignore_ascii_lower(s, "trace") {
        Some(LevelFilter::Trace)
    } else {
        None
    }
}

/// The name of the `trace` level, as configuration text.
pub fn trace() -> (r: Option<String>)
    ensures
        match r {
            Some(s) => s@ == "trace"@,
            None => false,
        },
{
    Some("trace".to_owned())
}

/// The name of the `debug` level, as configuration text.
pub fn debug() -> (r: Option<String>)
    ensures
        match r {
            Some(s) => s@ == "debug"@,
            None => false,
        },
{
    Some("debug".to_owned())
}

/// The name of the `info` level, as configuration text.
pub fn info() -> (r: Option<String>)
    ensures
        match r {
            Some(s) => s@ == "info"@,
            None => false,
        },
{
    Some("info".to_owned())
}

/// The name of the `warn` level, as configuration text.
pub fn warn() -> (r: Option<String>)
    ensures
        match r {
            Some(s) => s@ == "warn"@,
            None => false,
        },
{
    Some("warn".to_owned())
}

/// The name of the `error` level, as configuration text.
pub fn error() -> (r: Option<String>)
    ensures
        match r {
            Some(s) => s@ == "error"@,
            None => false,
        },
{
    Some("error".to_owned())
}

/// The name of the `fatal` level, as configuration text. No threshold is
/// named `fatal`: handing this to the threshold parser is rejected.
pub fn fatal() -> (r: Option<String>)
    ensures
        match r {
            Some(s) => s@ == "fatal"@,
            None => false,
        },
{
    Some("fatal".to_owned())
}

} // verus!
