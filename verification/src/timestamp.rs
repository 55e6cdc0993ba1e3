//! Timestamp format configuration and the clock.
//!
//! [`TSFormat`] is a closed set of format presets plus a custom pattern
//! escape hatch; [`format_now`] renders the current local time with such a
//! pattern. Whether a pattern is acceptable depends on the pattern alone:
//! [`chrono_pattern_ok`] names that set of patterns, and the four presets
//! are in it.

use vstd::prelude::*;

use std::fmt::Write as FmtWrite;

verus! {

/// Timestamp format presets.
#[derive(Clone, Debug, PartialEq, Eq)]
pub enum TSFormat {
    /// RFC3339-style date, time and offset.
    RFC3339,
    /// Date and time, space separated.
    Standard,
    /// Compact date and time.
    Simple,
    /// Time only: loses the date by design.
    TimeOnly,
    /// Custom format pattern.
    Custom(String),
}

/// The format pattern a preset stands for.
pub open spec fn spec_format_string(t: TSFormat) -> Seq<char> {
    match t {
        TSFormat::RFC3339 => "%Y-%m-%dT%H:%M:%S%z"@,
        TSFormat::Standard => "%Y-%m-%d %H:%M:%S"@,
        TSFormat::Simple => "%Y%m%d.%H%M%S"@,
        TSFormat::TimeOnly => "%H:%M:%S"@,
        TSFormat::Custom(s) => s@,
    }
}

impl Default for TSFormat {
    /// The default preset: date and time, space separated.
    fn default() -> (r: Self)
        ensures
            r == TSFormat::Standard,
    {
        TSFormat::Standard
    }
}

impl TSFormat {
    /// Convert to the timestamp formatter's pattern string.
    pub fn to_format_string(&self) -> (r: &str)
        ensures
            r@ == spec_format_string(*self),
    {
        match self {
            TSFormat::RFC3339 => "%Y-%m-%dT%H:%M:%S%z",
            TSFormat::Standard => "%Y-%m-%d %H:%M:%S",
            TSFormat::Simple => "%Y%m%d.%H%M%S",
            TSFormat::TimeOnly => "%H:%M:%S",
            TSFormat::Custom(s) => s.as_str(),
        }
    }
}

/// The patterns the timestamp formatter accepts for a full local date-time:
/// formatting the current local time with such a pattern succeeds, with any
/// other pattern it fails, whatever the current time is.
pub uninterp spec fn chrono_pattern_ok(pattern: Seq<char>) -> bool;

/// Relies on `chrono`: `Local::now()` formatted with `pattern`, written
/// through the fallible formatting machinery so that a rejected pattern comes
/// back as `None` instead of a panic. A pattern of documented format
/// specifiers — in particular each of the four presets — is accepted.
#[verifier::external_body]
pub(crate) fn format_now(pattern: &str) -> (r: Option<String>)
    ensures
        r is Some <==> chrono_pattern_ok(pattern@),
        pattern@ == "%Y-%m-%dT%H:%M:%S%z"@ ==> r is Some,
        pattern@ == "%Y-%m-%d %H:%M:%S"@ ==> r is Some,
        pattern@ == "%Y%m%d.%H%M%S"@ ==> r is Some,
        pattern@ == "%H:%M:%S"@ ==> r is Some,
{
    let mut s = String::new();
    match write!(s, "{}", chrono::Local::now().format(pattern)) {
        Ok(()) => Some(s),
        Err(_) => None,
    }
}

} // verus!
