//! A structured-log formatting and emission core.
//!
//! Given a stream of log events — level, target, message, optional source
//! location, optional key-value attributes — and a declarative
//! configuration, this library decides whether each event passes the
//! severity filter, renders it into a single optionally colorized line
//! (timestamp, padded level, optional caller location, target, message,
//! attribute tail), and drives the tiered fallback that keeps a write
//! failure from silently dropping diagnostics.
//!
//! The library renders and decides; the surrounding binary owns the output
//! handles, performs the writes under a lock, and reports each write's
//! result back to the fallback controller.

use vstd::prelude::*;

pub mod color;
pub mod error;
pub mod fallback;
pub mod level;
pub mod logger;
pub mod opts;
pub mod out;
pub mod output;
pub mod render;
pub mod text;
pub mod timestamp;

pub use error::TwygError;
pub use logger::Logger;
pub use opts::Opts;
pub use opts::STDERR;
pub use opts::STDOUT;

use crate::level::parse_filter;
use crate::logger::effective_filter;
use crate::logger::effective_level_name;
use crate::logger::effective_pattern;
use crate::timestamp::chrono_pattern_ok;
use crate::timestamp::format_now;

verus! {

/// Build a [`Logger`] from the provided options, after validating them:
/// the level name must denote a severity threshold, and the timestamp
/// pattern must be one the timestamp formatter accepts. A logger is handed
/// back exactly when both hold; an invalid level comes back as a
/// configuration error, an invalid pattern as a time format error naming
/// the pattern.
///
/// Installing the logger as the process-wide log destination is the
/// surrounding binary's one registration call at startup; the library only
/// validates and constructs.
pub fn setup(opts: Opts) -> (r: Result<Logger, TwygError>)
    ensures
        match r {
            Ok(l) => l.spec_opts() == opts && effective_filter(opts) is Some && chrono_pattern_ok(
                effective_pattern(opts),
            ),
            Err(e) => {
                &&& !(effective_filter(opts) is Some && chrono_pattern_ok(effective_pattern(opts)))
                &&& effective_filter(opts) is None ==> e is ConfigError && e->ConfigError_0@
                    == "unrecognized log level '"@ + effective_level_name(opts) + "'"@
                &&& effective_filter(opts) is Some ==> e is InvalidTimeFormat
                    && e->InvalidTimeFormat_format@ == effective_pattern(opts)
            },
        },
{
    let level_name: String = match &opts.level {
        Some(s) => s.clone(),
        None => "error".to_owned(),
    };
    if parse_filter(level_name.as_str()).is_none() {
        let mut m = "unrecognized log level '".to_owned();
        m.append(level_name.as_str());
        m.append("'");
        proof {
            assert(m@ =~= "unrecognized log level '"@ + effective_level_name(opts) + "'"@);
        }
        return Err(TwygError::ConfigError(m));
    }
    let pattern: String = match &opts.time_format {
        Some(s) => s.clone(),
        None => "%Y-%m-%d %H:%M:%S".to_owned(),
    };
    match format_now(pattern.as_str()) {
        Some(_) => Ok(Logger::new(opts)),
        None => Err(
            TwygError::InvalidTimeFormat {
                format: pattern,
                source: "the timestamp formatter rejected the pattern".to_owned(),
            },
        ),
    }
}

} // verus!
