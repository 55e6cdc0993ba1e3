//! Error types of the library.
//!
//! [`TwygError`] covers the failures a caller can see while building a
//! logger: a time format the timestamp formatter rejects, a failure to
//! install the logger, a log file that cannot be opened, and plain
//! configuration errors. Failure *sources* are carried as their message
//! text, so the whole error is plain data.

use vstd::prelude::*;

verus! {

/// Error type for logger construction and installation.
#[derive(Debug, Clone, PartialEq)]
pub enum TwygError {
    /// Invalid time format string provided.
    InvalidTimeFormat { format: String, source: String },
    /// Failed to initialize the logger.
    InitError(String),
    /// Failed to open or write to log file.
    FileError(String),
    /// Configuration error.
    ConfigError(String),
}

/// The message text of an error, variant by variant.
pub open spec fn spec_error_message(e: TwygError) -> Seq<char> {
    match e {
        TwygError::InvalidTimeFormat { format, source } => "invalid time format '"@ + format@
            + "': "@ + source@,
        TwygError::InitError(s) => "failed to initialize logger: "@ + s@,
        TwygError::FileError(s) => "failed to open log file: "@ + s@,
        TwygError::ConfigError(s) => "configuration error: "@ + s@,
    }
}

impl TwygError {
    /// Render this error as its message text.
    pub fn message(&self) -> (r: String)
        ensures
            r@ == spec_error_message(*self),
    {
        match self {
            TwygError::InvalidTimeFormat { format, source } => {
                let mut s = "invalid time format '".to_owned();
                s.append(format.as_str());
                s.append("': ");
                s.append(source.as_str());
                s
            },
            TwygError::InitError(m) => {
                let mut s = "failed to initialize logger: ".to_owned();
                s.append(m.as_str());
                s
            },
            TwygError::FileError(m) => {
                let mut s = "failed to open log file: ".to_owned();
                s.append(m.as_str());
                s
            },
            TwygError::ConfigError(m) => {
                let mut s = "configuration error: ".to_owned();
                s.append(m.as_str());
                s
            },
        }
    }
}

} // verus!
