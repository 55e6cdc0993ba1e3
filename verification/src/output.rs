//! Output destination types and conversions.
//!
//! [`Output`] is the type-safe selector for where log lines go: standard
//! output, standard error, or a file at a given path.

use vstd::prelude::*;

use crate::text::ascii_eq_lower;
use crate::text::eq_ignore_ascii_lower;
use crate::text::has_prefix;
use crate::text::starts_with_prefix;
use std::str::FromStr;

verus! {

pub const STDOUT: &'static str = "stdout";

pub const STDERR: &'static str = "stderr";

/// Output destination for log messages: standard output, standard error, or
/// a file at the given path.
#[derive(Debug, Clone, PartialEq, Eq)]
pub enum Output {
    /// Write to standard output (stdout).
    Stdout,
    /// Write to standard error (stderr).
    Stderr,
    /// Write to a file at the specified path.
    File(String),
}

impl Output {
    /// Creates a new file output destination.
    pub fn file(path: &str) -> (r: Self)
        ensures
            r is File && r->File_0@ == path@,
    {
        Output::File(path.to_owned())
    }

    /// Returns the string representation of the destination's kind.
    pub fn as_str(&self) -> (r: &str)
        ensures
            match self {
                Output::Stdout => r@ == "stdout"@,
                Output::Stderr => r@ == "stderr"@,
                Output::File(_) => r@ == "file"@,
            },
    {
        match self {
            Output::Stdout => "stdout",
            Output::Stderr => "stderr",
            Output::File(_) => "file",
        }
    }

    /// Returns true if this output is to a file.
    pub fn is_file(&self) -> (r: bool)
        ensures
            r == (self is File),
    {
        match self {
            Output::File(_) => true,
            _ => false,
        }
    }

    /// Returns the file path if this is a file output.
    pub fn file_path(&self) -> (r: Option<&str>)
        ensures
            match r {
                Some(p) => self is File && p@ == self->File_0@,
                None => !(self is File),
            },
    {
        match self {
            Output::File(path) => Some(path.as_str()),
            _ => None,
        }
    }

    /// The destination rendered as one word, `file:` plus the path for files.
    pub fn display_string(&self) -> (r: String)
        ensures
            match self {
                Output::Stdout => r@ == "stdout"@,
                Output::Stderr => r@ == "stderr"@,
                Output::File(p) => r@ == "file:"@ + p@,
            },
    {
        match self {
            Output::Stdout => "stdout".to_owned(),
            Output::Stderr => "stderr".to_owned(),
            Output::File(path) => {
                let mut s = "file:".to_owned();
                s.append(path.as_str());
                s
            },
        }
    }

    /// Whether the destination is standard error, the stream with its own
    /// lock and color support.
    pub fn is_stderr(&self) -> (r: bool)
        ensures
            r == (self is Stderr),
    {
        match self {
            Output::Stderr => true,
            _ => false,
        }
    }
}

impl Default for Output {
    /// Returns the default output: standard output.
    fn default() -> (r: Self)
        ensures
            r is Stdout,
    {
        Output::Stdout
    }
}

/// What parsing an output name gives: the two stream names are matched
/// without regard to ASCII case; a `file:` prefix (case-sensitive) names a
/// file at the rest of the text; anything else is taken as a file path
/// whole. Parsing never fails.
pub open spec fn parse_output_ok(s: Seq<char>, r: Output) -> bool {
    if ascii_eq_lower(s, "stdout"@) {
        r is Stdout
    } else if ascii_eq_lower(s, "stderr"@) {
        r is Stderr
    } else if has_prefix(s, "file:"@) {
        r is File && r->File_0@ == s.subrange("file:"@.len() as int, s.len() as int)
    } else {
        r is File && r->File_0@ == s
    }
}

/// Parse an output destination name.
pub fn parse_output(s: &str) -> (r: Output)
    ensures
        parse_output_ok(s@, r),
{
    if eq_ignore_ascii_lower(s, "stdout") {
        Output::Stdout
    } else if eq_ignore_ascii_lower(s, "stderr") {
        Output::Stderr
    } else if starts_with_prefix(s, "file:") {
        let n = s.unicode_len();
        let prefix_len = "file:".unicode_len();
        let path = s.substring_char(prefix_len, n);
        Output::File(path.to_owned())
    } else {
        Output::File(s.to_owned())
    }
}

impl FromStr for Output {
    type Err = ParseOutputError;

    /// Parse an output destination name; never fails.
    fn from_str(s: &str) -> (r: Result<Self, Self::Err>) {
        Ok(parse_output(s))
    }
}

/// Error returned when parsing an output destination fails. The parser
/// accepts every name (an unknown one is taken as a file path), so this is
/// kept only as the `FromStr` error type.
#[derive(Debug, Clone, PartialEq, Eq)]
pub struct ParseOutputError {
    invalid_input: String,
}

impl ParseOutputError {
    /// The input text the parser refused.
    pub closed spec fn spec_invalid_input(&self) -> Seq<char> {
        self.invalid_input@
    }

    /// Render this error as its message text.
    pub fn message(&self) -> (r: String)
        ensures
            r@ == "invalid output destination '"@ + self.spec_invalid_input()
                + "', expected: stdout, stderr, or a file path"@,
    {
        let mut s = "invalid output destination '".to_owned();
        s.append(self.invalid_input.as_str());
        s.append("', expected: stdout, stderr, or a file path");
        s
    }
}

/// The standard output destination, as configuration text.
pub fn stdout() -> (r: Option<String>)
    ensures
        match r {
            Some(s) => s@ == "stdout"@,
            None => false,
        },
{
    Some(STDOUT.to_owned())
}

/// The standard error destination, as configuration text.
pub fn stderr() -> (r: Option<String>)
    ensures
        match r {
            Some(s) => s@ == "stderr"@,
            None => false,
        },
{
    Some(STDERR.to_owned())
}

} // verus!
