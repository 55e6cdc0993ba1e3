//! Logger configuration.
//!
//! [`Opts`] is the fully resolved configuration the logger is built from:
//! the severity threshold, the output destination, the caller-reporting
//! flag, the timestamp format, level padding, the separator and marker
//! strings, and the color palette. Every optional field has a documented
//! default, applied where the field is read.

use vstd::prelude::*;

use crate::color::Colors;

verus! {

pub const STDOUT: &'static str = "stdout";

pub const STDERR: &'static str = "stderr";

/// Logger configuration. Optional fields fall back to their defaults:
/// destination `stdout`, level `error`, timestamp format
/// `%Y-%m-%d %H:%M:%S`, separator `": "`, marker `"\u{25b6}"`, and the
/// customary color palette.
#[derive(Clone, Debug)]
pub struct Opts {
    /// Setting to false will disable colors in the logging output.
    pub coloured: bool,
    /// Output destination name: `stdout`, `stderr`, or a file path.
    pub file: Option<String>,
    /// Case-insensitive logging level name.
    pub level: Option<String>,
    /// Setting to true will output the file name and line number where the
    /// logging call was made.
    pub report_caller: bool,
    /// Timestamp format pattern.
    pub time_format: Option<String>,
    /// Whether the level text is padded to a fixed width.
    pub pad_level: bool,
    /// The width the level text is padded to, when padding is enabled.
    pub pad_width: u32,
    /// Whether padding spaces go on the left (true) or the right (false).
    pub pad_left: bool,
    /// The separator put before a non-empty attribute tail.
    pub separator: Option<String>,
    /// The marker put between the target and the message.
    pub marker: Option<String>,
    /// The color palette; absent means the customary palette.
    pub colors: Option<Colors>,
}

impl Default for Opts {
    /// Everything off, every optional field unset, padding width 5.
    fn default() -> (r: Self)
        ensures
            r.coloured == false,
            r.file is None,
            r.level is None,
            r.report_caller == false,
            r.time_format is None,
            r.pad_level == false,
            r.pad_width == 5,
            r.pad_left == false,
            r.separator is None,
            r.marker is None,
            r.colors is None,
    {
        Opts {
            coloured: false,
            file: None,
            level: None,
            report_caller: false,
            time_format: None,
            pad_level: false,
            pad_width: 5,
            pad_left: false,
            separator: None,
            marker: None,
            colors: None,
        }
    }
}

impl Opts {
    /// Fresh options with the default destination, level and timestamp
    /// format filled in.
    pub fn new() -> (r: Opts)
        ensures
            r.coloured == false,
            r.report_caller == false,
            match r.file {
                Some(s) => s@ == "stdout"@,
                None => false,
            },
            match r.level {
                Some(s) => s@ == "error"@,
                None => false,
            },
            match r.time_format {
                Some(s) => s@ == "%Y-%m-%d %H:%M:%S"@,
                None => false,
            },
            r.pad_level == false,
            r.pad_width == 5,
            r.pad_left == false,
            r.separator is None,
            r.marker is None,
            r.colors is None,
    {
        let mut opts = Opts::default();
        if opts.file.is_none() {
            opts.file = default_file();
        }
        if opts.level.is_none() {
            opts.level = default_level();
        }
        if opts.time_format.is_none() {
            opts.time_format = default_ts_format();
        }
        opts
    }
}

/// The default output destination name.
pub fn default_file() -> (r: Option<String>)
    ensures
        match r {
            Some(s) => s@ == "stdout"@,
            None => false,
        },
{
    Some(STDOUT.to_owned())
}

/// The default logging level name.
pub fn default_level() -> (r: Option<String>)
    ensures
        match r {
            Some(s) => s@ == "error"@,
            None => false,
        },
{
    Some("error".to_owned())
}

/// The default timestamp format pattern.
pub fn default_ts_format() -> (r: Option<String>)
    ensures
        match r {
            Some(s) => s@ == "%Y-%m-%d %H:%M:%S"@,
            None => false,
        },
{
    Some("%Y-%m-%d %H:%M:%S".to_owned())
}

} // verus!
