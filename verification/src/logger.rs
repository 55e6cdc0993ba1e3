//! The logger façade: configuration resolution, the severity filter, and the
//! render pipeline for one event.
//!
//! A [`Logger`] is built once from fully resolved [`Opts`] and never
//! re-validates them: the functions that need a valid severity threshold
//! require one, and [`crate::setup`] is the constructor that checks it.

use vstd::prelude::*;

use crate::color::set_color_override;
use crate::color::stderr_stream;
use crate::color::stdout_stream;
use crate::error::TwygError;
use crate::level::Level;
use crate::level::LevelFilter;
use crate::level::enabled;
use crate::level::parse_filter;
use crate::level::spec_enabled;
use crate::level::spec_parse_filter;
use crate::opts::Opts;
use crate::render::Event;
use crate::render::line_ok;
use crate::render::line_text;
use crate::render::render_line;
use crate::timestamp::chrono_pattern_ok;
use crate::timestamp::format_now;
use owo_colors::Stream;

verus! {

/// The configured level name, or the default `error`.
pub open spec fn effective_level_name(o: Opts) -> Seq<char> {
    match o.level {
        Some(s) => s@,
        None => "error"@,
    }
}

/// The severity threshold the configuration denotes, when its level name is
/// one of the six filter names.
pub open spec fn effective_filter(o: Opts) -> Option<LevelFilter> {
    spec_parse_filter(effective_level_name(o))
}

/// The configured timestamp pattern, or the default.
pub open spec fn effective_pattern(o: Opts) -> Seq<char> {
    match o.time_format {
        Some(s) => s@,
        None => "%Y-%m-%d %H:%M:%S"@,
    }
}

/// The logger façade: wires the severity filter, the field renderers and the
/// line assembler into one render pipeline per event.
pub struct Logger {
    opts: Opts,
}

impl Logger {
    /// The configuration this logger was built from.
    pub closed spec fn spec_opts(&self) -> Opts {
        self.opts
    }

    /// Build a logger from resolved options. Styling is forced on or off
    /// process-wide according to the `coloured` flag.
    pub fn new(opts: Opts) -> (r: Logger)
        ensures
            r.spec_opts() == opts,
    {
        set_color_override(opts.coloured);
        Logger { opts }
    }

    /// The configured level name, or the default `error`.
    pub fn level(&self) -> (r: String)
        ensures
            r@ == effective_level_name(self.spec_opts()),
    {
        match &self.opts.level {
            Some(l) => l.clone(),
            None => crate::opts::default_level().unwrap(),
        }
    }

    /// The configured timestamp pattern, or the default.
    pub fn time_format(&self) -> (r: String)
        ensures
            r@ == effective_pattern(self.spec_opts()),
    {
        match &self.opts.time_format {
            Some(t) => t.clone(),
            None => crate::opts::default_ts_format().unwrap(),
        }
    }

    /// Whether this logger reports the caller.
    pub fn report_caller(&self) -> (r: bool)
        ensures
            r == self.spec_opts().report_caller,
    {
        self.opts.report_caller
    }

    /// The configured output destination name, when one is set.
    pub fn file(&self) -> (r: Option<&String>)
        ensures
            match r {
                Some(f) => self.spec_opts().file == Some(*f),
                None => self.spec_opts().file is None,
            },
    {
        self.opts.file.as_ref()
    }

    /// The severity threshold this logger's level name denotes, or a
    /// configuration error naming the level that was refused.
    pub fn level_to_filter(&self) -> (r: Result<LevelFilter, TwygError>)
        ensures
            match r {
                Ok(f) => effective_filter(self.spec_opts()) == Some(f),
                Err(e) => effective_filter(self.spec_opts()) is None && e
                    is ConfigError && e->ConfigError_0@ == "unrecognized log level '"@
                    + effective_level_name(self.spec_opts()) + "'"@,
            },
    {
        let name = self.level();
        match parse_filter(name.as_str()) {
            Some(f) => Ok(f),
            None => {
                let mut m = "unrecognized log level '".to_owned();
                m.append(name.as_str());
                m.append("'");
                proof {
                    assert(m@ =~= "unrecognized log level '"@ + effective_level_name(
                        self.spec_opts(),
                    ) + "'"@);
                }
                Err(TwygError::ConfigError(m))
            },
        }
    }

    /// The severity filter: whether an event at `level` is processed at all.
    /// Rejected events cost no allocation and no lock.
    pub fn enabled(&self, level: Level) -> (r: bool)
        requires
            effective_filter(self.spec_opts()) is Some,
        ensures
            r == spec_enabled(effective_filter(self.spec_opts())->0, level),
    {
        let name = self.level();
        match parse_filter(name.as_str()) {
            Some(f) => enabled(f, level),
            None => false,
        }
    }

    /// The stream lines are styled for: standard error exactly when the
    /// configured destination is `stderr`, else standard output (a file
    /// counts as standard output).
    fn stream(&self) -> Stream {
        let is_stderr = match &self.opts.file {
            None => false,
            Some(s) => {
                let stderr_name = "stderr".to_owned();
                *s == stderr_name
            },
        };
        if is_stderr {
            stderr_stream()
        } else {
            stdout_stream()
        }
    }

    /// Format "now" with the configured timestamp pattern; `None` exactly
    /// when the pattern is one the timestamp formatter rejects.
    pub fn format_ts(&self) -> (r: Option<String>)
        ensures
            r is Some <==> chrono_pattern_ok(effective_pattern(self.spec_opts())),
    {
        let pattern = self.time_format();
        format_now(pattern.as_str())
    }

    /// Render one event against an already formatted timestamp: `None`
    /// exactly when the severity filter rejects the event, else the assembled
    /// line ([`line_ok`]; with styling off, exactly [`line_text`]).
    pub fn render(&self, ts: &str, event: &Event) -> (r: Option<String>)
        requires
            effective_filter(self.spec_opts()) is Some,
        ensures
            match r {
                None => !spec_enabled(effective_filter(self.spec_opts())->0, event.level),
                Some(line) => spec_enabled(effective_filter(self.spec_opts())->0, event.level)
                    && line_ok(self.spec_opts(), ts@, *event, line@) && (!self.spec_opts().coloured
                    ==> line@ == line_text(self.spec_opts(), ts@, *event)),
            },
    {
        if !self.enabled(event.level) {
            return None;
        }
        let stream = self.stream();
        Some(render_line(&self.opts, ts, event, stream))
    }

    /// Render one event with a freshly formatted "now" timestamp: `None`
    /// exactly when the severity filter rejects the event. When the
    /// configured pattern is one the timestamp formatter rejects, the line
    /// carries an empty timestamp instead of failing.
    pub fn render_now(&self, event: &Event) -> (r: Option<String>)
        requires
            effective_filter(self.spec_opts()) is Some,
        ensures
            match r {
                None => !spec_enabled(effective_filter(self.spec_opts())->0, event.level),
                Some(line) => spec_enabled(effective_filter(self.spec_opts())->0, event.level)
                    && exists|tsv: Seq<char>|
                    #[trigger] line_ok(self.spec_opts(), tsv, *event, line@) && (
                    !self.spec_opts().coloured ==> line@ == line_text(
                        self.spec_opts(),
                        tsv,
                        *event,
                    )) && (chrono_pattern_ok(effective_pattern(self.spec_opts())) || tsv
                        == Seq::<char>::empty()),
            },
    {
        if !self.enabled(event.level) {
            return None;
        }
        let ts: String = match self.format_ts() {
            Some(t) => t,
            None => String::new(),
        };
        let r = self.render(ts.as_str(), event);
        proof {
            assert(r is Some);
        }
        r
    }
}

} // verus!
