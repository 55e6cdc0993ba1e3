//! The tiered fallback controller around the write path.
//!
//! A rendered line is first written to the configured output (the primary
//! tier). If that write fails, a compact unformatted line — the error, the
//! event's level and its raw message — goes to standard error (the secondary
//! tier). If that write fails too, the process cannot continue without
//! working diagnostics: the controller hands back an abort message carrying
//! both errors and the original event.
//!
//! The controller itself only decides; the writes happen outside. A write
//! result is reported back as `Result<(), String>`, the error as its message
//! text.

use vstd::prelude::*;

use crate::level::Level;
use crate::level::level_text;
use crate::render::Event;

verus! {

/// What to do after the primary write.
pub enum FallbackAction {
    /// The primary write succeeded; the event is delivered.
    Done,
    /// The primary write failed; write this line to standard error.
    WriteFallback(String),
}

/// What to do after the fallback write.
pub enum Escalation {
    /// The fallback write succeeded; the event is delivered on the fallback
    /// path and the caller of `log` sees no error.
    Recovered,
    /// Both writes failed; abort the process with this message.
    Abort(String),
}

/// The compact fallback line: the "logging error" marker, the write error,
/// then the event's level and raw message.
pub open spec fn fallback_line_text(l: Level, msg: Seq<char>, err: Seq<char>) -> Seq<char> {
    "logging error: "@ + err + " ["@ + level_text(l) + "] "@ + msg
}

/// The abort message after a double failure: both errors and the original
/// event, for postmortem inspection.
pub open spec fn abort_text(primary: Seq<char>, fallback: Seq<char>, e: Event) -> Seq<char> {
    "logging failed on both outputs: primary error: "@ + primary + "; fallback error: "@ + fallback
        + "; event: ["@ + level_text(e.level) + "] "@ + e.target@ + ": "@ + e.message@
}

/// Render the compact fallback line for a failed primary write.
pub fn fallback_line(level: Level, message: &str, error_text: &str) -> (r: String)
    ensures
        r@ == fallback_line_text(level, message@, error_text@),
{
    let mut s = "logging error: ".to_owned();
    s.append(error_text);
    s.append(" [");
    s.append(level.as_str());
    s.append("] ");
    s.append(message);
    proof {
        assert(s@ =~= fallback_line_text(level, message@, error_text@));
    }
    s
}

/// The first tier's decision: a successful primary write delivers the event;
/// a failed one asks for the compact fallback line on standard error.
pub fn on_primary_result(result: Result<(), String>, level: Level, message: &str) -> (a:
    FallbackAction)
    ensures
        match a {
            FallbackAction::Done => result is Ok,
            FallbackAction::WriteFallback(line) => result is Err && line@ == fallback_line_text(
                level,
                message@,
                result->Err_0@,
            ),
        },
{
    match result {
        Ok(()) => FallbackAction::Done,
        Err(e) => FallbackAction::WriteFallback(fallback_line(level, message, e.as_str())),
    }
}

/// The second tier's decision: a successful fallback write recovers; a
/// failed one escalates to an abort carrying both errors and the event.
pub fn on_fallback_result(result: Result<(), String>, primary_error: &str, event: &Event) -> (r:
    Escalation)
    ensures
        match r {
            Escalation::Recovered => result is Ok,
            Escalation::Abort(m) => result is Err && m@ == abort_text(
                primary_error@,
                result->Err_0@,
                *event,
            ),
        },
{
    match result {
        Ok(()) => Escalation::Recovered,
        Err(e) => {
            let mut s = "logging failed on both outputs: primary error: ".to_owned();
            s.append(primary_error);
            s.append("; fallback error: ");
            s.append(e.as_str());
            s.append("; event: [");
            s.append(event.level.as_str());
            s.append("] ");
            s.append(event.target.as_str());
            s.append(": ");
            s.append(event.message.as_str());
            proof {
                assert(s@ =~= abort_text(primary_error@, e@, *event));
            }
            Escalation::Abort(s)
        },
    }
}

} // verus!
