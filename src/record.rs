//! The fields of one log event, and the message text that is rendered for
//! it.

use vstd::prelude::*;
use vstd::string::*;
use crate::level::Severity;
use crate::text::{append_decimal, decimal, signed_decimal};

verus! {

/// One log event, as the logging front end hands it over.
pub struct LogRecord {
    pub level: Severity,
    /// The category of the event; may be empty.
    pub target: String,
    /// The module that emitted the event, used when the target is empty.
    pub module: Option<String>,
    /// The source file of the call, when known.
    pub file: Option<String>,
    /// The source line of the call, when known.
    pub line: Option<u32>,
    /// The formatted message.
    pub message: String,
}

/// The category shown for an event: its target, or its module path when the
/// target is empty (or nothing when that is absent too).
pub open spec fn target_of(r: LogRecord) -> Seq<char> {
    if r.target@.len() > 0 {
        r.target@
    } else {
        match r.module {
            Some(m) => m@,
            None => Seq::empty(),
        }
    }
}

/// The file shown for an event: its file name, or `<unknown>`.
pub open spec fn file_of(r: LogRecord) -> Seq<char> {
    match r.file {
        Some(f) => f@,
        None => "<unknown>"@,
    }
}

/// The line shown for an event: its line number, or -1.
pub open spec fn line_of(r: LogRecord) -> int {
    match r.line {
        Some(n) => n as int,
        None => -1,
    }
}

/// The text of the line number shown for an event.
pub open spec fn line_text_of(r: LogRecord) -> Seq<char> {
    signed_decimal(line_of(r))
}

/// The message rendered for an event. An error carries a one-frame pseudo
/// stack trace, `<message> -> <file>:<line>`; other events carry the message
/// alone.
pub open spec fn traced_message(r: LogRecord) -> Seq<char> {
    if r.level == Severity::Error {
        r.message@ + " -> "@ + file_of(r) + ":"@ + line_text_of(r)
    } else {
        r.message@
    }
}

impl LogRecord {
    /// The category shown for the event: its target, or its module path when
    /// the target is empty.
    pub fn target_or_module(&self) -> (r: &str)
        ensures
            r@ == target_of(*self),
    {
        if self.target.as_str().unicode_len() > 0 {
            self.target.as_str()
        } else {
            match &self.module {
                Some(m) => m.as_str(),
                None => {
                    proof {
                        reveal_strlit("");
                    }
                    ""
                },
            }
        }
    }

    /// The file shown for the event: its file name, or `<unknown>`.
    pub fn file_or_unknown(&self) -> (r: &str)
        ensures
            r@ == file_of(*self),
    {
        match &self.file {
            Some(f) => f.as_str(),
            None => "<unknown>",
        }
    }

    /// The text of the line number shown for the event, `-1` when unknown.
    pub fn line_text(&self) -> (r: String)
        ensures
            r@ == line_text_of(*self),
    {
        match self.line {
            Some(n) => {
                let mut s = String::new();
                append_decimal(&mut s, n);
                assert(s@ =~= decimal(n as nat));
                s
            },
            None => {
                proof {
                    reveal_strlit("-1");
                    reveal_strlit("1");
                }
                let s = String::from_str("-1");
                assert(decimal(1) =~= seq!['1']);
                assert(s@ =~= signed_decimal(-1));
                s
            },
        }
    }
}

/// The message rendered for an event: for an error, the message followed by
/// ` -> <file>:<line>` (with `<unknown>` and `-1` standing for what the
/// event does not know); for any other severity, the message unchanged.
pub fn error_trace_message(record: &LogRecord) -> (r: String)
    ensures
        r@ == traced_message(*record),
{
    let mut s = record.message.clone();
    assert(s@ == record.message@);
    if record.level == Severity::Error {
        s.append(" -> ");
        s.append(record.file_or_unknown());
        s.append(":");
        let line = record.line_text();
        s.append(line.as_str());
    }
    s
}

} // verus!
