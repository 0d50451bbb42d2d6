//! Properties that hold across the library, stated over its specifications
//! and proved.

use vstd::prelude::*;
use crate::install::{install, InitError};
use crate::json::{
    event_entries, json_line, json_object, json_string, location_entries, service_entries,
    time_value,
};
use crate::level::Severity;
use crate::logger::LogeLogger;
use crate::record::{file_of, line_text_of, target_of, traced_message, LogRecord};
use crate::render::{fileline_pieces, plain_fileline_line, plain_target_line, target_pieces};
use crate::style::{join, lemma_join_push};
use crate::text::signed_decimal;

verus! {

/// An error's rendered message ends with ` -> <file>:<line>`, naming the
/// event's file and line (or `<unknown>` and -1); any other event's message
/// is its raw message, with nothing added.
pub proof fn lemma_error_trace_suffix(r: LogRecord)
    ensures
        r.level == Severity::Error ==> {
            let suffix = " -> "@ + file_of(r) + ":"@ + line_text_of(r);
            let m = traced_message(r);
            &&& m.len() == r.message@.len() + suffix.len()
            &&& m.subrange(0, r.message@.len() as int) == r.message@
            &&& m.subrange(m.len() - suffix.len(), m.len() as int) == suffix
        },
        r.level != Severity::Error ==> traced_message(r) == r.message@,
        line_text_of(r) == signed_decimal(if r.line is Some {
            r.line->Some_0 as int
        } else {
            -1
        }),
{
    if r.level == Severity::Error {
        let suffix = " -> "@ + file_of(r) + ":"@ + line_text_of(r);
        let m = traced_message(r);
        assert(m =~= r.message@ + suffix);
        assert(m.subrange(0, r.message@.len() as int) =~= r.message@);
        assert(m.subrange(m.len() - suffix.len(), m.len() as int) =~= suffix);
    }
}

proof fn lemma_join_ends_with_last(pieces: Seq<Seq<char>>)
    requires
        pieces.len() > 0,
    ensures
        join(pieces).len() >= pieces.last().len(),
        join(pieces).subrange(
            join(pieces).len() - pieces.last().len(),
            join(pieces).len() as int,
        ) == pieces.last(),
{
    let init = pieces.drop_last();
    lemma_join_push(init, pieces.last());
    assert(init.push(pieces.last()) =~= pieces);
    let j = join(pieces);
    assert(j.subrange(j.len() - pieces.last().len(), j.len() as int) =~= pieces.last());
}

/// A target line and a file-and-line line end with the message they show;
/// with the message of an error, they end with ` -> <file>:<line>`.
pub proof fn lemma_line_ends_with_message(time: Option<Seq<char>>, r: LogRecord)
    ensures
        ({
            let m = traced_message(r);
            let t = plain_target_line(time, r, m);
            let f = plain_fileline_line(time, r, m);
            &&& t.len() >= m.len()
            &&& t.subrange(t.len() - m.len(), t.len() as int) == m
            &&& f.len() >= m.len()
            &&& f.subrange(f.len() - m.len(), f.len() as int) == m
        }),
{
    let m = traced_message(r);
    let tp = target_pieces(time, r.level.spec_padded_label(), target_of(r), m);
    assert(tp.last() == m);
    lemma_join_ends_with_last(tp);
    let fp = fileline_pieces(
        time,
        r.level.spec_padded_label(),
        file_of(r),
        target_of(r),
        line_text_of(r),
        m,
    );
    assert(fp.last() == m);
    lemma_join_ends_with_last(fp);
}

/// A JSON line is one object with exactly the keys `level`, `location`,
/// `message`, `service` and `time`, in that order; `location` is an object
/// with exactly `file`, `line` and `target`, and `service` one with exactly
/// `name` and `version`. Every value is a JSON string, the line number, a
/// nested object or `null`, whether or not the event knows its file and
/// line.
pub proof fn lemma_json_shape(
    time: Option<Seq<char>>,
    r: LogRecord,
    message: Seq<char>,
    name: Seq<char>,
    version: Seq<char>,
)
    ensures
        json_line(time, r, message, name, version) == json_object(
            event_entries(time, r, message, name, version),
        ),
        event_entries(time, r, message, name, version).map_values(
            |e: (Seq<char>, Seq<char>)| e.0,
        ) == seq!["level"@, "location"@, "message"@, "service"@, "time"@],
        location_entries(r).map_values(|e: (Seq<char>, Seq<char>)| e.0) == seq![
            "file"@,
            "line"@,
            "target"@,
        ],
        service_entries(name, version).map_values(|e: (Seq<char>, Seq<char>)| e.0) == seq![
            "name"@,
            "version"@,
        ],
        event_entries(time, r, message, name, version).map_values(
            |e: (Seq<char>, Seq<char>)| e.1,
        ) == seq![
            json_string(r.level.spec_padded_label()),
            json_object(location_entries(r)),
            json_string(message),
            json_object(service_entries(name, version)),
            time_value(time),
        ],
        location_entries(r).map_values(|e: (Seq<char>, Seq<char>)| e.1) == seq![
            json_string(file_of(r)),
            line_text_of(r),
            json_string(target_of(r)),
        ],
        service_entries(name, version).map_values(|e: (Seq<char>, Seq<char>)| e.1) == seq![
            json_string(name),
            json_string(version),
        ],
        time_value(time) == match time {
            Some(t) => json_string(t),
            None => "null"@,
        },
{
    let ev = event_entries(time, r, message, name, version);
    assert(ev.map_values(|e: (Seq<char>, Seq<char>)| e.0) =~= seq![
        "level"@,
        "location"@,
        "message"@,
        "service"@,
        "time"@,
    ]);
    assert(ev.map_values(|e: (Seq<char>, Seq<char>)| e.1) =~= seq![
        json_string(r.level.spec_padded_label()),
        json_object(location_entries(r)),
        json_string(message),
        json_object(service_entries(name, version)),
        time_value(time),
    ]);
    let loc = location_entries(r);
    assert(loc.map_values(|e: (Seq<char>, Seq<char>)| e.0) =~= seq!["file"@, "line"@, "target"@]);
    assert(loc.map_values(|e: (Seq<char>, Seq<char>)| e.1) =~= seq![
        json_string(file_of(r)),
        line_text_of(r),
        json_string(target_of(r)),
    ]);
    let svc = service_entries(name, version);
    assert(svc.map_values(|e: (Seq<char>, Seq<char>)| e.0) =~= seq!["name"@, "version"@]);
    assert(svc.map_values(|e: (Seq<char>, Seq<char>)| e.1) =~= seq![
        json_string(name),
        json_string(version),
    ]);
}

/// Once a logger is installed into an empty slot, installing a second one
/// fails with `AlreadyInstalled`, and the first logger stays installed with
/// its configuration unchanged.
pub proof fn lemma_second_install_fails(first: LogeLogger, second: LogeLogger)
    ensures
        install(None, first) == (Some(first), Ok::<(), InitError>(())),
        install(Some(first), second) == (Some(first), Err::<(), InitError>(
            InitError::AlreadyInstalled,
        )),
{
}

/// A logger lets an event through exactly when the event is at least as
/// severe as its threshold, in the order Trace < Debug < Info < Warn <
/// Error.
pub proof fn lemma_threshold_order(threshold: Severity, level: Severity)
    ensures
        Severity::Trace.rank() < Severity::Debug.rank(),
        Severity::Debug.rank() < Severity::Info.rank(),
        Severity::Info.rank() < Severity::Warn.rank(),
        Severity::Warn.rank() < Severity::Error.rank(),
        threshold == Severity::Trace ==> level.rank() >= threshold.rank(),
        level == Severity::Error ==> level.rank() >= threshold.rank(),
        threshold == Severity::Error ==> (level.rank() >= threshold.rank() <==> level
            == Severity::Error),
{
}

} // verus!
