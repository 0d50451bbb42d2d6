//! The logger: its configuration, and what it does with each event.

use vstd::prelude::*;
use crate::env::{service_name_of, service_version_of, Environment};
use crate::format::LogeFormat;
use crate::json::{json_line, render_json, render_json_colored};
use crate::level::Severity;
use crate::record::{error_trace_message, traced_message, LogRecord};
use crate::render::{
    clean_fields, opt_view, plain_fileline_line, plain_target_line, render_fileline,
    render_fileline_colored, render_target, render_target_colored,
};
use crate::style::{no_escape, strip_ansi};

verus! {

/// A logger's configuration: the least severity it lets through, the layout
/// of its lines, the file it also appends to (if any), and whether the
/// terminal gets colored lines.
#[derive(Clone, Debug)]
pub struct LogeLogger {
    pub level: Severity,
    pub config: LogeFormat,
    pub log_file: Option<String>,
    pub color: bool,
}

/// What one event turns into: the line for the terminal, and the line to
/// append to the log file. Either may be absent.
#[derive(Clone, Debug)]
pub struct Output {
    pub console: Option<String>,
    pub file: Option<String>,
}

/// The plain line of an event in a layout, with the given message.
pub open spec fn plain_line(
    format: LogeFormat,
    time: Option<Seq<char>>,
    r: LogRecord,
    message: Seq<char>,
    vars: Seq<(Seq<char>, Seq<char>)>,
) -> Seq<char> {
    match format {
        LogeFormat::Target => plain_target_line(time, r, message),
        LogeFormat::Fileline => plain_fileline_line(time, r, message),
        LogeFormat::Json => json_line(
            time,
            r,
            message,
            service_name_of(vars),
            service_version_of(vars),
        ),
    }
}

/// The plain line of an event as the logger renders it: with the pseudo
/// stack trace for errors.
pub open spec fn event_line(
    l: LogeLogger,
    r: LogRecord,
    time: Option<Seq<char>>,
    vars: Seq<(Seq<char>, Seq<char>)>,
) -> Seq<char> {
    plain_line(l.config, time, r, traced_message(r), vars)
}

/// A terminal line for an event: without colors, the plain line; with
/// colors, a line whose stripped form is the plain line, in the JSON layout
/// always, in the others when the event's texts hold no escape character.
pub open spec fn console_line_ok(
    l: LogeLogger,
    r: LogRecord,
    time: Option<Seq<char>>,
    vars: Seq<(Seq<char>, Seq<char>)>,
    console: Option<String>,
) -> bool {
    let plain = event_line(l, r, time, vars);
    if !l.color {
        console is Some && console->Some_0@ == plain
    } else {
        &&& console is Some
        &&& (l.config == LogeFormat::Json || clean_fields(time, r, traced_message(r)))
            ==> strip_ansi(console->Some_0@) == plain
    }
}

/// What a logger makes of an event: nothing below its threshold; else the
/// plain line for the file when it has one, and a terminal line.
pub open spec fn is_output_of(
    l: LogeLogger,
    r: LogRecord,
    time: Option<Seq<char>>,
    vars: Seq<(Seq<char>, Seq<char>)>,
    out: Output,
) -> bool {
    if r.level.rank() < l.level.rank() {
        out.console is None && out.file is None
    } else {
        &&& out.file is Some <==> l.log_file is Some
        &&& out.file is Some ==> out.file->Some_0@ == event_line(l, r, time, vars)
        &&& console_line_ok(l, r, time, vars, out.console)
    }
}

/// Relies on chrono's `Local::now` and `DelayedFormat`'s `Display`: the
/// local time, as `%Y-%m-%d %H:%M:%S%.3f`. It depends on the clock; all that
/// is stated is that numbers and the separators `- :.` hold no escape
/// character.
#[verifier::external_body]
fn local_time() -> (r: String)
    ensures
        no_escape(r@),
{
    chrono::Local::now().format("%Y-%m-%d %H:%M:%S%.3f").to_string()
}

impl LogeLogger {
    /// A logger for the terminal alone, with colors.
    pub fn new(log_level: Severity, log_config: LogeFormat) -> (r: LogeLogger)
        ensures
            r.level == log_level,
            r.config == log_config,
            r.log_file is None,
            r.color,
    {
        LogeLogger { level: log_level, config: log_config, log_file: None, color: true }
    }

    /// A logger for the terminal, with colors, that also appends plain lines
    /// to a file.
    pub fn new_with_file(log_level: Severity, log_config: LogeFormat, log_file: String) -> (r:
        LogeLogger)
        ensures
            r.level == log_level,
            r.config == log_config,
            r.log_file == Some(log_file),
            r.color,
    {
        LogeLogger { level: log_level, config: log_config, log_file: Some(log_file), color: true }
    }

    /// The same logger, with terminal colors on or off.
    pub fn with_color(self, color: bool) -> (r: LogeLogger)
        ensures
            r.level == self.level,
            r.config == self.config,
            r.log_file == self.log_file,
            r.color == color,
    {
        LogeLogger { color, ..self }
    }

    /// Whether events of a severity get through: those at least as severe as
    /// the logger's threshold do.
    pub fn enabled(&self, level: Severity) -> (r: bool)
        ensures
            r == (level.rank() >= self.level.rank()),
    {
        level.at_least(self.level)
    }

    /// The plain line of an event, in the logger's layout, with the given
    /// message; the JSON layout takes the service identity from `env`.
    pub fn render_plain(
        &self,
        time: Option<&str>,
        record: &LogRecord,
        message: &str,
        env: &Environment,
    ) -> (r: String)
        ensures
            r@ == plain_line(self.config, opt_view(time), *record, message@, env@),
    {
        match self.config {
            LogeFormat::Target => render_target(time, record, message),
            LogeFormat::Fileline => render_fileline(time, record, message),
            LogeFormat::Json => {
                let name = env.service_name();
                let version = env.service_version();
                render_json(time, record, message, name.as_str(), version.as_str())
            },
        }
    }

    /// The colored line of an event, in the logger's layout. It strips to
    /// the plain line: in the JSON layout always, in the others when the
    /// event's texts hold no escape character.
    pub fn render_colored(
        &self,
        time: Option<&str>,
        record: &LogRecord,
        message: &str,
        env: &Environment,
    ) -> (r: String)
        ensures
            self.config == LogeFormat::Json || clean_fields(opt_view(time), *record, message@)
                ==> strip_ansi(r@) == plain_line(
                self.config,
                opt_view(time),
                *record,
                message@,
                env@,
            ),
    {
        match self.config {
            LogeFormat::Target => render_target_colored(time, record, message),
            LogeFormat::Fileline => render_fileline_colored(time, record, message),
            LogeFormat::Json => {
                let name = env.service_name();
                let version = env.service_version();
                render_json_colored(time, record, message, name.as_str(), version.as_str())
            },
        }
    }

    /// What the logger makes of an event at a given time: nothing when the
    /// event is below the threshold (decided before anything is rendered);
    /// else the plain line for the log file when there is one, and the line
    /// for the terminal, colored when the logger colors.
    pub fn dispatch(&self, record: &LogRecord, time: Option<&str>, env: &Environment) -> (r:
        Output)
        ensures
            is_output_of(*self, *record, opt_view(time), env@, r),
    {
        if !self.enabled(record.level) {
            return Output { console: None, file: None };
        }
        let message = error_trace_message(record);
        if self.color {
            let console = Some(self.render_colored(time, record, message.as_str(), env));
            let file = match &self.log_file {
                Some(_) => Some(self.render_plain(time, record, message.as_str(), env)),
                None => None,
            };
            Output { console, file }
        } else {
            let plain = self.render_plain(time, record, message.as_str(), env);
            let file = match &self.log_file {
                Some(_) => Some(plain.clone()),
                None => None,
            };
            Output { console: Some(plain), file }
        }
    }

    /// What the logger makes of an event now: `dispatch` at the local time,
    /// which holds no escape character. The clock is not read for an event
    /// below the threshold.
    pub fn log(&self, record: &LogRecord, env: &Environment) -> (r: Output)
        ensures
            exists|t: Seq<char>| no_escape(t) && is_output_of(*self, *record, Some(t), env@, r),
    {
        if !self.enabled(record.level) {
            let r = Output { console: None, file: None };
            assert(no_escape(Seq::<char>::empty()) && is_output_of(
                *self,
                *record,
                Some(Seq::<char>::empty()),
                env@,
                r,
            ));
            return r;
        }
        let time = local_time();
        let r = self.dispatch(record, Some(time.as_str()), env);
        assert(no_escape(time@) && is_output_of(*self, *record, Some(time@), env@, r));
        r
    }
}

} // verus!
