//! Severities, their order, their labels, and how a configured severity is
//! read from text.

use vstd::prelude::*;
use crate::text::{eq_ignore_case, equals_ignore_ascii_case};

verus! {

/// How important a log event is, from the least to the most severe.
#[derive(Clone, Copy, Debug, PartialEq, Eq, Structural)]
pub enum Severity {
    Trace,
    Debug,
    Info,
    Warn,
    Error,
}

impl Severity {
    /// Position in the order Trace < Debug < Info < Warn < Error.
    pub open spec fn rank(self) -> nat {
        match self {
            Severity::Trace => 0,
            Severity::Debug => 1,
            Severity::Info => 2,
            Severity::Warn => 3,
            Severity::Error => 4,
        }
    }

    /// The label of the severity: its name in capitals.
    pub open spec fn spec_label(self) -> Seq<char> {
        match self {
            Severity::Trace => seq!['T', 'R', 'A', 'C', 'E'],
            Severity::Debug => seq!['D', 'E', 'B', 'U', 'G'],
            Severity::Info => seq!['I', 'N', 'F', 'O'],
            Severity::Warn => seq!['W', 'A', 'R', 'N'],
            Severity::Error => seq!['E', 'R', 'R', 'O', 'R'],
        }
    }

    /// The label left-justified to five characters, so that columns line up.
    pub open spec fn spec_padded_label(self) -> Seq<char> {
        if self.spec_label().len() < 5 {
            self.spec_label() + seq![' ']
        } else {
            self.spec_label()
        }
    }

    /// The label of the severity: `"TRACE"`, `"DEBUG"`, `"INFO"`, `"WARN"` or
    /// `"ERROR"`.
    pub fn label(&self) -> (r: &'static str)
        ensures
            r@ == self.spec_label(),
    {
        proof {
            reveal_strlit("TRACE");
            reveal_strlit("DEBUG");
            reveal_strlit("INFO");
            reveal_strlit("WARN");
            reveal_strlit("ERROR");
        }
        match self {
            Severity::Trace => "TRACE",
            Severity::Debug => "DEBUG",
            Severity::Info => "INFO",
            Severity::Warn => "WARN",
            Severity::Error => "ERROR",
        }
    }

    /// The label padded to a width of five: `"INFO "`, `"WARN "`, `"ERROR"`.
    pub fn padded_label(&self) -> (r: &'static str)
        ensures
            r@ == self.spec_padded_label(),
    {
        proof {
            reveal_strlit("TRACE");
            reveal_strlit("DEBUG");
            reveal_strlit("INFO ");
            reveal_strlit("WARN ");
            reveal_strlit("ERROR");
        }
        let r = match self {
            Severity::Trace => "TRACE",
            Severity::Debug => "DEBUG",
            Severity::Info => "INFO ",
            Severity::Warn => "WARN ",
            Severity::Error => "ERROR",
        };
        assert(r@ =~= self.spec_padded_label());
        r
    }

    /// Whether an event of this severity passes a configured threshold: it
    /// does when it is at least as severe as the threshold.
    pub fn at_least(&self, threshold: Severity) -> (r: bool)
        ensures
            r == (self.rank() >= threshold.rank()),
    {
        self.index() >= threshold.index()
    }

    fn index(&self) -> (r: u8)
        ensures
            r as nat == self.rank(),
    {
        match self {
            Severity::Trace => 0,
            Severity::Debug => 1,
            Severity::Info => 2,
            Severity::Warn => 3,
            Severity::Error => 4,
        }
    }
}

/// The severity that a configuration text names, compared without regard to
/// ASCII case; any other text names `Error`.
pub open spec fn severity_named(s: Seq<char>) -> Severity {
    if eq_ignore_case(s, Severity::Trace.spec_label()) {
        Severity::Trace
    } else if eq_ignore_case(s, Severity::Debug.spec_label()) {
        Severity::Debug
    } else if eq_ignore_case(s, Severity::Info.spec_label()) {
        Severity::Info
    } else if eq_ignore_case(s, Severity::Warn.spec_label()) {
        Severity::Warn
    } else {
        Severity::Error
    }
}

/// Reads a severity from configuration text: `trace`, `debug`, `info`,
/// `warn` or `error` in any ASCII case. Anything else falls back to `Error`,
/// so that a misspelt setting still lets errors through.
pub fn parse_filters(environment_variable_name: &str) -> (r: Severity)
    ensures
        r == severity_named(environment_variable_name@),
{
    let s = environment_variable_name;
    if equals_ignore_ascii_case(s, Severity::Trace.label()) {
        Severity::Trace
    } else if equals_ignore_ascii_case(s, Severity::Debug.label()) {
        Severity::Debug
    } else if equals_ignore_ascii_case(s, Severity::Info.label()) {
        Severity::Info
    } else if equals_ignore_ascii_case(s, Severity::Warn.label()) {
        Severity::Warn
    } else {
        Severity::Error
    }
}

/// The five lower-case names select their severities, and `verbose` falls
/// back to `Error`.
pub proof fn lemma_severity_names()
    ensures
        severity_named("trace"@) == Severity::Trace,
        severity_named("debug"@) == Severity::Debug,
        severity_named("info"@) == Severity::Info,
        severity_named("warn"@) == Severity::Warn,
        severity_named("error"@) == Severity::Error,
        severity_named("verbose"@) == Severity::Error,
{
    reveal_strlit("trace");
    reveal_strlit("debug");
    reveal_strlit("info");
    reveal_strlit("warn");
    reveal_strlit("error");
    reveal_strlit("verbose");
    assert(eq_ignore_case("trace"@, Severity::Trace.spec_label()));
    assert(eq_ignore_case("debug"@, Severity::Debug.spec_label()));
    assert(!eq_ignore_case("debug"@, Severity::Trace.spec_label())) by {
        assert(crate::text::ascii_lower("debug"@[0]) != crate::text::ascii_lower('T'));
    }
    assert(eq_ignore_case("info"@, Severity::Info.spec_label()));
    assert(eq_ignore_case("warn"@, Severity::Warn.spec_label()));
    assert(!eq_ignore_case("warn"@, Severity::Info.spec_label())) by {
        assert(crate::text::ascii_lower("warn"@[0]) != crate::text::ascii_lower('I'));
    }
    assert(!eq_ignore_case("error"@, Severity::Trace.spec_label())) by {
        assert(crate::text::ascii_lower("error"@[0]) != crate::text::ascii_lower('T'));
    }
    assert(!eq_ignore_case("error"@, Severity::Debug.spec_label())) by {
        assert(crate::text::ascii_lower("error"@[0]) != crate::text::ascii_lower('D'));
    }
}

} // verus!
