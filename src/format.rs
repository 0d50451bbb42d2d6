//! The line layouts a logger can use, and how one is read from text.

use vstd::prelude::*;
use vstd::string::*;

verus! {

/// The layout of a rendered line.
#[derive(Clone, Copy, Debug, PartialEq, Eq, Structural)]
pub enum LogeFormat {
    /// `<time> [<level>] <target> ... <message>`
    Target,
    /// `<time> [<level>] <file> - <target> (line <line>) ... <message>`
    Fileline,
    /// One JSON object per line.
    Json,
}

/// The layout that a configuration text names: exactly `fileline` or
/// `json`; any other text names `Target`.
pub open spec fn format_named(s: Seq<char>) -> LogeFormat {
    if s == "fileline"@ {
        LogeFormat::Fileline
    } else if s == "json"@ {
        LogeFormat::Json
    } else {
        LogeFormat::Target
    }
}

/// Reads a layout from configuration text: exactly `target`, `fileline` or
/// `json`. Anything else falls back to `Target`.
pub fn parse_formats(environment_variable_name: &str) -> (r: LogeFormat)
    ensures
        r == format_named(environment_variable_name@),
{
    let s = String::from_str(environment_variable_name);
    if s == String::from_str("fileline") {
        LogeFormat::Fileline
    } else if s == String::from_str("json") {
        LogeFormat::Json
    } else {
        LogeFormat::Target
    }
}

} // verus!
