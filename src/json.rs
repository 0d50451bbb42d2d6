//! The JSON layout: one object per event, with the event's level, location,
//! message, service identity and time.

use vstd::prelude::*;
use vstd::string::*;
use crate::record::{file_of, line_text_of, target_of, LogRecord};
use crate::render::opt_view;
use crate::style::{
    esc, fg_code, is_sgr_code, lemma_clean_strips_to, lemma_painted_or_plain_shows,
    lemma_shows_strips_to, lemma_strips_to_concat, lemma_strips_to_strip, no_escape, paint_cyan,
    paint_green, paint_magenta, strip_ansi, strips_to,
};

verus! {

/// A lower-case hexadecimal digit, for a value below sixteen.
pub open spec fn hex_digit(n: nat) -> char {
    if n < 10 {
        (('0' as u32) + n) as char
    } else {
        (('a' as u32) + n - 10) as char
    }
}

/// How a character is written inside a JSON string: quote and backslash
/// escaped, backspace, tab, newline, form feed and carriage return by their
/// short escapes, other characters below 0x20 as `\u00` and two hex digits,
/// every other character as it is.
pub open spec fn escape_char(c: char) -> Seq<char> {
    if c == '"' {
        seq!['\\', '"']
    } else if c == '\\' {
        seq!['\\', '\\']
    } else if c == '\x08' {
        seq!['\\', 'b']
    } else if c == '\t' {
        seq!['\\', 't']
    } else if c == '\n' {
        seq!['\\', 'n']
    } else if c == '\x0c' {
        seq!['\\', 'f']
    } else if c == '\r' {
        seq!['\\', 'r']
    } else if (c as u32) < 0x20 {
        seq![
            '\\',
            'u',
            '0',
            '0',
            hex_digit((c as u32 / 16) as nat),
            hex_digit((c as u32 % 16) as nat),
        ]
    } else {
        seq![c]
    }
}

/// The characters of a text, each written as inside a JSON string.
pub open spec fn escape_text(s: Seq<char>) -> Seq<char>
    decreases s.len(),
{
    if s.len() == 0 {
        Seq::empty()
    } else {
        escape_text(s.drop_last()) + escape_char(s.last())
    }
}

/// The JSON string literal of a text: the escaped text between quotes.
pub open spec fn json_string(s: Seq<char>) -> Seq<char> {
    seq!['"'] + escape_text(s) + seq!['"']
}

/// Relies on `serde_json::to_string` of a `str`: the text between quotes,
/// with `"` and `\\` escaped, `\\b \\t \\n \\f \\r` for those controls, other
/// characters below 0x20 as `\\u00` and two lower-case hex digits, and all
/// else as it is. It fails only for a `Serialize` impl that fails or a map
/// with non-string keys, and a `str` is neither.
#[verifier::external_body]
fn json_quote(s: &str) -> (r: String)
    ensures
        r@ == json_string(s@),
{
    serde_json::to_string(s).unwrap_or_default()
}

proof fn lemma_escape_text_no_escape(s: Seq<char>)
    ensures
        no_escape(escape_text(s)),
    decreases s.len(),
{
    if s.len() > 0 {
        lemma_escape_text_no_escape(s.drop_last());
        let c = s.last();
        let e = escape_char(c);
        assert(no_escape(e)) by {
            if (c as u32) < 0x20 && c != '\x08' && c != '\t' && c != '\n' && c != '\x0c' && c
                != '\r' {
                let hi = (c as u32 / 16) as nat;
                let lo = (c as u32 % 16) as nat;
                assert(hex_digit(hi) != esc());
                assert(hex_digit(lo) != esc());
            }
        }
        let a = escape_text(s.drop_last());
        assert forall|i: int| 0 <= i < (a + e).len() implies #[trigger] (a + e)[i] != esc() by {
            if i >= a.len() {
                assert((a + e)[i] == e[i - a.len()]);
            }
        }
    }
}

/// A JSON string literal holds no escape character: a control character in
/// the text is written as an escape of plain characters.
pub proof fn lemma_json_string_no_escape(s: Seq<char>)
    ensures
        no_escape(json_string(s)),
{
    lemma_escape_text_no_escape(s);
    let q = json_string(s);
    let e = escape_text(s);
    assert forall|i: int| 0 <= i < q.len() implies #[trigger] q[i] != esc() by {
        if 0 < i < q.len() - 1 {
            assert(q[i] == e[i - 1]);
        }
    }
}

/// One member of an object, `"<key>":<value>`, where the value is already
/// JSON text.
pub open spec fn member(e: (Seq<char>, Seq<char>)) -> Seq<char> {
    seq!['"'] + e.0 + seq!['"', ':'] + e.1
}

/// The members of an object, separated by commas.
pub open spec fn members(entries: Seq<(Seq<char>, Seq<char>)>) -> Seq<char>
    decreases entries.len(),
{
    if entries.len() == 0 {
        Seq::empty()
    } else if entries.len() == 1 {
        member(entries[0])
    } else {
        members(entries.drop_last()) + seq![','] + member(entries.last())
    }
}

/// A JSON object with the given keys and value texts, in that order.
pub open spec fn json_object(entries: Seq<(Seq<char>, Seq<char>)>) -> Seq<char> {
    seq!['{'] + members(entries) + seq!['}']
}

/// The view of a list of key and value-text pairs.
pub open spec fn entries_view(entries: Seq<(String, String)>) -> Seq<(Seq<char>, Seq<char>)> {
    entries.map_values(|e: (String, String)| (e.0@, e.1@))
}

/// Writes a JSON object whose members are the given keys, each with its
/// value text, in the order given. Keys are written between quotes as they
/// are; values are written as they are, so they must already be JSON text.
pub fn encode_object(entries: &Vec<(String, String)>) -> (r: String)
    ensures
        r@ == json_object(entries_view(entries@)),
{
    proof {
        reveal_strlit("{");
        reveal_strlit("}");
        reveal_strlit(",");
        reveal_strlit("\"");
        reveal_strlit("\":");
    }
    let ghost ev = entries_view(entries@);
    let mut s = String::from_str("{");
    let mut i: usize = 0;
    while i < entries.len()
        invariant
            i <= entries@.len(),
            ev == entries_view(entries@),
            s@ == seq!['{'] + members(ev.take(i as int)),
        decreases entries@.len() - i,
    {
        let ghost before = s@;
        if i > 0 {
            s.append(",");
        }
        let ghost sep = s@;
        s.append("\"");
        s.append(entries[i].0.as_str());
        s.append("\":");
        s.append(entries[i].1.as_str());
        proof {
            reveal_strlit(",");
            reveal_strlit("\"");
            reveal_strlit("\":");
            let t = ev.take(i + 1);
            let e = ev[i as int];
            assert(e == (entries@[i as int].0@, entries@[i as int].1@));
            assert(s@ =~= sep + member(e));
            assert(t.drop_last() =~= ev.take(i as int));
            assert(t.last() == e);
            if i == 0 {
                assert(t.len() == 1);
                assert(t[0] == e);
                assert(members(ev.take(0)) =~= Seq::<char>::empty());
                assert(sep =~= seq!['{']);
                assert(members(t) == member(e));
                assert(s@ =~= seq!['{'] + members(t));
            } else {
                assert(sep =~= before + seq![',']);
                assert(members(t) == members(t.drop_last()) + seq![','] + member(t.last()));
                assert(s@ =~= seq!['{'] + members(t));
            }
        }
        i = i + 1;
    }
    assert(ev.take(i as int) =~= ev);
    s.append("}");
    assert(s@ =~= json_object(ev));
    s
}

/// The members of an event's `location` object: file, line and target.
pub open spec fn location_entries(r: LogRecord) -> Seq<(Seq<char>, Seq<char>)> {
    seq![
        ("file"@, json_string(file_of(r))),
        ("line"@, line_text_of(r)),
        ("target"@, json_string(target_of(r))),
    ]
}

/// The members of an event's `service` object: name and version.
pub open spec fn service_entries(name: Seq<char>, version: Seq<char>) -> Seq<
    (Seq<char>, Seq<char>),
> {
    seq![("name"@, json_string(name)), ("version"@, json_string(version))]
}

/// The JSON value of the time: a string, or `null` when there is no time.
pub open spec fn time_value(time: Option<Seq<char>>) -> Seq<char> {
    match time {
        Some(t) => json_string(t),
        None => "null"@,
    }
}

/// The members of an event's JSON object: level, location, message, service
/// and time.
pub open spec fn event_entries(
    time: Option<Seq<char>>,
    r: LogRecord,
    message: Seq<char>,
    name: Seq<char>,
    version: Seq<char>,
) -> Seq<(Seq<char>, Seq<char>)> {
    seq![
        ("level"@, json_string(r.level.spec_padded_label())),
        ("location"@, json_object(location_entries(r))),
        ("message"@, json_string(message)),
        ("service"@, json_object(service_entries(name, version))),
        ("time"@, time_value(time)),
    ]
}

/// The JSON line of an event with the given message and service identity.
pub open spec fn json_line(
    time: Option<Seq<char>>,
    r: LogRecord,
    message: Seq<char>,
    name: Seq<char>,
    version: Seq<char>,
) -> Seq<char> {
    json_object(event_entries(time, r, message, name, version))
}

fn entry(key: &str, value: String) -> (r: (String, String))
    ensures
        r.0@ == key@,
        r.1@ == value@,
{
    (String::from_str(key), value)
}

/// Renders an event as one JSON object:
/// `{"level":..,"location":{"file":..,"line":..,"target":..},"message":..,
/// "service":{"name":..,"version":..},"time":..}`, with the line as a number
/// and the time `null` when there is none.
pub fn render_json(
    time: Option<&str>,
    record: &LogRecord,
    message: &str,
    name: &str,
    version: &str,
) -> (r: String)
    ensures
        r@ == json_line(opt_view(time), *record, message@, name@, version@),
{
    let mut location: Vec<(String, String)> = Vec::new();
    location.push(entry("file", json_quote(record.file_or_unknown())));
    location.push(entry("line", record.line_text()));
    location.push(entry("target", json_quote(record.target_or_module())));
    assert(entries_view(location@) =~= location_entries(*record));
    let mut service: Vec<(String, String)> = Vec::new();
    service.push(entry("name", json_quote(name)));
    service.push(entry("version", json_quote(version)));
    assert(entries_view(service@) =~= service_entries(name@, version@));
    let time_text = match time {
        Some(t) => json_quote(t),
        None => String::from_str("null"),
    };
    let mut event: Vec<(String, String)> = Vec::new();
    event.push(entry("level", json_quote(record.level.padded_label())));
    event.push(entry("location", encode_object(&location)));
    event.push(entry("message", json_quote(message)));
    event.push(entry("service", encode_object(&service)));
    event.push(entry("time", time_text));
    assert(entries_view(event@) =~= event_entries(
        opt_view(time),
        *record,
        message@,
        name@,
        version@,
    ));
    encode_object(&event)
}

/// The JSON string literal of a text, painted green.
fn green_string(s: &str) -> (r: String)
    ensures
        strips_to(r@, json_string(s@)),
{
    let q = json_quote(s);
    proof {
        lemma_json_string_no_escape(s@);
    }
    let r = paint_green(q.as_str());
    proof {
        assert(is_sgr_code(fg_code(32)));
        lemma_painted_or_plain_shows(r@, q@, fg_code(32));
        lemma_shows_strips_to(r@, q@);
    }
    r
}

/// Appends a colored piece to a colored text, keeping track of the plain
/// text they strip to.
fn append_colored(
    out: &mut String,
    piece: &str,
    Ghost(plain): Ghost<Seq<char>>,
    Ghost(plain_piece): Ghost<Seq<char>>,
)
    requires
        strips_to(old(out)@, plain),
        strips_to(piece@, plain_piece),
    ensures
        strips_to(final(out)@, plain + plain_piece),
{
    proof {
        lemma_strips_to_concat(old(out)@, plain, piece@, plain_piece);
    }
    out.append(piece);
}

/// Appends a piece without escape characters, which strips to itself.
fn append_clean(out: &mut String, piece: &str, Ghost(plain): Ghost<Seq<char>>)
    requires
        strips_to(old(out)@, plain),
        no_escape(piece@),
    ensures
        strips_to(final(out)@, plain + piece@),
{
    proof {
        lemma_clean_strips_to(piece@);
    }
    append_colored(out, piece, Ghost(plain), Ghost(piece@));
}

/// Writes a JSON object with its keys painted cyan and the given colored
/// values, which strip to the values of `plain`; the whole strips to the
/// plain object.
fn encode_object_colored(
    entries: &Vec<(String, String)>,
    Ghost(plain): Ghost<Seq<(Seq<char>, Seq<char>)>>,
) -> (r: String)
    requires
        entries@.len() == plain.len(),
        forall|i: int|
            0 <= i < plain.len() ==> entries@[i].0@ == (#[trigger] plain[i]).0 && no_escape(
                plain[i].0,
            ) && strips_to(entries@[i].1@, plain[i].1),
    ensures
        strips_to(r@, json_object(plain)),
{
    proof {
        reveal_strlit("{");
        reveal_strlit("}");
        lemma_clean_strips_to(Seq::<char>::empty());
    }
    let mut s = String::new();
    append_clean(&mut s, "{", Ghost(Seq::empty()));
    assert(Seq::<char>::empty() + "{"@ =~= seq!['{'] + members(plain.take(0)));
    let mut i: usize = 0;
    while i < entries.len()
        invariant
            i <= entries@.len(),
            entries@.len() == plain.len(),
            forall|j: int|
                0 <= j < plain.len() ==> entries@[j].0@ == (#[trigger] plain[j]).0 && no_escape(
                    plain[j].0,
                ) && strips_to(entries@[j].1@, plain[j].1),
            strips_to(s@, seq!['{'] + members(plain.take(i as int))),
        decreases entries@.len() - i,
    {
        proof {
            reveal_strlit(",");
            reveal_strlit("\"");
            reveal_strlit(":");
        }
        let ghost before = seq!['{'] + members(plain.take(i as int));
        let ghost sep: Seq<char> = if i > 0 {
            seq![',']
        } else {
            Seq::empty()
        };
        if i > 0 {
            append_clean(&mut s, ",", Ghost(before));
            assert(before + ","@ =~= before + sep);
        } else {
            assert(before + sep =~= before);
        }
        let e = &entries[i];
        assert(plain[i as int] == plain[i as int]);
        let ghost key = plain[i as int].0;
        let mut quoted = String::from_str("\"");
        quoted.append(e.0.as_str());
        quoted.append("\"");
        let ghost q = seq!['"'] + key + seq!['"'];
        assert(quoted@ =~= q);
        assert(no_escape(q)) by {
            assert forall|k: int| 0 <= k < q.len() implies #[trigger] q[k] != esc() by {
                if 0 < k < q.len() - 1 {
                    assert(q[k] == key[k - 1]);
                }
            }
        }
        let ckey = paint_cyan(quoted.as_str());
        proof {
            assert(is_sgr_code(fg_code(36)));
            lemma_painted_or_plain_shows(ckey@, q, fg_code(36));
            lemma_shows_strips_to(ckey@, q);
        }
        append_colored(&mut s, ckey.as_str(), Ghost(before + sep), Ghost(q));
        append_clean(&mut s, ":", Ghost(before + sep + q));
        append_colored(&mut s, e.1.as_str(), Ghost(before + sep + q + ":"@), Ghost(plain[i as int].1));
        proof {
            let t = plain.take(i + 1);
            assert(t.drop_last() =~= plain.take(i as int));
            assert(t.last() == plain[i as int]);
            let m = member(plain[i as int]);
            assert(q + ":"@ + plain[i as int].1 =~= m);
            if i == 0 {
                assert(t.len() == 1);
                assert(t[0] == plain[i as int]);
                assert(members(t) == m);
                assert(before + sep + q + ":"@ + plain[i as int].1 =~= seq!['{'] + members(t));
            } else {
                assert(members(t) == members(t.drop_last()) + seq![','] + member(t.last()));
                assert(before + sep + q + ":"@ + plain[i as int].1 =~= seq!['{'] + members(t));
            }
        }
        i = i + 1;
    }
    assert(plain.take(i as int) =~= plain);
    append_clean(&mut s, "}", Ghost(seq!['{'] + members(plain)));
    assert(seq!['{'] + members(plain) + "}"@ =~= json_object(plain));
    s
}

/// The JSON line of an event, colored for a terminal: keys cyan, strings
/// green and the line number magenta. With the escape sequences stripped it
/// is the plain JSON line, whatever the event holds.
pub fn render_json_colored(
    time: Option<&str>,
    record: &LogRecord,
    message: &str,
    name: &str,
    version: &str,
) -> (r: String)
    ensures
        strip_ansi(r@) == json_line(opt_view(time), *record, message@, name@, version@),
{
    proof {
        reveal_strlit("file");
        reveal_strlit("line");
        reveal_strlit("target");
        reveal_strlit("name");
        reveal_strlit("version");
        reveal_strlit("level");
        reveal_strlit("location");
        reveal_strlit("message");
        reveal_strlit("service");
        reveal_strlit("time");
        reveal_strlit("null");
    }
    let line = record.line_text();
    proof {
        crate::render::lemma_line_text_no_escape(*record);
    }
    let cline = paint_magenta(line.as_str());
    proof {
        assert(is_sgr_code(fg_code(35)));
        lemma_painted_or_plain_shows(cline@, line@, fg_code(35));
        lemma_shows_strips_to(cline@, line@);
    }
    let mut location: Vec<(String, String)> = Vec::new();
    location.push(entry("file", green_string(record.file_or_unknown())));
    location.push(entry("line", cline));
    location.push(entry("target", green_string(record.target_or_module())));
    let ghost loc_plain = location_entries(*record);
    assert forall|i: int| 0 <= i < loc_plain.len() implies location@[i].0@ == (
    #[trigger] loc_plain[i]).0 && no_escape(loc_plain[i].0) && strips_to(
        location@[i].1@,
        loc_plain[i].1,
    ) by {}
    let cloc = encode_object_colored(&location, Ghost(loc_plain));
    let mut service: Vec<(String, String)> = Vec::new();
    service.push(entry("name", green_string(name)));
    service.push(entry("version", green_string(version)));
    let ghost svc_plain = service_entries(name@, version@);
    assert forall|i: int| 0 <= i < svc_plain.len() implies service@[i].0@ == (
    #[trigger] svc_plain[i]).0 && no_escape(svc_plain[i].0) && strips_to(
        service@[i].1@,
        svc_plain[i].1,
    ) by {}
    let csvc = encode_object_colored(&service, Ghost(svc_plain));
    let ctime = match time {
        Some(t) => green_string(t),
        None => {
            let n = String::from_str("null");
            proof {
                lemma_clean_strips_to(n@);
            }
            n
        },
    };
    let mut event: Vec<(String, String)> = Vec::new();
    event.push(entry("level", green_string(record.level.padded_label())));
    event.push(entry("location", cloc));
    event.push(entry("message", green_string(message)));
    event.push(entry("service", csvc));
    event.push(entry("time", ctime));
    let ghost ev_plain = event_entries(opt_view(time), *record, message@, name@, version@);
    assert forall|i: int| 0 <= i < ev_plain.len() implies event@[i].0@ == (
    #[trigger] ev_plain[i]).0 && no_escape(ev_plain[i].0) && strips_to(
        event@[i].1@,
        ev_plain[i].1,
    ) by {}
    let r = encode_object_colored(&event, Ghost(ev_plain));
    proof {
        lemma_strips_to_strip(r@, json_object(ev_plain));
    }
    r
}

} // verus!
