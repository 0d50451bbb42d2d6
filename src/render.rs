//! The three line layouts, each in a plain and a colored form.

use vstd::prelude::*;
use vstd::string::*;
use crate::level::Severity;
use crate::record::{file_of, line_text_of, target_of, LogRecord};
use crate::style::{
    bold_code, colored_level, fg_code, is_sgr_code, join, lemma_join_push,
    lemma_painted_or_plain_shows, lemma_strip_join, no_escape, paint_bold, paint_bright_black,
    paint_magenta, pieces_show, shows, strip_ansi,
};
use crate::text::decimal;

verus! {

/// The view of an optional string.
pub open spec fn opt_view(o: Option<&str>) -> Option<Seq<char>> {
    match o {
        Some(s) => Some(s@),
        None => None,
    }
}

/// The opening of a line: `<time> [` with a time, `[` without one.
pub open spec fn opening(time: Option<Seq<char>>) -> Seq<Seq<char>> {
    match time {
        Some(t) => seq![t, " ["@],
        None => seq!["["@],
    }
}

/// The pieces of a target line: `<time> [<level>] <target> ... <message>`.
pub open spec fn target_pieces(
    time: Option<Seq<char>>,
    label: Seq<char>,
    target: Seq<char>,
    message: Seq<char>,
) -> Seq<Seq<char>> {
    opening(time) + seq![label, "] "@, target, " ... "@, message]
}

/// The pieces of a file-and-line line:
/// `<time> [<level>] <file> - <target> (line <line>) ... <message>`.
pub open spec fn fileline_pieces(
    time: Option<Seq<char>>,
    label: Seq<char>,
    file: Seq<char>,
    target: Seq<char>,
    line: Seq<char>,
    message: Seq<char>,
) -> Seq<Seq<char>> {
    opening(time) + seq![
        label,
        "] "@,
        file,
        " - "@,
        target,
        " (line "@,
        line,
        ") ... "@,
        message,
    ]
}

/// The plain target line of an event with the given message.
pub open spec fn plain_target_line(time: Option<Seq<char>>, r: LogRecord, message: Seq<char>) -> Seq<
    char,
> {
    join(target_pieces(time, r.level.spec_padded_label(), target_of(r), message))
}

/// The plain file-and-line line of an event with the given message.
pub open spec fn plain_fileline_line(
    time: Option<Seq<char>>,
    r: LogRecord,
    message: Seq<char>,
) -> Seq<char> {
    join(
        fileline_pieces(
            time,
            r.level.spec_padded_label(),
            file_of(r),
            target_of(r),
            line_text_of(r),
            message,
        ),
    )
}

/// The texts of an event that a line shows as they are hold no escape
/// character, so that only coloring puts control sequences into a line.
pub open spec fn clean_fields(time: Option<Seq<char>>, r: LogRecord, message: Seq<char>) -> bool {
    &&& match time {
        Some(t) => no_escape(t),
        None => true,
    }
    &&& no_escape(target_of(r))
    &&& no_escape(file_of(r))
    &&& no_escape(message)
}

fn append_piece(out: &mut String, piece: &str, Ghost(pieces): Ghost<Seq<Seq<char>>>)
    requires
        old(out)@ == join(pieces),
    ensures
        final(out)@ == join(pieces.push(piece@)),
{
    out.append(piece);
    proof {
        lemma_join_push(pieces, piece@);
    }
}

fn append_opening(out: &mut String, time: Option<&str>) -> (pieces: Ghost<Seq<Seq<char>>>)
    requires
        old(out)@.len() == 0,
    ensures
        pieces@ == opening(opt_view(time)),
        final(out)@ == join(pieces@),
{
    let ghost empty = Seq::<Seq<char>>::empty();
    assert(old(out)@ =~= join(empty));
    match time {
        Some(t) => {
            append_piece(out, t, Ghost(empty));
            append_piece(out, " [", Ghost(empty.push(t@)));
            assert(empty.push(t@).push(" ["@) =~= opening(opt_view(time)));
        },
        None => {
            append_piece(out, "[", Ghost(empty));
            assert(empty.push("["@) =~= opening(opt_view(time)));
        },
    }
    Ghost(opening(opt_view(time)))
}

fn assemble_target(time: Option<&str>, label: &str, target: &str, message: &str) -> (r: String)
    ensures
        r@ == join(target_pieces(opt_view(time), label@, target@, message@)),
{
    let mut s = String::new();
    let Ghost(ps0) = append_opening(&mut s, time);
    append_piece(&mut s, label, Ghost(ps0));
    let ghost ps1 = ps0.push(label@);
    append_piece(&mut s, "] ", Ghost(ps1));
    let ghost ps2 = ps1.push("] "@);
    append_piece(&mut s, target, Ghost(ps2));
    let ghost ps3 = ps2.push(target@);
    append_piece(&mut s, " ... ", Ghost(ps3));
    let ghost ps4 = ps3.push(" ... "@);
    append_piece(&mut s, message, Ghost(ps4));
    let ghost ps5 = ps4.push(message@);
    assert(ps5 =~= target_pieces(opt_view(time), label@, target@, message@));
    s
}

fn assemble_fileline(
    time: Option<&str>,
    label: &str,
    file: &str,
    target: &str,
    line: &str,
    message: &str,
) -> (r: String)
    ensures
        r@ == join(fileline_pieces(opt_view(time), label@, file@, target@, line@, message@)),
{
    let mut s = String::new();
    let Ghost(ps0) = append_opening(&mut s, time);
    append_piece(&mut s, label, Ghost(ps0));
    let ghost ps1 = ps0.push(label@);
    append_piece(&mut s, "] ", Ghost(ps1));
    let ghost ps2 = ps1.push("] "@);
    append_piece(&mut s, file, Ghost(ps2));
    let ghost ps3 = ps2.push(file@);
    append_piece(&mut s, " - ", Ghost(ps3));
    let ghost ps4 = ps3.push(" - "@);
    append_piece(&mut s, target, Ghost(ps4));
    let ghost ps5 = ps4.push(target@);
    append_piece(&mut s, " (line ", Ghost(ps5));
    let ghost ps6 = ps5.push(" (line "@);
    append_piece(&mut s, line, Ghost(ps6));
    let ghost ps7 = ps6.push(line@);
    append_piece(&mut s, ") ... ", Ghost(ps7));
    let ghost ps8 = ps7.push(") ... "@);
    append_piece(&mut s, message, Ghost(ps8));
    let ghost ps9 = ps8.push(message@);
    assert(ps9 =~= fileline_pieces(opt_view(time), label@, file@, target@, line@, message@));
    s
}

/// Renders `<time> [<level>] <target> ... <message>` without colors; the
/// time and the space after it are left out when there is no time.
pub fn render_target(time: Option<&str>, record: &LogRecord, message: &str) -> (r: String)
    ensures
        r@ == plain_target_line(opt_view(time), *record, message@),
{
    assemble_target(time, record.level.padded_label(), record.target_or_module(), message)
}

/// Renders `<time> [<level>] <file> - <target> (line <line>) ... <message>`
/// without colors; the time and the space after it are left out when there
/// is no time.
pub fn render_fileline(time: Option<&str>, record: &LogRecord, message: &str) -> (r: String)
    ensures
        r@ == plain_fileline_line(opt_view(time), *record, message@),
{
    let line = record.line_text();
    assemble_fileline(
        time,
        record.level.padded_label(),
        record.file_or_unknown(),
        record.target_or_module(),
        line.as_str(),
        message,
    )
}

proof fn lemma_decimal_no_escape(n: nat)
    ensures
        no_escape(decimal(n)),
        forall|i: int| 0 <= i < decimal(n).len() ==> '0' <= #[trigger] decimal(n)[i] <= '9',
    decreases n,
{
    if n >= 10 {
        lemma_decimal_no_escape(n / 10);
    }
}

pub proof fn lemma_line_text_no_escape(r: LogRecord)
    ensures
        no_escape(line_text_of(r)),
{
    let n = crate::record::line_of(r);
    if n < 0 {
        lemma_decimal_no_escape((-n) as nat);
        let s = seq!['-'] + decimal((-n) as nat);
        assert forall|i: int| 0 <= i < s.len() implies #[trigger] s[i] != crate::style::esc() by {
            if i > 0 {
                assert(s[i] == decimal((-n) as nat)[i - 1]);
            }
        }
    } else {
        lemma_decimal_no_escape(n as nat);
    }
}

proof fn lemma_label_no_escape(level: Severity)
    ensures
        no_escape(level.spec_padded_label()),
{
}

proof fn lemma_literals_no_escape()
    ensures
        no_escape(" ["@),
        no_escape("["@),
        no_escape("] "@),
        no_escape(" ... "@),
        no_escape(" - "@),
        no_escape(" (line "@),
        no_escape(") ... "@),
{
    reveal_strlit(" [");
    reveal_strlit("[");
    reveal_strlit("] ");
    reveal_strlit(" ... ");
    reveal_strlit(" - ");
    reveal_strlit(" (line ");
    reveal_strlit(") ... ");
}

/// A shown time: plain, or painted bright black.
fn colored_time(time: Option<&str>) -> (r: Option<String>)
    ensures
        r is Some <==> time is Some,
        r is Some ==> no_escape(time->Some_0@) ==> shows(r->Some_0@, time->Some_0@),
{
    match time {
        Some(t) => {
            let c = paint_bright_black(t);
            proof {
                if no_escape(t@) {
                    assert(is_sgr_code(fg_code(90)));
                    lemma_painted_or_plain_shows(c@, t@, fg_code(90));
                }
            }
            Some(c)
        },
        None => None,
    }
}

fn as_opt_str(o: &Option<String>) -> (r: Option<&str>)
    ensures
        r is Some <==> o is Some,
        r is Some ==> r->Some_0@ == o->Some_0@,
{
    match o {
        Some(s) => Some(s.as_str()),
        None => None,
    }
}

proof fn lemma_opening_shows(c: Option<Seq<char>>, t: Option<Seq<char>>)
    requires
        c is Some <==> t is Some,
        t is Some ==> no_escape(t->Some_0) && shows(c->Some_0, t->Some_0),
    ensures
        pieces_show(opening(c), opening(t)),
{
    lemma_literals_no_escape();
    let oc = opening(c);
    let ot = opening(t);
    assert forall|i: int| 0 <= i < ot.len() implies no_escape(#[trigger] ot[i]) && shows(
        oc[i],
        ot[i],
    ) by {}
}

/// Renders the target layout with the time bright black, the level label in
/// its color and the target bold. With the escape sequences stripped it is
/// the plain target line, whenever the event's texts hold no escape
/// character themselves.
pub fn render_target_colored(time: Option<&str>, record: &LogRecord, message: &str) -> (r: String)
    ensures
        clean_fields(opt_view(time), *record, message@) ==> strip_ansi(r@) == plain_target_line(
            opt_view(time),
            *record,
            message@,
        ),
{
    let ctime = colored_time(time);
    let clabel = colored_level(record.level);
    let target = record.target_or_module();
    let ctarget = paint_bold(target);
    let ct = as_opt_str(&ctime);
    let r = assemble_target(ct, clabel.as_str(), ctarget.as_str(), message);
    proof {
        if clean_fields(opt_view(time), *record, message@) {
            lemma_literals_no_escape();
            lemma_label_no_escape(record.level);
            lemma_painted_or_plain_shows(ctarget@, target@, bold_code());
            lemma_opening_shows(opt_view(ct), opt_view(time));
            let cp = target_pieces(opt_view(ct), clabel@, ctarget@, message@);
            let pp = target_pieces(
                opt_view(time),
                record.level.spec_padded_label(),
                target@,
                message@,
            );
            let oc = opening(opt_view(ct));
            let op = opening(opt_view(time));
            assert forall|i: int| 0 <= i < pp.len() implies no_escape(#[trigger] pp[i]) && shows(
                cp[i],
                pp[i],
            ) by {
                if i < op.len() {
                    assert(pp[i] == op[i]);
                    assert(cp[i] == oc[i]);
                }
            }
            lemma_strip_join(cp, pp);
        }
    }
    r
}

/// Renders the file-and-line layout with the time bright black, the level
/// label in its color, the file and target bold and the line number
/// magenta. With the escape sequences stripped it is the plain
/// file-and-line line, whenever the event's texts hold no escape character
/// themselves.
pub fn render_fileline_colored(time: Option<&str>, record: &LogRecord, message: &str) -> (r: String)
    ensures
        clean_fields(opt_view(time), *record, message@) ==> strip_ansi(r@) == plain_fileline_line(
            opt_view(time),
            *record,
            message@,
        ),
{
    let ctime = colored_time(time);
    let clabel = colored_level(record.level);
    let file = record.file_or_unknown();
    let cfile = paint_bold(file);
    let target = record.target_or_module();
    let ctarget = paint_bold(target);
    let line = record.line_text();
    proof {
        lemma_line_text_no_escape(*record);
    }
    let cline = paint_magenta(line.as_str());
    let ct = as_opt_str(&ctime);
    let r = assemble_fileline(
        ct,
        clabel.as_str(),
        cfile.as_str(),
        ctarget.as_str(),
        cline.as_str(),
        message,
    );
    proof {
        if clean_fields(opt_view(time), *record, message@) {
            lemma_literals_no_escape();
            lemma_label_no_escape(record.level);
            lemma_painted_or_plain_shows(ctarget@, target@, bold_code());
            lemma_painted_or_plain_shows(cfile@, file@, bold_code());
            assert(is_sgr_code(fg_code(35)));
            lemma_painted_or_plain_shows(cline@, line@, fg_code(35));
            lemma_opening_shows(opt_view(ct), opt_view(time));
            let cp = fileline_pieces(
                opt_view(ct),
                clabel@,
                cfile@,
                ctarget@,
                cline@,
                message@,
            );
            let pp = fileline_pieces(
                opt_view(time),
                record.level.spec_padded_label(),
                file@,
                target@,
                line@,
                message@,
            );
            let oc = opening(opt_view(ct));
            let op = opening(opt_view(time));
            assert forall|i: int| 0 <= i < pp.len() implies no_escape(#[trigger] pp[i]) && shows(
                cp[i],
                pp[i],
            ) by {
                if i < op.len() {
                    assert(pp[i] == op[i]);
                    assert(cp[i] == oc[i]);
                }
            }
            lemma_strip_join(cp, pp);
        }
    }
    r
}

} // verus!
