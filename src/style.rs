//! Terminal colors. A colored piece of text is the plain text, or the plain
//! text wrapped in a select-graphic-rendition escape sequence and a reset;
//! which of the two the `colored` crate produces depends on the terminal
//! settings of the process. Stripping the escape sequences from a colored
//! line gives back the plain line.

use vstd::prelude::*;
use colored::Colorize;
use crate::level::Severity;

verus! {

/// The escape character that starts a terminal control sequence.
pub open spec fn esc() -> char {
    '\x1b'
}

/// Text without any escape character.
pub open spec fn no_escape(s: Seq<char>) -> bool {
    forall|i: int| 0 <= i < s.len() ==> #[trigger] s[i] != esc()
}

/// A select-graphic-rendition parameter list: it holds no `m` and no escape.
pub open spec fn is_sgr_code(code: Seq<char>) -> bool {
    forall|i: int| 0 <= i < code.len() ==> #[trigger] code[i] != 'm' && code[i] != esc()
}

/// The control sequence `ESC [ <code> m`.
pub open spec fn sgr(code: Seq<char>) -> Seq<char> {
    seq![esc(), '['] + code + seq!['m']
}

/// Text wrapped in the style `code` and the reset sequence.
pub open spec fn painted(s: Seq<char>, code: Seq<char>) -> Seq<char> {
    sgr(code) + s + sgr(seq!['0'])
}

/// `c` shows the text `s`: plain, painted with the style `code`, or plain
/// and followed by a reset (what comes out when the process's color switch
/// is turned off while the text is being written).
pub open spec fn painted_or_plain(c: Seq<char>, s: Seq<char>, code: Seq<char>) -> bool {
    c == s || c == painted(s, code) || c == s + sgr(seq!['0'])
}

/// `c` shows the text `s`: plain, plain and followed by a reset, or painted
/// with some style.
pub open spec fn shows(c: Seq<char>, s: Seq<char>) -> bool {
    ||| c == s
    ||| c == s + sgr(seq!['0'])
    ||| exists|code: Seq<char>| is_sgr_code(code) && c == #[trigger] painted(s, code)
}

/// Stripping the control sequences from `c` followed by any text gives `p`
/// followed by that text stripped: `c` is a colored form of `p` that closes
/// all the sequences it opens.
pub open spec fn strips_to(c: Seq<char>, p: Seq<char>) -> bool {
    forall|t: Seq<char>| #[trigger] strip_from(c + t, false) == p + strip_from(t, false)
}

/// Removes the control sequences `ESC ... m` from text. `inside` tells
/// whether the text starts inside such a sequence.
pub open spec fn strip_from(s: Seq<char>, inside: bool) -> Seq<char>
    decreases s.len(),
{
    if s.len() == 0 {
        Seq::empty()
    } else if inside {
        strip_from(s.drop_first(), s[0] != 'm')
    } else if s[0] == esc() {
        strip_from(s.drop_first(), true)
    } else {
        seq![s[0]] + strip_from(s.drop_first(), false)
    }
}

/// Text with its terminal control sequences removed.
pub open spec fn strip_ansi(s: Seq<char>) -> Seq<char> {
    strip_from(s, false)
}

/// The concatenation of a sequence of pieces of text.
pub open spec fn join(pieces: Seq<Seq<char>>) -> Seq<char>
    decreases pieces.len(),
{
    if pieces.len() == 0 {
        Seq::empty()
    } else {
        pieces[0] + join(pieces.drop_first())
    }
}

/// Each colored piece shows the plain piece in the same place, and no plain
/// piece holds an escape character.
pub open spec fn pieces_show(colored: Seq<Seq<char>>, plain: Seq<Seq<char>>) -> bool {
    &&& colored.len() == plain.len()
    &&& forall|i: int| 0 <= i < plain.len() ==> no_escape(#[trigger] plain[i])
    &&& forall|i: int| 0 <= i < plain.len() ==> shows(#[trigger] colored[i], plain[i])
}

pub proof fn lemma_join_push(pieces: Seq<Seq<char>>, p: Seq<char>)
    ensures
        join(pieces.push(p)) == join(pieces) + p,
    decreases pieces.len(),
{
    if pieces.len() == 0 {
        assert(pieces.push(p).drop_first() =~= Seq::<Seq<char>>::empty());
        assert(pieces.push(p)[0] == p);
        assert(join(pieces.push(p)) == p + join(Seq::<Seq<char>>::empty()));
        assert(join(pieces.push(p)) =~= join(pieces) + p);
    } else {
        lemma_join_push(pieces.drop_first(), p);
        assert(pieces.push(p).drop_first() =~= pieces.drop_first().push(p));
        assert(pieces.push(p)[0] == pieces[0]);
        assert(join(pieces.push(p)) == pieces[0] + join(pieces.drop_first().push(p)));
        assert(join(pieces.push(p)) =~= join(pieces) + p);
    }
}

proof fn lemma_strip_clear_prefix(p: Seq<char>, t: Seq<char>)
    requires
        no_escape(p),
    ensures
        strip_from(p + t, false) == p + strip_from(t, false),
    decreases p.len(),
{
    if p.len() == 0 {
        assert(p + t =~= t);
        assert(p + strip_from(t, false) =~= strip_from(t, false));
    } else {
        assert(p[0] != esc());
        assert((p + t).drop_first() =~= p.drop_first() + t);
        lemma_strip_clear_prefix(p.drop_first(), t);
        assert(p =~= seq![p[0]] + p.drop_first());
        assert(strip_from(p + t, false) =~= p + strip_from(t, false));
    }
}

proof fn lemma_strip_inside_code(code: Seq<char>, t: Seq<char>)
    requires
        is_sgr_code(code),
    ensures
        strip_from(code + t, true) == strip_from(t, true),
    decreases code.len(),
{
    if code.len() == 0 {
        assert(code + t =~= t);
    } else {
        assert(code[0] != 'm');
        assert((code + t).drop_first() =~= code.drop_first() + t);
        lemma_strip_inside_code(code.drop_first(), t);
    }
}

proof fn lemma_strip_sgr(code: Seq<char>, t: Seq<char>)
    requires
        is_sgr_code(code),
    ensures
        strip_from(sgr(code) + t, false) == strip_from(t, false),
{
    let s = sgr(code) + t;
    assert(s[0] == esc());
    assert(s.drop_first() =~= seq!['['] + (code + (seq!['m'] + t)));
    assert(s.drop_first().drop_first() =~= code + (seq!['m'] + t));
    let d1 = s.drop_first();
    let d2 = d1.drop_first();
    assert(strip_from(s, false) == strip_from(d1, true));
    assert(d1[0] == '[');
    assert(strip_from(d1, true) == strip_from(d2, true));
    lemma_strip_inside_code(code, seq!['m'] + t);
    let mt = seq!['m'] + t;
    assert(mt[0] == 'm');
    assert(mt.drop_first() =~= t);
    assert(strip_from(mt, true) == strip_from(t, false));
}

proof fn lemma_strip_shown_piece(c: Seq<char>, p: Seq<char>, t: Seq<char>)
    requires
        shows(c, p),
        no_escape(p),
    ensures
        strip_from(c + t, false) == p + strip_from(t, false),
{
    let reset = seq!['0'];
    assert(is_sgr_code(reset));
    if c == p {
        lemma_strip_clear_prefix(p, t);
    } else if c == p + sgr(reset) {
        assert(c + t =~= p + (sgr(reset) + t));
        lemma_strip_clear_prefix(p, sgr(reset) + t);
        lemma_strip_sgr(reset, t);
    } else {
        let code = choose|code: Seq<char>| is_sgr_code(code) && c == #[trigger] painted(p, code);
        assert(c + t =~= sgr(code) + (p + (sgr(reset) + t)));
        lemma_strip_sgr(code, p + (sgr(reset) + t));
        lemma_strip_clear_prefix(p, sgr(reset) + t);
        lemma_strip_sgr(reset, t);
    }
}

/// Stripping the control sequences from pieces that each show a plain piece
/// gives the plain pieces back, joined.
pub proof fn lemma_strip_join(colored: Seq<Seq<char>>, plain: Seq<Seq<char>>)
    requires
        pieces_show(colored, plain),
    ensures
        strip_ansi(join(colored)) == join(plain),
    decreases plain.len(),
{
    if plain.len() == 0 {
    } else {
        let rest_c = colored.drop_first();
        let rest_p = plain.drop_first();
        assert(pieces_show(rest_c, rest_p)) by {
            assert forall|i: int| 0 <= i < rest_p.len() implies no_escape(#[trigger] rest_p[i]) by {
                assert(rest_p[i] == plain[i + 1]);
            }
            assert forall|i: int| 0 <= i < rest_p.len() implies shows(
                #[trigger] rest_c[i],
                rest_p[i],
            ) by {
                assert(rest_p[i] == plain[i + 1]);
                assert(rest_c[i] == colored[i + 1]);
            }
        }
        lemma_strip_join(rest_c, rest_p);
        assert(no_escape(plain[0]));
        assert(shows(colored[0], plain[0]));
        lemma_strip_shown_piece(colored[0], plain[0], join(rest_c));
    }
}

/// A shown piece of clean text strips to that text.
pub proof fn lemma_shows_strips_to(c: Seq<char>, p: Seq<char>)
    requires
        shows(c, p),
        no_escape(p),
    ensures
        strips_to(c, p),
{
    assert forall|t: Seq<char>| #[trigger] strip_from(c + t, false) == p + strip_from(t, false) by {
        lemma_strip_shown_piece(c, p, t);
    }
}

/// Clean text strips to itself.
pub proof fn lemma_clean_strips_to(p: Seq<char>)
    requires
        no_escape(p),
    ensures
        strips_to(p, p),
{
    assert forall|t: Seq<char>| #[trigger] strip_from(p + t, false) == p + strip_from(t, false) by {
        lemma_strip_clear_prefix(p, t);
    }
}

/// Two pieces that each strip to a text, side by side, strip to the two
/// texts side by side.
pub proof fn lemma_strips_to_concat(a: Seq<char>, pa: Seq<char>, b: Seq<char>, pb: Seq<char>)
    requires
        strips_to(a, pa),
        strips_to(b, pb),
    ensures
        strips_to(a + b, pa + pb),
{
    assert forall|t: Seq<char>| #[trigger] strip_from((a + b) + t, false) == (pa + pb) + strip_from(
        t,
        false,
    ) by {
        assert((a + b) + t =~= a + (b + t));
        assert(strip_from(a + (b + t), false) == pa + strip_from(b + t, false));
        assert(strip_from(b + t, false) == pb + strip_from(t, false));
        assert((pa + pb) + strip_from(t, false) =~= pa + (pb + strip_from(t, false)));
    }
}

/// A piece that strips to a text, taken alone, strips to that text.
pub proof fn lemma_strips_to_strip(c: Seq<char>, p: Seq<char>)
    requires
        strips_to(c, p),
    ensures
        strip_ansi(c) == p,
{
    let e = Seq::<char>::empty();
    assert(strip_from(c + e, false) == p + strip_from(e, false));
    assert(c + e =~= c);
    assert(p + strip_from(e, false) =~= p);
}

/// A piece that is shown plain or painted with a style code shows its text.
pub proof fn lemma_painted_or_plain_shows(c: Seq<char>, s: Seq<char>, code: Seq<char>)
    requires
        painted_or_plain(c, s, code),
        is_sgr_code(code),
    ensures
        shows(c, s),
{
    if c != s && c != s + sgr(seq!['0']) {
        assert(is_sgr_code(code) && c == painted(s, code));
    }
}

/// The style code of bold text.
pub open spec fn bold_code() -> Seq<char> {
    seq!['1']
}

/// The style code of a foreground color, by its number.
pub open spec fn fg_code(n: nat) -> Seq<char> {
    seq![(('0' as u32) + n / 10) as char, (('0' as u32) + n % 10) as char]
}

/// Relies on colored's `Colorize::bold` and the `Display` of its result: the
/// text as it is when the process does not color, else wrapped in `ESC[1m`
/// and `ESC[0m` (its inner resets are only rewritten when it holds one), or
/// followed by `ESC[0m` alone when the color switch turns off meanwhile.
#[verifier::external_body]
pub(crate) fn paint_bold(s: &str) -> (r: String)
    ensures
        no_escape(s@) ==> painted_or_plain(r@, s@, bold_code()),
{
    s.bold().to_string()
}

/// Relies on colored's `Colorize::bright_black` and the `Display` of its result:
/// plain, wrapped in `ESC[90m` and `ESC[0m`, or plain and followed by
/// `ESC[0m` when the color switch turns off meanwhile.
#[verifier::external_body]
pub(crate) fn paint_bright_black(s: &str) -> (r: String)
    ensures
        no_escape(s@) ==> painted_or_plain(r@, s@, fg_code(90)),
{
    s.bright_black().to_string()
}

/// Relies on colored's `Colorize::magenta` and the `Display` of its result:
/// plain, wrapped in `ESC[35m` and `ESC[0m`, or plain and followed by
/// `ESC[0m` when the color switch turns off meanwhile.
#[verifier::external_body]
pub(crate) fn paint_magenta(s: &str) -> (r: String)
    ensures
        no_escape(s@) ==> painted_or_plain(r@, s@, fg_code(35)),
{
    s.magenta().to_string()
}

/// Relies on colored's `Colorize::cyan` and the `Display` of its result:
/// plain, wrapped in `ESC[36m` and `ESC[0m`, or plain and followed by
/// `ESC[0m` when the color switch turns off meanwhile.
#[verifier::external_body]
pub(crate) fn paint_cyan(s: &str) -> (r: String)
    ensures
        no_escape(s@) ==> painted_or_plain(r@, s@, fg_code(36)),
{
    s.cyan().to_string()
}

/// Relies on colored's `Colorize::blue` and the `Display` of its result:
/// plain, wrapped in `ESC[34m` and `ESC[0m`, or plain and followed by
/// `ESC[0m` when the color switch turns off meanwhile.
#[verifier::external_body]
pub(crate) fn paint_blue(s: &str) -> (r: String)
    ensures
        no_escape(s@) ==> painted_or_plain(r@, s@, fg_code(34)),
{
    s.blue().to_string()
}

/// Relies on colored's `Colorize::green` and the `Display` of its result:
/// plain, wrapped in `ESC[32m` and `ESC[0m`, or plain and followed by
/// `ESC[0m` when the color switch turns off meanwhile.
#[verifier::external_body]
pub(crate) fn paint_green(s: &str) -> (r: String)
    ensures
        no_escape(s@) ==> painted_or_plain(r@, s@, fg_code(32)),
{
    s.green().to_string()
}

/// Relies on colored's `Colorize::yellow` and the `Display` of its result:
/// plain, wrapped in `ESC[33m` and `ESC[0m`, or plain and followed by
/// `ESC[0m` when the color switch turns off meanwhile.
#[verifier::external_body]
pub(crate) fn paint_yellow(s: &str) -> (r: String)
    ensures
        no_escape(s@) ==> painted_or_plain(r@, s@, fg_code(33)),
{
    s.yellow().to_string()
}

/// Relies on colored's `Colorize::red` and the `Display` of its result:
/// plain, wrapped in `ESC[31m` and `ESC[0m`, or plain and followed by
/// `ESC[0m` when the color switch turns off meanwhile.
#[verifier::external_body]
pub(crate) fn paint_red(s: &str) -> (r: String)
    ensures
        no_escape(s@) ==> painted_or_plain(r@, s@, fg_code(31)),
{
    s.red().to_string()
}

/// The color of each severity's label: cyan, blue, green, yellow, red.
pub open spec fn level_color(level: Severity) -> Seq<char> {
    match level {
        Severity::Trace => fg_code(36),
        Severity::Debug => fg_code(34),
        Severity::Info => fg_code(32),
        Severity::Warn => fg_code(33),
        Severity::Error => fg_code(31),
    }
}

/// The padded label of a severity in that severity's color (or plain, when
/// the process does not color).
pub fn colored_level(level: Severity) -> (r: String)
    ensures
        painted_or_plain(r@, level.spec_padded_label(), level_color(level)),
        shows(r@, level.spec_padded_label()),
{
    let label = level.padded_label();
    assert(no_escape(label@));
    let r = match level {
        Severity::Trace => paint_cyan(label),
        Severity::Debug => paint_blue(label),
        Severity::Info => paint_green(label),
        Severity::Warn => paint_yellow(label),
        Severity::Error => paint_red(label),
    };
    proof {
        let code = level_color(level);
        assert(is_sgr_code(code));
        lemma_painted_or_plain_shows(r@, label@, code);
    }
    r
}

} // verus!
