//! The alert preprocessor: converts GitHub-style alert blockquotes
//! (`> [!NOTE]` and the four other kinds) into literal HTML before the text
//! reaches the Markdown parser.

use vstd::prelude::*;

use crate::events::{events_to_html, html_of, md_events_of, parse_markdown};
use crate::lines::{
    first_nl, join_lines, lemma_first_nl, line_views, spec_join_lines, spec_lines, spec_trim,
    split_lines, strip_cr, trim_chars,
};
use crate::text::{chars_of, extend_chars, extend_str, starts_with_chars, string_of, tail_from};

verus! {

/// The five alert kinds that GitHub-style Markdown recognizes.
#[derive(Clone, Copy, PartialEq, Eq, Debug)]
pub enum AlertKind {
    Note,
    Tip,
    Important,
    Warning,
    Caution,
}

impl AlertKind {
    /// The upper-case kind name, as it stands in the marker and the title.
    pub open spec fn spec_name(self) -> Seq<char> {
        match self {
            AlertKind::Note => "NOTE"@,
            AlertKind::Tip => "TIP"@,
            AlertKind::Important => "IMPORTANT"@,
            AlertKind::Warning => "WARNING"@,
            AlertKind::Caution => "CAUTION"@,
        }
    }

    /// The lower-case kind name, as it stands in the CSS classes.
    pub open spec fn spec_class(self) -> Seq<char> {
        match self {
            AlertKind::Note => "note"@,
            AlertKind::Tip => "tip"@,
            AlertKind::Important => "important"@,
            AlertKind::Warning => "warning"@,
            AlertKind::Caution => "caution"@,
        }
    }

    /// The upper-case kind name.
    pub fn name(self) -> (r: &'static str)
        ensures
            r@ == self.spec_name(),
    {
        match self {
            AlertKind::Note => "NOTE",
            AlertKind::Tip => "TIP",
            AlertKind::Important => "IMPORTANT",
            AlertKind::Warning => "WARNING",
            AlertKind::Caution => "CAUTION",
        }
    }

    /// The lower-case kind name.
    pub fn class(self) -> (r: &'static str)
        ensures
            r@ == self.spec_class(),
    {
        match self {
            AlertKind::Note => "note",
            AlertKind::Tip => "tip",
            AlertKind::Important => "important",
            AlertKind::Warning => "warning",
            AlertKind::Caution => "caution",
        }
    }
}

/// The marker that opens an alert of the given kind: `> [!KIND]`.
pub open spec fn spec_marker(k: AlertKind) -> Seq<char> {
    "> [!"@ + k.spec_name() + "]"@
}

/// Which alert, if any, a line opens: the first kind whose marker prefixes
/// the line, together with the text after the marker.
pub open spec fn spec_alert_start(line: Seq<char>) -> Option<(AlertKind, Seq<char>)> {
    if spec_marker(AlertKind::Note).is_prefix_of(line) {
        Some((AlertKind::Note, line.skip(spec_marker(AlertKind::Note).len() as int)))
    } else if spec_marker(AlertKind::Tip).is_prefix_of(line) {
        Some((AlertKind::Tip, line.skip(spec_marker(AlertKind::Tip).len() as int)))
    } else if spec_marker(AlertKind::Important).is_prefix_of(line) {
        Some((AlertKind::Important, line.skip(spec_marker(AlertKind::Important).len() as int)))
    } else if spec_marker(AlertKind::Warning).is_prefix_of(line) {
        Some((AlertKind::Warning, line.skip(spec_marker(AlertKind::Warning).len() as int)))
    } else if spec_marker(AlertKind::Caution).is_prefix_of(line) {
        Some((AlertKind::Caution, line.skip(spec_marker(AlertKind::Caution).len() as int)))
    } else {
        None
    }
}

/// Decides whether a line opens an alert, exactly as `spec_alert_start` says.
pub fn parse_alert_start_chars(line: &Vec<char>) -> (r: Option<(AlertKind, Vec<char>)>)
    ensures
        match r {
            Some(p) => spec_alert_start(line@) == Some((p.0, p.1@)),
            None => spec_alert_start(line@) is None,
        },
{
    let m_note = chars_of("> [!NOTE]");
    proof {
        reveal_strlit("> [!NOTE]");
        reveal_strlit("> [!");
        reveal_strlit("NOTE");
        reveal_strlit("]");
        assert(m_note@ =~= spec_marker(AlertKind::Note));
    }
    if starts_with_chars(line, &m_note) {
        let rest = tail_from(line, m_note.len());
        return Some((AlertKind::Note, rest));
    }
    let m_tip = chars_of("> [!TIP]");
    proof {
        reveal_strlit("> [!TIP]");
        reveal_strlit("TIP");
        assert(m_tip@ =~= spec_marker(AlertKind::Tip));
    }
    if starts_with_chars(line, &m_tip) {
        let rest = tail_from(line, m_tip.len());
        return Some((AlertKind::Tip, rest));
    }
    let m_important = chars_of("> [!IMPORTANT]");
    proof {
        reveal_strlit("> [!IMPORTANT]");
        reveal_strlit("IMPORTANT");
        assert(m_important@ =~= spec_marker(AlertKind::Important));
    }
    if starts_with_chars(line, &m_important) {
        let rest = tail_from(line, m_important.len());
        return Some((AlertKind::Important, rest));
    }
    let m_warning = chars_of("> [!WARNING]");
    proof {
        reveal_strlit("> [!WARNING]");
        reveal_strlit("WARNING");
        assert(m_warning@ =~= spec_marker(AlertKind::Warning));
    }
    if starts_with_chars(line, &m_warning) {
        let rest = tail_from(line, m_warning.len());
        return Some((AlertKind::Warning, rest));
    }
    let m_caution = chars_of("> [!CAUTION]");
    proof {
        reveal_strlit("> [!CAUTION]");
        reveal_strlit("CAUTION");
        assert(m_caution@ =~= spec_marker(AlertKind::Caution));
    }
    if starts_with_chars(line, &m_caution) {
        let rest = tail_from(line, m_caution.len());
        return Some((AlertKind::Caution, rest));
    }
    None
}

/// Decides whether a line opens an alert; `Some` carries the kind and the
/// text after the marker.
pub fn parse_alert_start(line: &str) -> (r: Option<(AlertKind, String)>)
    ensures
        match r {
            Some(p) => spec_alert_start(line@) == Some((p.0, p.1@)),
            None => spec_alert_start(line@) is None,
        },
{
    let lc = chars_of(line);
    match parse_alert_start_chars(&lc) {
        Some((k, rest)) => Some((k, string_of(&rest))),
        None => None,
    }
}

/// The empty icon placeholder for an alert type; the client script injects
/// the actual glyph.
pub open spec fn spec_icon_placeholder(alert_type: Seq<char>) -> Seq<char> {
    "<span class=\"alert-icon\" data-alert-type=\""@ + alert_type + "\"></span>"@
}

/// Builds the icon placeholder for an alert type.
pub fn get_alert_icon_placeholder(alert_type: &str) -> (r: String)
    ensures
        r@ == spec_icon_placeholder(alert_type@),
{
    let mut out: Vec<char> = Vec::new();
    extend_str(&mut out, "<span class=\"alert-icon\" data-alert-type=\"");
    extend_str(&mut out, alert_type);
    extend_str(&mut out, "\"></span>");
    proof {
        assert(out@ =~= spec_icon_placeholder(alert_type@));
    }
    string_of(&out)
}

/// The opening `div` of one alert block.
pub open spec fn spec_alert_open(k: AlertKind) -> Seq<char> {
    "<div class=\"markdown-alert markdown-alert-"@ + k.spec_class() + "\" dir=\"auto\">"@
}

/// The title paragraph of one alert block: icon placeholder, then the
/// upper-case kind name.
pub open spec fn spec_alert_title(k: AlertKind) -> Seq<char> {
    "<p class=\"markdown-alert-title\" dir=\"auto\">"@ + spec_icon_placeholder(k.spec_class())
        + k.spec_name() + "</p>"@
}

/// True when a line continues a quote block: it starts with `>`.
pub open spec fn is_quote_line(line: Seq<char>) -> bool {
    line.len() > 0 && line[0] == '>'
}

/// A continuation line's content: the `>` prefix and one optional following
/// space removed.
pub open spec fn strip_quote(line: Seq<char>) -> Seq<char> {
    let t = line.skip(1);
    if t.len() > 0 && t[0] == ' ' {
        t.skip(1)
    } else {
        t
    }
}

/// Removes the `>` prefix and one optional following space, exactly as
/// `strip_quote` says.
pub fn strip_quote_chars(line: &Vec<char>) -> (r: Vec<char>)
    requires
        is_quote_line(line@),
    ensures
        r@ == strip_quote(line@),
{
    if line.len() > 1 && line[1] == ' ' {
        let r = tail_from(line, 2);
        proof {
            assert(line@.skip(1).skip(1) =~= line@.skip(2));
        }
        r
    } else {
        tail_from(line, 1)
    }
}

/// The number of leading quote lines.
pub open spec fn spec_quote_run(lines: Seq<Seq<char>>) -> int
    decreases lines.len(),
{
    if lines.len() > 0 && is_quote_line(lines[0]) {
        1 + spec_quote_run(lines.skip(1))
    } else {
        0
    }
}

/// The quote run is the exact count of leading quote lines.
pub proof fn lemma_quote_run(lines: Seq<Seq<char>>)
    ensures
        0 <= spec_quote_run(lines) <= lines.len(),
        forall|j: int| 0 <= j < spec_quote_run(lines) ==> is_quote_line(lines[j]),
        spec_quote_run(lines) < lines.len() ==> !is_quote_line(lines[spec_quote_run(lines)]),
    decreases lines.len(),
{
    if lines.len() > 0 && is_quote_line(lines[0]) {
        lemma_quote_run(lines.skip(1));
        assert forall|j: int| 0 <= j < spec_quote_run(lines) implies is_quote_line(lines[j]) by {
            if j >= 1 {
                assert(lines[j] == lines.skip(1)[j - 1]);
            }
        }
        if spec_quote_run(lines) < lines.len() {
            assert(lines[spec_quote_run(lines)] == lines.skip(1)[spec_quote_run(lines.skip(1))]);
        }
    }
}

/// The content lines of one alert block: the trimmed text after the marker
/// (when non-empty), then each continuation line stripped of its quote
/// prefix.
pub open spec fn spec_alert_content(rest: Seq<char>, cont: Seq<Seq<char>>) -> Seq<Seq<char>> {
    let first: Seq<Seq<char>> = if spec_trim(rest).len() > 0 {
        seq![spec_trim(rest)]
    } else {
        Seq::<Seq<char>>::empty()
    };
    first + cont.map_values(|l: Seq<char>| strip_quote(l))
}

/// The HTML lines that one alert block becomes: opening `div`, title, the
/// content re-rendered as nested Markdown (when there is any), and the
/// closing `div`.
pub open spec fn spec_alert_block(k: AlertKind, rest: Seq<char>, cont: Seq<Seq<char>>) -> Seq<
    Seq<char>,
> {
    let content = spec_alert_content(rest, cont);
    let body: Seq<Seq<char>> = if content.len() == 0 {
        Seq::<Seq<char>>::empty()
    } else {
        seq![html_of(md_events_of(spec_join_lines(content)))]
    };
    seq![spec_alert_open(k), spec_alert_title(k)] + body + seq!["</div>"@]
}

#[via_fn]
proof fn spec_process_lines_decreases(lines: Seq<Seq<char>>) {
    if lines.len() > 0 {
        match spec_alert_start(lines[0]) {
            Some(_) => lemma_quote_run(lines.skip(1)),
            None => {},
        }
    }
}

/// The line-by-line alert transform: a line that opens an alert consumes the
/// following quote lines and becomes the block's HTML lines; every other
/// line passes through unchanged, in order.
pub open spec fn spec_process_lines(lines: Seq<Seq<char>>) -> Seq<Seq<char>>
    decreases lines.len(),
    via spec_process_lines_decreases
{
    if lines.len() == 0 {
        Seq::<Seq<char>>::empty()
    } else {
        match spec_alert_start(lines[0]) {
            Some(p) => {
                let run = spec_quote_run(lines.skip(1));
                spec_alert_block(p.0, p.1, lines.skip(1).take(run)) + spec_process_lines(
                    lines.skip(1 + run),
                )
            },
            None => seq![lines[0]] + spec_process_lines(lines.skip(1)),
        }
    }
}

/// The whole alert preprocess: split into lines, transform, join with
/// newlines.
pub open spec fn spec_alerts(s: Seq<char>) -> Seq<char> {
    spec_join_lines(spec_process_lines(spec_lines(s)))
}

/// Law: lines of which none opens an alert pass through the line transform
/// unchanged, each in its original place.
pub proof fn lemma_process_lines_identity(lines: Seq<Seq<char>>)
    requires
        forall|i: int| 0 <= i < lines.len() ==> spec_alert_start(lines[i]) is None,
    ensures
        spec_process_lines(lines) == lines,
    decreases lines.len(),
{
    if lines.len() == 0 {
        assert(spec_process_lines(lines) =~= lines);
    } else {
        assert(spec_alert_start(lines[0]) is None);
        assert(forall|i: int|
            0 <= i < lines.skip(1).len() ==> lines.skip(1)[i] == lines[i + 1]);
        lemma_process_lines_identity(lines.skip(1));
        assert(seq![lines[0]] + lines.skip(1) =~= lines);
    }
}

/// Splitting a text into lines and joining them again is lossless when the
/// text holds no carriage return and does not end with a newline.
pub proof fn lemma_join_lines_inverse(s: Seq<char>)
    requires
        forall|i: int| 0 <= i < s.len() ==> s[i] != '\r',
        s.len() > 0 ==> s.last() != '\n',
    ensures
        spec_join_lines(spec_lines(s)) == s,
    decreases s.len(),
{
    if s.len() == 0 {
        assert(spec_join_lines(spec_lines(s)) =~= s);
    } else {
        lemma_first_nl(s);
        let n = first_nl(s);
        if n == s.len() {
            assert(strip_cr(s) == s);
            assert(spec_join_lines(seq![s]) == s);
        } else {
            let rest = s.skip(n + 1);
            let line = s.take(n);
            assert(strip_cr(line) == line) by {
                if line.len() > 0 {
                    assert(line.last() == s[n - 1]);
                }
            }
            assert(rest.len() > 0) by {
                if n + 1 == s.len() {
                    assert(s.last() == s[n]);
                }
            }
            assert(forall|i: int| 0 <= i < rest.len() ==> rest[i] == s[n + 1 + i]);
            assert(rest.last() == s.last());
            lemma_join_lines_inverse(rest);
            let rl = spec_lines(rest);
            assert(rl.len() > 0);
            let all = seq![line] + rl;
            assert(spec_lines(s) == all);
            assert(all.len() >= 2);
            assert(all[0] == line);
            assert(all.skip(1) =~= rl);
            assert(spec_join_lines(all) == line + seq!['\n'] + spec_join_lines(rl));
            assert(line + seq!['\n'] + rest =~= s);
        }
    }
}

/// Law: a text in which no line opens an alert passes through the whole
/// preprocessor unchanged, provided it holds no carriage return and does not
/// end with a newline (so that splitting and rejoining its lines is
/// lossless).
pub proof fn lemma_alerts_identity(s: Seq<char>)
    requires
        forall|i: int|
            0 <= i < spec_lines(s).len() ==> spec_alert_start(spec_lines(s)[i]) is None,
        forall|i: int| 0 <= i < s.len() ==> s[i] != '\r',
        s.len() > 0 ==> s.last() != '\n',
    ensures
        spec_alerts(s) == s,
{
    lemma_process_lines_identity(spec_lines(s));
    lemma_join_lines_inverse(s);
}

/// Law: a marker line followed only by quote lines becomes exactly one
/// alert block: the opening `div`, the title, the nested-rendered body of
/// all stripped continuation lines taken together and in order, and the
/// closing `div` - nothing else.
pub proof fn lemma_single_alert_block(lines: Seq<Seq<char>>)
    requires
        lines.len() > 0,
        spec_alert_start(lines[0]) is Some,
        forall|j: int| 1 <= j < lines.len() ==> is_quote_line(lines[j]),
    ensures
        ({
            let p = spec_alert_start(lines[0]).unwrap();
            spec_process_lines(lines) == spec_alert_block(p.0, p.1, lines.skip(1))
        }),
{
    let rest = lines.skip(1);
    lemma_quote_run(rest);
    assert(forall|j: int| 0 <= j < rest.len() ==> rest[j] == lines[j + 1]);
    assert(spec_quote_run(rest) == rest.len()) by {
        if spec_quote_run(rest) < rest.len() {
            assert(is_quote_line(lines[spec_quote_run(rest) + 1]));
            assert(!is_quote_line(rest[spec_quote_run(rest)]));
        }
    }
    assert(rest.take(rest.len() as int) =~= rest);
    assert(lines.skip(1 + rest.len() as int) =~= Seq::<Seq<char>>::empty());
    assert(spec_process_lines(Seq::<Seq<char>>::empty()) =~= Seq::<Seq<char>>::empty());
    let p = spec_alert_start(lines[0]).unwrap();
    assert(spec_alert_block(p.0, p.1, rest) + Seq::<Seq<char>>::empty() =~= spec_alert_block(
        p.0,
        p.1,
        rest,
    ));
}

/// Builds the HTML lines of one alert block, exactly as `spec_alert_block`
/// says. `cont` holds the continuation lines still carrying their `>`
/// prefixes.
fn alert_block_lines(k: AlertKind, rest: &Vec<char>, cont: &Vec<Vec<char>>) -> (r: Vec<Vec<char>>)
    requires
        forall|j: int| 0 <= j < cont@.len() ==> is_quote_line(cont@[j]@),
    ensures
        line_views(r@) == spec_alert_block(k, rest@, line_views(cont@)),
{
    let mut out: Vec<Vec<char>> = Vec::new();

    let mut open_line: Vec<char> = Vec::new();
    extend_str(&mut open_line, "<div class=\"markdown-alert markdown-alert-");
    extend_str(&mut open_line, k.class());
    extend_str(&mut open_line, "\" dir=\"auto\">");
    proof {
        assert(open_line@ =~= spec_alert_open(k));
    }
    out.push(open_line);

    let mut title_line: Vec<char> = Vec::new();
    extend_str(&mut title_line, "<p class=\"markdown-alert-title\" dir=\"auto\">");
    extend_str(&mut title_line, "<span class=\"alert-icon\" data-alert-type=\"");
    extend_str(&mut title_line, k.class());
    extend_str(&mut title_line, "\"></span>");
    extend_str(&mut title_line, k.name());
    extend_str(&mut title_line, "</p>");
    proof {
        assert(title_line@ =~= spec_alert_title(k));
    }
    out.push(title_line);

    // Collect the content lines.
    let mut content: Vec<Vec<char>> = Vec::new();
    let trimmed = trim_chars(rest);
    if trimmed.len() > 0 {
        content.push(trimmed);
    }
    let mut j: usize = 0;
    while j < cont.len()
        invariant
            j <= cont@.len(),
            forall|m: int| 0 <= m < cont@.len() ==> is_quote_line(cont@[m]@),
            line_views(content@) == spec_alert_content(
                rest@,
                line_views(cont@).take(j as int),
            ),
        decreases cont@.len() - j,
    {
        let stripped = strip_quote_chars(&cont[j]);
        let ghost content_old = content@;
        content.push(stripped);
        proof {
            let cv = line_views(cont@);
            assert(cv.take(j + 1 as int) =~= cv.take(j as int).push(cv[j as int]));
            assert(cv.take(j as int).map_values(|l: Seq<char>| strip_quote(l)).push(
                strip_quote(cv[j as int]),
            ) =~= cv.take(j + 1 as int).map_values(|l: Seq<char>| strip_quote(l)));
            assert(line_views(content@) =~= line_views(content_old).push(stripped@));
            assert(line_views(content@) =~= spec_alert_content(rest@, cv.take(j + 1 as int)));
        }
        j = j + 1;
    }
    proof {
        assert(line_views(cont@).take(cont@.len() as int) =~= line_views(cont@));
    }

    // Re-render the collected content as nested Markdown.
    if content.len() > 0 {
        let content_chars = join_lines(&content);
        let content_md = string_of(&content_chars);
        let inner = events_to_html(parse_markdown(content_md.as_str()));
        let inner_chars = chars_of(inner.as_str());
        out.push(inner_chars);
    }

    let mut close_line: Vec<char> = Vec::new();
    extend_str(&mut close_line, "</div>");
    proof {
        assert(close_line@ =~= "</div>"@);
    }
    out.push(close_line);

    proof {
        assert(line_views(out@) =~= spec_alert_block(k, rest@, line_views(cont@)));
    }
    out
}

/// Converts every GitHub-style alert blockquote into literal HTML, exactly
/// as `spec_alerts` says; all other lines pass through unchanged, in order.
#[verifier::rlimit(100)]
pub fn process_github_alerts(markdown: &str) -> (r: String)
    ensures
        r@ == spec_alerts(markdown@),
{
    let chars = chars_of(markdown);
    let lines = split_lines(&chars);
    let ghost lv = line_views(lines@);
    let mut out: Vec<Vec<char>> = Vec::new();
    let mut i: usize = 0;
    proof {
        assert(lv.skip(0) =~= lv);
        assert(line_views(Seq::<Vec<char>>::empty()) + spec_process_lines(lv)
            =~= spec_process_lines(lv));
    }
    while i < lines.len()
        invariant
            i <= lines@.len(),
            lv == line_views(lines@),
            line_views(out@) + spec_process_lines(lv.skip(i as int)) == spec_process_lines(lv),
        decreases lines@.len() - i,
    {
        let ghost suffix = lv.skip(i as int);
        proof {
            assert(suffix[0] == lv[i as int]);
        }
        match parse_alert_start_chars(&lines[i]) {
            Some((k, rest)) => {
                // Gather the continuation lines that start with `>`.
                let mut cont: Vec<Vec<char>> = Vec::new();
                let mut j: usize = i + 1;
                while j < lines.len() && lines[j].len() > 0 && lines[j][0] == '>'
                    invariant
                        i + 1 <= j <= lines@.len(),
                        lv == line_views(lines@),
                        cont@.len() == j - i - 1,
                        forall|m: int|
                            0 <= m < cont@.len() ==> cont@[m]@ == lv[i + 1 + m]
                                && is_quote_line(cont@[m]@),
                    decreases lines@.len() - j,
                {
                    let mut copy: Vec<char> = Vec::new();
                    extend_chars(&mut copy, &lines[j]);
                    cont.push(copy);
                    j = j + 1;
                }
                proof {
                    let after = lv.skip(i + 1 as int);
                    lemma_quote_run(after);
                    assert(forall|m: int| 0 <= m < after.len() ==> after[m] == lv[i + 1 + m]);
                    assert(spec_quote_run(after) == cont@.len()) by {
                        if spec_quote_run(after) < cont@.len() {
                            let run = spec_quote_run(after);
                            assert(cont@[run]@ == lv[i + 1 + run]);
                            assert(after[run] == lv[i + 1 + run]);
                            assert(is_quote_line(cont@[run]@));
                            assert(!is_quote_line(after[run]));
                            assert(false);
                        }
                        if spec_quote_run(after) > cont@.len() {
                            assert(cont@.len() < after.len());
                            assert(j < lines@.len());
                            assert(after[cont@.len() as int] == lv[j as int]);
                            assert(lv[j as int] == lines@[j as int]@);
                            assert(is_quote_line(after[cont@.len() as int]));
                            assert(false);
                        }
                    }
                    assert(line_views(cont@) =~= after.take(cont@.len() as int));
                }
                let block = alert_block_lines(k, &rest, &cont);
                let ghost out_old = out@;
                let mut b = block;
                let ghost bv = line_views(b@);
                // Append the block's lines to the output.
                let mut t: usize = 0;
                while t < b.len()
                    invariant
                        t <= b@.len(),
                        bv == line_views(b@),
                        line_views(out@) == line_views(out_old) + bv.take(t as int),
                    decreases b@.len() - t,
                {
                    let mut copy: Vec<char> = Vec::new();
                    extend_chars(&mut copy, &b[t]);
                    let ghost o = out@;
                    out.push(copy);
                    proof {
                        assert(line_views(out@) =~= line_views(o).push(copy@));
                        assert(bv.take(t + 1 as int) =~= bv.take(t as int).push(bv[t as int]));
                    }
                    t = t + 1;
                }
                proof {
                    assert(bv.take(b@.len() as int) =~= bv);
                    let run = spec_quote_run(lv.skip(i + 1 as int));
                    assert(suffix.skip(1) =~= lv.skip(i + 1 as int));
                    assert(spec_process_lines(suffix) == spec_alert_block(
                        k,
                        rest@,
                        suffix.skip(1).take(run),
                    ) + spec_process_lines(suffix.skip(1 + run)));
                    assert(suffix.skip(1).take(run) =~= line_views(cont@));
                    assert(suffix.skip(1 + run) =~= lv.skip(j as int));
                    assert(line_views(out@) + spec_process_lines(lv.skip(j as int))
                        =~= line_views(out_old) + spec_process_lines(suffix));
                }
                i = j;
            },
            None => {
                let mut copy: Vec<char> = Vec::new();
                extend_chars(&mut copy, &lines[i]);
                let ghost out_old = out@;
                out.push(copy);
                proof {
                    assert(line_views(out@) =~= line_views(out_old).push(lv[i as int]));
                    assert(spec_process_lines(suffix) == seq![suffix[0]] + spec_process_lines(
                        suffix.skip(1),
                    ));
                    assert(suffix.skip(1) =~= lv.skip(i + 1 as int));
                    assert(line_views(out@) + spec_process_lines(lv.skip(i + 1 as int))
                        =~= line_views(out_old) + spec_process_lines(suffix));
                }
                i = i + 1;
            },
        }
    }
    proof {
        assert(lv.skip(lines@.len() as int) =~= Seq::<Seq<char>>::empty());
        assert(spec_process_lines(Seq::<Seq<char>>::empty()) =~= Seq::<Seq<char>>::empty());
        assert(line_views(out@) =~= spec_process_lines(lv));
    }
    let joined = join_lines(&out);
    string_of(&joined)
}

} // verus!
