//! Line-oriented view of a text: splitting at newlines (with an optional
//! carriage return before each), joining with newlines, and trimming.

use vstd::prelude::*;

use crate::text::extend_chars;

verus! {

/// Index of the first newline in `s`, or `s.len()` when there is none.
pub open spec fn first_nl(s: Seq<char>) -> int
    decreases s.len(),
{
    if s.len() == 0 {
        0
    } else if s[0] == '\n' {
        0
    } else {
        1 + first_nl(s.skip(1))
    }
}

/// `first_nl` points at the first newline: it is in bounds, everything before
/// it is not a newline, and it is a newline unless the text holds none.
pub proof fn lemma_first_nl(s: Seq<char>)
    ensures
        0 <= first_nl(s) <= s.len(),
        forall|j: int| 0 <= j < first_nl(s) ==> s[j] != '\n',
        first_nl(s) < s.len() ==> s[first_nl(s)] == '\n',
    decreases s.len(),
{
    if s.len() == 0 {
    } else if s[0] == '\n' {
    } else {
        lemma_first_nl(s.skip(1));
        assert forall|j: int| 0 <= j < first_nl(s) implies s[j] != '\n' by {
            if j >= 1 {
                assert(s[j] == s.skip(1)[j - 1]);
            }
        }
    }
}

/// A line with one trailing carriage return removed, if it has one.
pub open spec fn strip_cr(line: Seq<char>) -> Seq<char> {
    if line.len() > 0 && line.last() == '\r' {
        line.drop_last()
    } else {
        line
    }
}

#[via_fn]
proof fn spec_lines_decreases(s: Seq<char>) {
    lemma_first_nl(s);
}

/// The lines of a text: split at `\n`, one trailing `\r` removed from each
/// line, and no final empty line after a trailing newline.
pub open spec fn spec_lines(s: Seq<char>) -> Seq<Seq<char>>
    decreases s.len(),
    via spec_lines_decreases
{
    if s.len() == 0 {
        Seq::<Seq<char>>::empty()
    } else {
        let n = first_nl(s);
        if n == s.len() {
            seq![strip_cr(s)]
        } else {
            seq![strip_cr(s.take(n))] + spec_lines(s.skip(n + 1))
        }
    }
}

/// The text with the given lines, separated by single newlines.
pub open spec fn spec_join_lines(lines: Seq<Seq<char>>) -> Seq<char>
    decreases lines.len(),
{
    if lines.len() == 0 {
        Seq::<char>::empty()
    } else if lines.len() == 1 {
        lines[0]
    } else {
        lines[0] + seq!['\n'] + spec_join_lines(lines.skip(1))
    }
}

/// Joining after appending one line appends a newline and that line (except
/// to an empty sequence of lines).
pub proof fn lemma_join_snoc(lines: Seq<Seq<char>>, l: Seq<char>)
    ensures
        lines.len() == 0 ==> spec_join_lines(lines.push(l)) == l,
        lines.len() > 0 ==> spec_join_lines(lines.push(l)) == spec_join_lines(lines) + seq!['\n']
            + l,
    decreases lines.len(),
{
    if lines.len() == 0 {
        assert(lines.push(l)[0] == l);
    } else if lines.len() == 1 {
        assert(lines.push(l).skip(1) =~= seq![l]);
        assert(spec_join_lines(seq![l]) == l);
        assert(spec_join_lines(lines.push(l)) == lines[0] + seq!['\n'] + l);
    } else {
        lemma_join_snoc(lines.skip(1), l);
        assert(lines.push(l).skip(1) =~= lines.skip(1).push(l));
        assert(spec_join_lines(lines.push(l)) == lines[0] + seq!['\n'] + spec_join_lines(
            lines.skip(1).push(l),
        ));
        assert(lines[0] + seq!['\n'] + (spec_join_lines(lines.skip(1)) + seq!['\n'] + l) =~= (
        lines[0] + seq!['\n'] + spec_join_lines(lines.skip(1))) + seq!['\n'] + l);
    }
}

/// The views of a vector of character-vector lines.
pub open spec fn line_views(s: Seq<Vec<char>>) -> Seq<Seq<char>> {
    s.map_values(|l: Vec<char>| l@)
}

/// Splits a text into its lines, exactly as `spec_lines` says.
pub fn split_lines(chars: &Vec<char>) -> (r: Vec<Vec<char>>)
    ensures
        line_views(r@) == spec_lines(chars@),
{
    let n = chars.len();
    let mut out: Vec<Vec<char>> = Vec::new();
    let mut pos: usize = 0;
    proof {
        assert(chars@.skip(0) =~= chars@);
        assert(line_views(Seq::<Vec<char>>::empty()) + spec_lines(chars@) =~= spec_lines(chars@));
    }
    while pos < n
        invariant
            pos <= n,
            n == chars@.len(),
            line_views(out@) + spec_lines(chars@.skip(pos as int)) == spec_lines(chars@),
        decreases n - pos,
    {
        let ghost rest = chars@.skip(pos as int);
        // Find the next newline at or after `pos`.
        let mut k: usize = pos;
        while k < n && chars[k] != '\n'
            invariant
                pos <= k <= n,
                n == chars@.len(),
                forall|j: int| pos <= j < k ==> chars@[j] != '\n',
            decreases n - k,
        {
            k = k + 1;
        }
        proof {
            lemma_first_nl(rest);
            assert(forall|j: int| 0 <= j < rest.len() ==> rest[j] == chars@[pos + j]);
            if k < n {
                assert(rest[k - pos] == '\n');
                assert(first_nl(rest) == k - pos) by {
                    if first_nl(rest) < k - pos {
                        assert(chars@[pos + first_nl(rest)] == '\n');
                    }
                }
            } else {
                assert(first_nl(rest) == k - pos) by {
                    if first_nl(rest) < k - pos {
                        assert(chars@[pos + first_nl(rest)] == '\n');
                    }
                }
            }
        }
        // The line runs from `pos` to `k`, minus one trailing carriage return.
        let mut end: usize = k;
        if k > pos && chars[k - 1] == '\r' {
            end = k - 1;
        }
        let mut line: Vec<char> = Vec::new();
        let mut i: usize = pos;
        while i < end
            invariant
                pos <= i <= end,
                end <= n,
                n == chars@.len(),
                line@ == chars@.subrange(pos as int, i as int),
            decreases end - i,
        {
            line.push(chars[i]);
            proof {
                assert(chars@.subrange(pos as int, i + 1 as int) =~= chars@.subrange(
                    pos as int,
                    i as int,
                ).push(chars@[i as int]));
            }
            i = i + 1;
        }
        proof {
            let nl = first_nl(rest);
            if k == n {
                assert(strip_cr(rest) =~= line@) by {
                    assert(rest =~= chars@.subrange(pos as int, n as int));
                    if rest.len() > 0 && rest.last() == '\r' {
                        assert(rest.drop_last() =~= chars@.subrange(pos as int, n - 1));
                    }
                }
            } else {
                assert(strip_cr(rest.take(nl)) =~= line@) by {
                    assert(rest.take(nl) =~= chars@.subrange(pos as int, k as int));
                    if rest.take(nl).len() > 0 && rest.take(nl).last() == '\r' {
                        assert(rest.take(nl).drop_last() =~= chars@.subrange(pos as int, k - 1));
                    }
                }
            }
        }
        let ghost out_old = out@;
        out.push(line);
        proof {
            assert(line_views(out@) =~= line_views(out_old).push(line@));
        }
        if k < n {
            proof {
                let nl = first_nl(rest);
                assert(spec_lines(rest) == seq![strip_cr(rest.take(nl))] + spec_lines(
                    rest.skip(nl + 1),
                ));
                assert(rest.skip(nl + 1) =~= chars@.skip(k + 1 as int));
                assert(line_views(out_old).push(line@) + spec_lines(chars@.skip(k + 1 as int))
                    =~= line_views(out_old) + spec_lines(rest));
            }
            pos = k + 1;
        } else {
            proof {
                assert(spec_lines(rest) == seq![strip_cr(rest)]);
                assert(chars@.skip(n as int) =~= Seq::<char>::empty());
                assert(line_views(out_old).push(line@) + spec_lines(chars@.skip(n as int))
                    =~= line_views(out_old) + spec_lines(rest));
            }
            pos = n;
        }
    }
    proof {
        assert(chars@.skip(n as int) =~= Seq::<char>::empty());
        assert(spec_lines(chars@.skip(pos as int)) =~= Seq::<Seq<char>>::empty());
        assert(line_views(out@) =~= spec_lines(chars@));
    }
    out
}

/// Joins lines with single newlines, exactly as `spec_join_lines` says.
pub fn join_lines(lines: &Vec<Vec<char>>) -> (r: Vec<char>)
    ensures
        r@ == spec_join_lines(line_views(lines@)),
{
    let mut out: Vec<char> = Vec::new();
    let mut i: usize = 0;
    while i < lines.len()
        invariant
            i <= lines@.len(),
            out@ == spec_join_lines(line_views(lines@).take(i as int)),
        decreases lines@.len() - i,
    {
        if i > 0 {
            out.push('\n');
        }
        extend_chars(&mut out, &lines[i]);
        proof {
            let lv = line_views(lines@);
            assert(lv.take(i + 1 as int) =~= lv.take(i as int).push(lv[i as int]));
            lemma_join_snoc(lv.take(i as int), lv[i as int]);
            assert(lv[i as int] == lines@[i as int]@);
        }
        i = i + 1;
    }
    proof {
        assert(line_views(lines@).take(lines@.len() as int) =~= line_views(lines@));
    }
    out
}

/// A whitespace character for trimming: Unicode's White_Space set, the
/// one that `str::trim` removes.
#[verifier::opaque]
pub open spec fn is_space(c: char) -> bool {
    c == '\t' || c == '\n' || c == '\u{B}' || c == '\u{C}' || c == '\r' || c == ' '
        || c == '\u{85}' || c == '\u{A0}' || c == '\u{1680}' || c == '\u{2000}'
        || c == '\u{2001}' || c == '\u{2002}' || c == '\u{2003}' || c == '\u{2004}'
        || c == '\u{2005}' || c == '\u{2006}' || c == '\u{2007}' || c == '\u{2008}'
        || c == '\u{2009}' || c == '\u{200A}' || c == '\u{2028}' || c == '\u{2029}'
        || c == '\u{202F}' || c == '\u{205F}' || c == '\u{3000}'
}

/// Decides whether a character is trimmed whitespace, exactly as
/// `is_space` says.
pub fn is_space_char(c: char) -> (r: bool)
    ensures
        r == is_space(c),
{
    proof {
        reveal(is_space);
    }
    c == '\t' || c == '\n' || c == '\u{B}' || c == '\u{C}' || c == '\r' || c == ' '
        || c == '\u{85}' || c == '\u{A0}' || c == '\u{1680}' || c == '\u{2000}'
        || c == '\u{2001}' || c == '\u{2002}' || c == '\u{2003}' || c == '\u{2004}'
        || c == '\u{2005}' || c == '\u{2006}' || c == '\u{2007}' || c == '\u{2008}'
        || c == '\u{2009}' || c == '\u{200A}' || c == '\u{2028}' || c == '\u{2029}'
        || c == '\u{202F}' || c == '\u{205F}' || c == '\u{3000}'
}

/// The text with leading whitespace removed.
pub open spec fn spec_trim_start(s: Seq<char>) -> Seq<char>
    decreases s.len(),
{
    if s.len() > 0 && is_space(s[0]) {
        spec_trim_start(s.skip(1))
    } else {
        s
    }
}

/// The text with trailing whitespace removed.
pub open spec fn spec_trim_end(s: Seq<char>) -> Seq<char>
    decreases s.len(),
{
    if s.len() > 0 && is_space(s.last()) {
        spec_trim_end(s.drop_last())
    } else {
        s
    }
}

/// The text with leading and trailing whitespace removed.
pub open spec fn spec_trim(s: Seq<char>) -> Seq<char> {
    spec_trim_end(spec_trim_start(s))
}

/// Trims leading and trailing whitespace, exactly as `spec_trim` says.
pub fn trim_chars(s: &Vec<char>) -> (r: Vec<char>)
    ensures
        r@ == spec_trim(s@),
{
    let n = s.len();
    let mut start: usize = 0;
    proof {
        assert(s@.skip(0) =~= s@);
    }
    while start < n && is_space_char(s[start])
        invariant
            start <= n,
            n == s@.len(),
            spec_trim_start(s@) == spec_trim_start(s@.skip(start as int)),
        decreases n - start,
    {
        proof {
            assert(s@.skip(start as int).skip(1) =~= s@.skip(start + 1 as int));
        }
        start = start + 1;
    }
    proof {
        assert(spec_trim_start(s@.skip(start as int)) == s@.skip(start as int));
    }
    let mut end: usize = n;
    proof {
        assert(s@.subrange(start as int, n as int) =~= s@.skip(start as int));
    }
    while end > start && is_space_char(s[end - 1])
        invariant
            start <= end <= n,
            n == s@.len(),
            spec_trim_start(s@) == s@.skip(start as int),
            spec_trim_end(s@.skip(start as int)) == spec_trim_end(
                s@.subrange(start as int, end as int),
            ),
        decreases end,
    {
        proof {
            let t = s@.subrange(start as int, end as int);
            assert(t.last() == s@[end - 1]);
            assert(t.drop_last() =~= s@.subrange(start as int, end - 1));
        }
        end = end - 1;
    }
    proof {
        let t = s@.subrange(start as int, end as int);
        assert(spec_trim_end(t) == t) by {
            if t.len() > 0 && is_space(t.last()) {
                assert(s@[end - 1] == t.last());
                assert(false);
            }
        }
    }
    let mut out: Vec<char> = Vec::new();
    let mut i: usize = start;
    while i < end
        invariant
            start <= i <= end,
            end <= n,
            n == s@.len(),
            out@ == s@.subrange(start as int, i as int),
        decreases end - i,
    {
        out.push(s[i]);
        proof {
            assert(s@.subrange(start as int, i + 1 as int) =~= s@.subrange(
                start as int,
                i as int,
            ).push(s@[i as int]));
        }
        i = i + 1;
    }
    out
}

} // verus!
