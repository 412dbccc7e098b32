//! Escaping of text for embedding in HTML and in single-quoted JavaScript
//! string literals.

use vstd::prelude::*;

verus! {

/// How one character is written inside HTML text or a double-quoted HTML
/// attribute: the characters `&`, `<` and `>` become entities, everything
/// else stands for itself.
pub open spec fn escaped_char(c: char) -> Seq<char> {
    if c == '&' {
        seq!['&', 'a', 'm', 'p', ';']
    } else if c == '<' {
        seq!['&', 'l', 't', ';']
    } else if c == '>' {
        seq!['&', 'g', 't', ';']
    } else {
        seq![c]
    }
}

/// HTML-escaped form of a text: each character replaced by `escaped_char`.
pub open spec fn spec_escape_html(s: Seq<char>) -> Seq<char>
    decreases s.len(),
{
    if s.len() == 0 {
        Seq::empty()
    } else {
        escaped_char(s[0]) + spec_escape_html(s.skip(1))
    }
}

/// Escaping distributes over concatenation.
pub proof fn lemma_escape_html_append(a: Seq<char>, b: Seq<char>)
    ensures
        spec_escape_html(a + b) == spec_escape_html(a) + spec_escape_html(b),
    decreases a.len(),
{
    if a.len() == 0 {
        assert(a + b =~= b);
        assert(spec_escape_html(a) + spec_escape_html(b) =~= spec_escape_html(b));
    } else {
        assert((a + b).skip(1) =~= a.skip(1) + b);
        lemma_escape_html_append(a.skip(1), b);
        assert(escaped_char((a + b)[0]) + (spec_escape_html(a.skip(1)) + spec_escape_html(b))
            =~= (escaped_char(a[0]) + spec_escape_html(a.skip(1))) + spec_escape_html(b));
    }
}

/// Escaping a single character gives exactly its escaped form.
pub proof fn lemma_escape_html_single(c: char)
    ensures
        spec_escape_html(seq![c]) == escaped_char(c),
{
    assert(seq![c].skip(1) =~= Seq::<char>::empty());
    assert(spec_escape_html(Seq::<char>::empty()) =~= Seq::<char>::empty());
    assert(spec_escape_html(seq![c]) =~= escaped_char(c) + Seq::<char>::empty());
    assert(escaped_char(c) + Seq::<char>::empty() =~= escaped_char(c));
}

/// HTML-escapes a text, exactly as `spec_escape_html` says.
pub fn escape_html(s: &Vec<char>) -> (r: Vec<char>)
    ensures
        r@ == spec_escape_html(s@),
{
    let mut out: Vec<char> = Vec::new();
    let mut i: usize = 0;
    while i < s.len()
        invariant
            i <= s@.len(),
            out@ == spec_escape_html(s@.take(i as int)),
        decreases s@.len() - i,
    {
        let c = s[i];
        if c == '&' {
            out.push('&');
            out.push('a');
            out.push('m');
            out.push('p');
            out.push(';');
        } else if c == '<' {
            out.push('&');
            out.push('l');
            out.push('t');
            out.push(';');
        } else if c == '>' {
            out.push('&');
            out.push('g');
            out.push('t');
            out.push(';');
        } else {
            out.push(c);
        }
        proof {
            assert(s@.take(i + 1 as int) =~= s@.take(i as int) + seq![s@[i as int]]);
            lemma_escape_html_append(s@.take(i as int), seq![s@[i as int]]);
            lemma_escape_html_single(s@[i as int]);
        }
        i = i + 1;
    }
    proof {
        assert(s@.take(s@.len() as int) =~= s@);
    }
    out
}

/// How one character is written inside a single-quoted JavaScript string
/// literal: backslash and single quote get a preceding backslash.
pub open spec fn js_escaped_char(c: char) -> Seq<char> {
    if c == '\\' {
        seq!['\\', '\\']
    } else if c == '\'' {
        seq!['\\', '\'']
    } else {
        seq![c]
    }
}

/// The form of a text safe inside a single-quoted JavaScript string literal.
pub open spec fn spec_escape_js(s: Seq<char>) -> Seq<char>
    decreases s.len(),
{
    if s.len() == 0 {
        Seq::empty()
    } else {
        js_escaped_char(s[0]) + spec_escape_js(s.skip(1))
    }
}

/// JavaScript escaping distributes over concatenation.
pub proof fn lemma_escape_js_append(a: Seq<char>, b: Seq<char>)
    ensures
        spec_escape_js(a + b) == spec_escape_js(a) + spec_escape_js(b),
    decreases a.len(),
{
    if a.len() == 0 {
        assert(a + b =~= b);
        assert(spec_escape_js(a) + spec_escape_js(b) =~= spec_escape_js(b));
    } else {
        assert((a + b).skip(1) =~= a.skip(1) + b);
        lemma_escape_js_append(a.skip(1), b);
        assert(js_escaped_char((a + b)[0]) + (spec_escape_js(a.skip(1)) + spec_escape_js(b)) =~= (
        js_escaped_char(a[0]) + spec_escape_js(a.skip(1))) + spec_escape_js(b));
    }
}

/// Escaping a single character gives exactly its escaped form.
pub proof fn lemma_escape_js_single(c: char)
    ensures
        spec_escape_js(seq![c]) == js_escaped_char(c),
{
    assert(seq![c].skip(1) =~= Seq::<char>::empty());
    assert(spec_escape_js(Seq::<char>::empty()) =~= Seq::<char>::empty());
    assert(spec_escape_js(seq![c]) =~= js_escaped_char(c) + Seq::<char>::empty());
    assert(js_escaped_char(c) + Seq::<char>::empty() =~= js_escaped_char(c));
}

/// Escapes a text for a single-quoted JavaScript string literal, exactly as
/// `spec_escape_js` says.
pub fn escape_js(s: &Vec<char>) -> (r: Vec<char>)
    ensures
        r@ == spec_escape_js(s@),
{
    let mut out: Vec<char> = Vec::new();
    let mut i: usize = 0;
    while i < s.len()
        invariant
            i <= s@.len(),
            out@ == spec_escape_js(s@.take(i as int)),
        decreases s@.len() - i,
    {
        let c = s[i];
        if c == '\\' {
            out.push('\\');
            out.push('\\');
        } else if c == '\'' {
            out.push('\\');
            out.push('\'');
        } else {
            out.push(c);
        }
        proof {
            assert(s@.take(i + 1 as int) =~= s@.take(i as int) + seq![s@[i as int]]);
            lemma_escape_js_append(s@.take(i as int), seq![s@[i as int]]);
            lemma_escape_js_single(s@[i as int]);
        }
        i = i + 1;
    }
    proof {
        assert(s@.take(s@.len() as int) =~= s@);
    }
    out
}

} // verus!
