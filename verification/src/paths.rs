//! A string model of file paths: file name, extension, parent directory and
//! MIME typing. Paths are plain strings with `/` as the separator.

use vstd::prelude::*;

use crate::text::{chars_of, eq_chars, string_of, tail_from};

verus! {

/// Index of the last occurrence of `c` in `s`, or `-1` when there is none.
pub open spec fn last_index_of(s: Seq<char>, c: char) -> int
    decreases s.len(),
{
    if s.len() == 0 {
        -1
    } else if s.last() == c {
        s.len() - 1
    } else {
        last_index_of(s.drop_last(), c)
    }
}

/// `last_index_of` points at the last occurrence: it is in bounds, it hits
/// `c` when non-negative, and nothing after it is `c`.
pub proof fn lemma_last_index_of(s: Seq<char>, c: char)
    ensures
        -1 <= last_index_of(s, c) < s.len(),
        last_index_of(s, c) >= 0 ==> s[last_index_of(s, c)] == c,
        forall|j: int| last_index_of(s, c) < j < s.len() ==> s[j] != c,
    decreases s.len(),
{
    if s.len() == 0 {
    } else if s.last() == c {
    } else {
        lemma_last_index_of(s.drop_last(), c);
        assert forall|j: int| last_index_of(s, c) < j < s.len() implies s[j] != c by {
            if j < s.len() - 1 {
                assert(s[j] == s.drop_last()[j]);
            }
        }
    }
}

/// The file name of a path: the characters after the last separator (the
/// whole path when it has none).
pub open spec fn spec_file_name(p: Seq<char>) -> Seq<char> {
    p.skip(last_index_of(p, '/') + 1)
}

/// The extension of a path: the part of its file name after the final dot.
/// There is none when the file name is the parent-directory name `..`, holds
/// no dot, or holds a dot only at its start (a hidden file).
pub open spec fn spec_extension(p: Seq<char>) -> Option<Seq<char>> {
    let name = spec_file_name(p);
    if name == ".."@ {
        None
    } else {
        let d = last_index_of(name, '.');
        if d <= 0 {
            None
        } else {
            Some(name.skip(d + 1))
        }
    }
}

/// Index of the last occurrence of `c`, exactly as `last_index_of` says.
pub fn rfind_char(v: &Vec<char>, c: char) -> (r: Option<usize>)
    ensures
        match r {
            Some(i) => last_index_of(v@, c) == i as int,
            None => last_index_of(v@, c) == -1,
        },
{
    let mut k: usize = v.len();
    proof {
        assert(v@.take(v@.len() as int) =~= v@);
    }
    while k > 0
        invariant
            k <= v@.len(),
            last_index_of(v@, c) == last_index_of(v@.take(k as int), c),
        decreases k,
    {
        if v[k - 1] == c {
            proof {
                assert(v@.take(k as int).last() == v@[k - 1]);
            }
            return Some(k - 1);
        }
        proof {
            assert(v@.take(k as int).last() == v@[k - 1]);
            assert(v@.take(k as int).drop_last() =~= v@.take(k - 1));
        }
        k = k - 1;
    }
    proof {
        assert(v@.take(0) =~= Seq::<char>::empty());
    }
    None
}

/// The file name of a path, exactly as `spec_file_name` says.
pub fn file_name_chars(p: &Vec<char>) -> (r: Vec<char>)
    ensures
        r@ == spec_file_name(p@),
{
    proof {
        lemma_last_index_of(p@, '/');
    }
    let n = p.len();
    match rfind_char(p, '/') {
        Some(i) => {
            proof {
                assert(i < n);
            }
            tail_from(p, i + 1)
        },
        None => {
            let r = tail_from(p, 0);
            proof {
                assert(p@.skip(0) =~= p@);
            }
            r
        },
    }
}

/// The extension of a path, exactly as `spec_extension` says.
pub fn file_extension(path: &str) -> (r: Option<String>)
    ensures
        match r {
            Some(e) => spec_extension(path@) == Some(e@),
            None => spec_extension(path@) is None,
        },
{
    let pc = chars_of(path);
    let name = file_name_chars(&pc);
    let is_dot_dot = name.len() == 2 && name[0] == '.' && name[1] == '.';
    proof {
        reveal_strlit("..");
        assert(".."@.len() == 2);
        if is_dot_dot {
            assert(name@ =~= ".."@);
        } else {
            assert(name@ != ".."@);
        }
    }
    if is_dot_dot {
        return None;
    }
    proof {
        lemma_last_index_of(name@, '.');
    }
    match rfind_char(&name, '.') {
        None => None,
        Some(d) => {
            if d == 0 {
                None
            } else {
                Some(string_of(&tail_from(&name, d + 1)))
            }
        },
    }
}

/// True exactly when the two strings hold the same characters.
pub fn eq_str(a: &str, b: &str) -> (r: bool)
    ensures
        r == (a@ == b@),
{
    let ac = chars_of(a);
    let bc = chars_of(b);
    eq_chars(&ac, &bc)
}

/// True exactly when the path's extension is `md` or `markdown`.
pub fn is_markdown_file(path: &str) -> (r: bool)
    ensures
        r == (spec_extension(path@) == Some("md"@) || spec_extension(path@) == Some("markdown"@)),
{
    match file_extension(path) {
        Some(e) => {
            let is_md = eq_str(e.as_str(), "md");
            let is_markdown = eq_str(e.as_str(), "markdown");
            is_md || is_markdown
        },
        None => false,
    }
}

/// The ASCII lower-case form of a character: the letters `A` to `Z`
/// become `a` to `z`, everything else stands for itself.
pub open spec fn spec_lower_char(c: char) -> char {
    if c == 'A' {
        'a'
    } else if c == 'B' {
        'b'
    } else if c == 'C' {
        'c'
    } else if c == 'D' {
        'd'
    } else if c == 'E' {
        'e'
    } else if c == 'F' {
        'f'
    } else if c == 'G' {
        'g'
    } else if c == 'H' {
        'h'
    } else if c == 'I' {
        'i'
    } else if c == 'J' {
        'j'
    } else if c == 'K' {
        'k'
    } else if c == 'L' {
        'l'
    } else if c == 'M' {
        'm'
    } else if c == 'N' {
        'n'
    } else if c == 'O' {
        'o'
    } else if c == 'P' {
        'p'
    } else if c == 'Q' {
        'q'
    } else if c == 'R' {
        'r'
    } else if c == 'S' {
        's'
    } else if c == 'T' {
        't'
    } else if c == 'U' {
        'u'
    } else if c == 'V' {
        'v'
    } else if c == 'W' {
        'w'
    } else if c == 'X' {
        'x'
    } else if c == 'Y' {
        'y'
    } else if c == 'Z' {
        'z'
    } else {
        c
    }
}

/// The ASCII lower-case form of a text.
pub open spec fn spec_lower_ascii(s: Seq<char>) -> Seq<char> {
    s.map_values(|c: char| spec_lower_char(c))
}

/// Lower-cases one character, exactly as `spec_lower_char` says.
fn lower_char(c: char) -> (r: char)
    ensures
        r == spec_lower_char(c),
{
    if c == 'A' {
        'a'
    } else if c == 'B' {
        'b'
    } else if c == 'C' {
        'c'
    } else if c == 'D' {
        'd'
    } else if c == 'E' {
        'e'
    } else if c == 'F' {
        'f'
    } else if c == 'G' {
        'g'
    } else if c == 'H' {
        'h'
    } else if c == 'I' {
        'i'
    } else if c == 'J' {
        'j'
    } else if c == 'K' {
        'k'
    } else if c == 'L' {
        'l'
    } else if c == 'M' {
        'm'
    } else if c == 'N' {
        'n'
    } else if c == 'O' {
        'o'
    } else if c == 'P' {
        'p'
    } else if c == 'Q' {
        'q'
    } else if c == 'R' {
        'r'
    } else if c == 'S' {
        's'
    } else if c == 'T' {
        't'
    } else if c == 'U' {
        'u'
    } else if c == 'V' {
        'v'
    } else if c == 'W' {
        'w'
    } else if c == 'X' {
        'x'
    } else if c == 'Y' {
        'y'
    } else if c == 'Z' {
        'z'
    } else {
        c
    }
}

/// Lower-cases a text, exactly as `spec_lower_ascii` says.
fn lower_ascii_chars(v: &Vec<char>) -> (r: Vec<char>)
    ensures
        r@ == spec_lower_ascii(v@),
{
    let mut out: Vec<char> = Vec::new();
    let mut i: usize = 0;
    while i < v.len()
        invariant
            i <= v@.len(),
            out@ == spec_lower_ascii(v@.take(i as int)),
        decreases v@.len() - i,
    {
        out.push(lower_char(v[i]));
        proof {
            assert(v@.take(i + 1 as int) =~= v@.take(i as int).push(v@[i as int]));
            assert(spec_lower_ascii(v@.take(i + 1 as int)) =~= spec_lower_ascii(
                v@.take(i as int),
            ).push(spec_lower_char(v@[i as int])));
        }
        i = i + 1;
    }
    proof {
        assert(v@.take(v@.len() as int) =~= v@);
    }
    out
}

/// The MIME type inferred from the path's lower-cased extension alone,
/// with `image/png` as the default for unknown or missing extensions.
pub open spec fn spec_mime_type(p: Seq<char>) -> Seq<char> {
    let e = match spec_extension(p) {
        Some(x) => Some(spec_lower_ascii(x)),
        None => None,
    };
    if e == Some("png"@) {
        "image/png"@
    } else if e == Some("jpg"@) || e == Some("jpeg"@) {
        "image/jpeg"@
    } else if e == Some("gif"@) {
        "image/gif"@
    } else if e == Some("svg"@) {
        "image/svg+xml"@
    } else if e == Some("webp"@) {
        "image/webp"@
    } else if e == Some("bmp"@) {
        "image/bmp"@
    } else if e == Some("ico"@) {
        "image/x-icon"@
    } else {
        "image/png"@
    }
}

/// Infers the MIME type from the path's lower-cased extension, exactly as
/// `spec_mime_type` says.
pub fn get_mime_type(path: &str) -> (r: &'static str)
    ensures
        r@ == spec_mime_type(path@),
{
    match file_extension(path) {
        Some(raw) => {
            let rc = chars_of(raw.as_str());
            let e = string_of(&lower_ascii_chars(&rc));
            if eq_str(e.as_str(), "png") {
                "image/png"
            } else if eq_str(e.as_str(), "jpg") || eq_str(e.as_str(), "jpeg") {
                "image/jpeg"
            } else if eq_str(e.as_str(), "gif") {
                "image/gif"
            } else if eq_str(e.as_str(), "svg") {
                "image/svg+xml"
            } else if eq_str(e.as_str(), "webp") {
                "image/webp"
            } else if eq_str(e.as_str(), "bmp") {
                "image/bmp"
            } else if eq_str(e.as_str(), "ico") {
                "image/x-icon"
            } else {
                "image/png"
            }
        },
        None => "image/png",
    }
}

/// The parent directory of a path: the characters before the last separator;
/// empty when there is no separator, and the lone root separator stays `/`.
pub open spec fn spec_parent_dir(p: Seq<char>) -> Seq<char> {
    let i = last_index_of(p, '/');
    if i == -1 {
        Seq::<char>::empty()
    } else if i == 0 {
        seq!['/']
    } else {
        p.take(i)
    }
}

/// The parent of a path, if it has one: the empty path and the lone root
/// have none.
pub open spec fn spec_parent(p: Seq<char>) -> Option<Seq<char>> {
    if p.len() == 0 || p == "/"@ {
        None
    } else {
        Some(spec_parent_dir(p))
    }
}

/// The parent of a path, exactly as `spec_parent` says.
pub fn parent_of(path: &str) -> (r: Option<String>)
    ensures
        match r {
            Some(p) => spec_parent(path@) == Some(p@),
            None => spec_parent(path@) is None,
        },
{
    if path.unicode_len() == 0 || eq_str(path, "/") {
        None
    } else {
        Some(parent_dir(path))
    }
}

/// The parent directory of a path, exactly as `spec_parent_dir` says.
pub fn parent_dir(path: &str) -> (r: String)
    ensures
        r@ == spec_parent_dir(path@),
{
    let pc = chars_of(path);
    proof {
        lemma_last_index_of(pc@, '/');
    }
    match rfind_char(&pc, '/') {
        None => {
            let out: Vec<char> = Vec::new();
            string_of(&out)
        },
        Some(i) => {
            if i == 0 {
                let mut out: Vec<char> = Vec::new();
                out.push('/');
                proof {
                    assert(out@ =~= seq!['/']);
                }
                string_of(&out)
            } else {
                let mut out: Vec<char> = Vec::new();
                let mut j: usize = 0;
                while j < i
                    invariant
                        j <= i,
                        i < pc@.len(),
                        out@ == pc@.take(j as int),
                    decreases i - j,
                {
                    out.push(pc[j]);
                    proof {
                        assert(pc@.take(j + 1 as int) =~= pc@.take(j as int).push(pc@[j as int]));
                    }
                    j = j + 1;
                }
                string_of(&out)
            }
        },
    }
}

} // verus!
