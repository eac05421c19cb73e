//! Character-sequence utilities shared by the resolver, the script
//! synthesizer and the subprocess runtime: path component extraction,
//! case normalization, and line joining.

use vstd::prelude::*;

verus! {

/// The character sequence that `str::to_lowercase` produces for `s`.
pub uninterp spec fn lower_of(s: Seq<char>) -> Seq<char>;

/// Relies on `str::to_lowercase`: the result depends on the characters of
/// the input alone.
#[verifier::external_body]
pub(crate) fn lowercase(s: &str) -> (r: String)
    ensures
        r@ == lower_of(s@),
        s@.len() == 0 ==> r@.len() == 0,
{
    s.to_lowercase()
}

/// Whether an owned string and a string slice hold the same characters.
pub fn string_eq_str(a: &String, b: &str) -> (r: bool)
    ensures
        r == (a@ == b@),
{
    let bo = b.to_owned();
    a.eq(&bo)
}

/// Index of the last occurrence of `c` in `b`, or `-1` when absent.
pub open spec fn last_index_of(b: Seq<char>, c: char) -> int
    decreases b.len(),
{
    if b.len() == 0 {
        -1
    } else if b.last() == c {
        b.len() - 1
    } else {
        last_index_of(b.drop_last(), c)
    }
}

pub proof fn lemma_last_index_of_absent(b: Seq<char>, c: char)
    requires
        forall|j: int| 0 <= j < b.len() ==> b[j] != c,
    ensures
        last_index_of(b, c) == -1,
    decreases b.len(),
{
    if b.len() > 0 {
        lemma_last_index_of_absent(b.drop_last(), c);
    }
}

pub proof fn lemma_last_index_of_found(b: Seq<char>, c: char, i: int)
    requires
        0 <= i < b.len(),
        b[i] == c,
        forall|j: int| i < j < b.len() ==> b[j] != c,
    ensures
        last_index_of(b, c) == i,
    decreases b.len(),
{
    if i < b.len() - 1 {
        lemma_last_index_of_found(b.drop_last(), c, i);
    }
}

/// Position of the last occurrence of `c`, if any.
pub fn find_last(s: &str, c: char) -> (r: Option<usize>)
    ensures
        match r {
            Some(i) => last_index_of(s@, c) == i && i < s@.len(),
            None => last_index_of(s@, c) == -1,
        },
{
    let n = s.unicode_len();
    let mut i = n;
    while i > 0
        invariant
            i <= n,
            n == s@.len(),
            forall|j: int| i <= j < s@.len() ==> s@[j] != c,
        decreases i,
    {
        i = i - 1;
        if s.get_char(i) == c {
            proof {
                lemma_last_index_of_found(s@, c, i as int);
            }
            return Some(i);
        }
    }
    proof {
        lemma_last_index_of_absent(s@, c);
    }
    None
}

/// Whether a character separates path components.
pub open spec fn is_sep(c: char) -> bool {
    c == '/' || c == '\\'
}

/// `s` with every trailing path separator removed.
pub open spec fn trim_trailing_seps(s: Seq<char>) -> Seq<char>
    decreases s.len(),
{
    if s.len() > 0 && is_sep(s.last()) {
        trim_trailing_seps(s.drop_last())
    } else {
        s
    }
}

proof fn lemma_trim_trailing_seps_prefix(s: Seq<char>, k: int)
    requires
        0 <= k <= s.len(),
        forall|j: int| k <= j < s.len() ==> is_sep(s[j]),
        k > 0 ==> !is_sep(s[k - 1]),
    ensures
        trim_trailing_seps(s) =~= s.subrange(0, k),
    decreases s.len(),
{
    if k < s.len() {
        lemma_trim_trailing_seps_prefix(s.drop_last(), k);
    }
}

/// Whether the character at `i` is a path separator.
fn is_sep_at(s: &str, i: usize) -> (r: bool)
    requires
        i < s@.len(),
    ensures
        r == is_sep(s@[i as int]),
{
    let c = s.get_char(i);
    c == '/' || c == '\\'
}

/// Removes every trailing path separator of `s`.
pub fn trim_trailing_separators(s: &str) -> (r: String)
    ensures
        r@ == trim_trailing_seps(s@),
{
    let n = s.unicode_len();
    let mut k = n;
    while k > 0 && is_sep_at(s, k - 1)
        invariant
            k <= n,
            n == s@.len(),
            forall|j: int| k <= j < s@.len() ==> is_sep(s@[j]),
        decreases k,
    {
        k = k - 1;
    }
    proof {
        lemma_trim_trailing_seps_prefix(s@, k as int);
    }
    let head = s.substring_char(0, k);
    head.to_owned()
}

/// Index of the last path separator (`/` or `\`) in `s`, or `-1`.
pub open spec fn last_sep_index(s: Seq<char>) -> int {
    if last_index_of(s, '/') >= last_index_of(s, '\\') {
        last_index_of(s, '/')
    } else {
        last_index_of(s, '\\')
    }
}

/// The component of a path after its last separator; the whole string when
/// no separator occurs, and empty for a path that ends in a separator.
pub open spec fn base_name_of(s: Seq<char>) -> Seq<char> {
    s.subrange(last_sep_index(s) + 1, s.len() as int)
}

/// Extracts the last path component of `path`.
pub fn base_name(path: &str) -> (r: String)
    ensures
        r@ == base_name_of(path@),
{
    let n = path.unicode_len();
    let slash = find_last(path, '/');
    let back = find_last(path, '\\');
    let cut: usize = match (slash, back) {
        (Some(a), Some(b)) => if a >= b { a + 1 } else { b + 1 },
        (Some(a), None) => a + 1,
        (None, Some(b)) => b + 1,
        (None, None) => 0,
    };
    let tail = path.substring_char(cut, n);
    tail.to_owned()
}

/// The executable stem of an invocation path: trailing separators are
/// ignored, the last path component is taken, and a trailing extension is
/// removed. Falls back to the whole path when no component remains. A dot
/// in leading position is not an extension separator.
pub open spec fn exe_stem_of(s: Seq<char>) -> Seq<char> {
    let b = base_name_of(trim_trailing_seps(s));
    if b.len() == 0 {
        s
    } else {
        let d = last_index_of(b, '.');
        if d >= 1 {
            b.subrange(0, d)
        } else {
            b
        }
    }
}

/// Extracts the executable stem of `path`.
pub fn exe_stem(path: &str) -> (r: String)
    ensures
        r@ == exe_stem_of(path@),
{
    let trimmed = trim_trailing_separators(path);
    let b = base_name(trimmed.as_str());
    if b.as_str().unicode_len() == 0 {
        return path.to_owned();
    }
    let dot = find_last(b.as_str(), '.');
    match dot {
        Some(d) if d >= 1 => {
            let stem = b.as_str().substring_char(0, d);
            stem.to_owned()
        },
        _ => b,
    }
}

/// `s` with every backslash doubled, built from the right.
pub open spec fn doubled_backslashes(s: Seq<char>) -> Seq<char>
    decreases s.len(),
{
    if s.len() == 0 {
        s
    } else if s.last() == '\\' {
        doubled_backslashes(s.drop_last()) + seq!['\\', '\\']
    } else {
        doubled_backslashes(s.drop_last()) + seq![s.last()]
    }
}

/// Doubles every backslash in `s`, as batch file text requires.
pub fn double_backslashes(s: &str) -> (r: String)
    ensures
        r@ == doubled_backslashes(s@),
{
    let n = s.unicode_len();
    let mut r = String::new();
    let mut i: usize = 0;
    while i < n
        invariant
            i <= n,
            n == s@.len(),
            r@ == doubled_backslashes(s@.subrange(0, i as int)),
        decreases n - i,
    {
        let c = s.get_char(i);
        if c == '\\' {
            r.append("\\\\");
        } else {
            let piece = s.substring_char(i, i + 1);
            r.append(piece);
        }
        proof {
            let pre = s@.subrange(0, i as int);
            let cur = s@.subrange(0, i + 1 as int);
            assert(cur.drop_last() =~= pre);
            assert(cur.last() == s@[i as int]);
            if s@[i as int] == '\\' {
                reveal_strlit("\\\\");
                assert(r@ =~= doubled_backslashes(cur));
            } else {
                assert(s@.subrange(i as int, i + 1 as int) =~= seq![s@[i as int]]);
                assert(r@ =~= doubled_backslashes(cur));
            }
        }
        i = i + 1;
    }
    proof {
        assert(s@.subrange(0, n as int) =~= s@);
    }
    r
}

/// The views of a sequence of owned strings.
pub open spec fn views_of(l: Seq<String>) -> Seq<Seq<char>> {
    l.map_values(|s: String| s@)
}

/// `lines` joined with a newline between consecutive elements.
pub open spec fn joined_with_newlines(lines: Seq<Seq<char>>) -> Seq<char>
    decreases lines.len(),
{
    if lines.len() == 0 {
        Seq::empty()
    } else if lines.len() == 1 {
        lines[0]
    } else {
        joined_with_newlines(lines.drop_last()) + seq!['\n'] + lines.last()
    }
}

/// Joins `lines` with single newlines.
pub fn join_lines(lines: &Vec<String>) -> (r: String)
    ensures
        r@ == joined_with_newlines(views_of(lines@)),
{
    let mut r = String::new();
    let mut i: usize = 0;
    while i < lines.len()
        invariant
            i <= lines@.len(),
            r@ == joined_with_newlines(views_of(lines@).subrange(0, i as int)),
        decreases lines@.len() - i,
    {
        if i > 0 {
            r.append("\n");
        }
        r.append(lines[i].as_str());
        proof {
            let vs = views_of(lines@);
            let pre = vs.subrange(0, i as int);
            let cur = vs.subrange(0, i + 1 as int);
            assert(cur.drop_last() =~= pre);
            assert(cur.last() == lines@[i as int]@);
            reveal_strlit("\n");
            assert("\n"@ =~= seq!['\n']);
            assert(r@ =~= joined_with_newlines(cur));
        }
        i = i + 1;
    }
    proof {
        assert(views_of(lines@).subrange(0, lines@.len() as int) =~= views_of(lines@));
    }
    r
}

} // verus!
