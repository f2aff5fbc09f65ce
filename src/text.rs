//! Character-level helpers: conversions between strings and character
//! vectors, whitespace, path components and slugs.
use vstd::prelude::*;
use vstd::string::StrSliceExecFns;

verus! {

/// Relies on `String::push`: appends one character.
pub assume_specification[ String::push ](s: &mut String, c: char)
    ensures
        final(s)@ == old(s)@.push(c),
;

/// Characters with the Unicode `White_Space` property.
pub open spec fn is_space(c: char) -> bool {
    c == '\t' || c == '\n' || c == '\x0B' || c == '\x0C' || c == '\r' || c == ' '
        || c == '\u{85}' || c == '\u{A0}' || c == '\u{1680}'
        || ('\u{2000}' <= c && c <= '\u{200A}') || c == '\u{2028}' || c == '\u{2029}'
        || c == '\u{202F}' || c == '\u{205F}' || c == '\u{3000}'
}

pub fn is_whitespace_char(c: char) -> (r: bool)
    ensures
        r == is_space(c),
{
    c == '\t' || c == '\n' || c == '\x0B' || c == '\x0C' || c == '\r' || c == ' '
        || c == '\u{85}' || c == '\u{A0}' || c == '\u{1680}'
        || ('\u{2000}' <= c && c <= '\u{200A}') || c == '\u{2028}' || c == '\u{2029}'
        || c == '\u{202F}' || c == '\u{205F}' || c == '\u{3000}'
}

/// The characters of `s`, in order.
pub fn chars_of(s: &str) -> (r: Vec<char>)
    ensures
        r@ == s@,
{
    let n = s.unicode_len();
    let mut out: Vec<char> = Vec::new();
    let mut i: usize = 0;
    while i < n
        invariant
            n == s@.len(),
            i <= n,
            out@ == s@.subrange(0, i as int),
        decreases n - i,
    {
        out.push(s.get_char(i));
        i = i + 1;
    }
    assert(out@ =~= s@);
    out
}

/// A string holding exactly the characters of `v`.
pub fn string_from(v: &Vec<char>) -> (r: String)
    ensures
        r@ == v@,
{
    let mut out = String::new();
    let mut i: usize = 0;
    while i < v.len()
        invariant
            i <= v@.len(),
            out@ == v@.subrange(0, i as int),
        decreases v.len() - i,
    {
        out.push(v[i]);
        i = i + 1;
    }
    assert(out@ =~= v@);
    out
}

/// Appends the characters of `s` to `out`.
pub fn push_text(out: &mut Vec<char>, s: &str)
    ensures
        final(out)@ == old(out)@ + s@,
{
    let n = s.unicode_len();
    let mut i: usize = 0;
    while i < n
        invariant
            n == s@.len(),
            i <= n,
            out@ == old(out)@ + s@.subrange(0, i as int),
        decreases n - i,
    {
        out.push(s.get_char(i));
        i = i + 1;
    }
    assert(s@.subrange(0, n as int) =~= s@);
}

/// Whether two strings hold the same characters.
pub fn same_text(a: &str, b: &str) -> (r: bool)
    ensures
        r == (a@ == b@),
{
    let n = a.unicode_len();
    if n != b.unicode_len() {
        return false;
    }
    let mut i: usize = 0;
    while i < n
        invariant
            n == a@.len(),
            n == b@.len(),
            i <= n,
            forall|j: int| 0 <= j < i ==> a@[j] == b@[j],
        decreases n - i,
    {
        if a.get_char(i) != b.get_char(i) {
            return false;
        }
        i = i + 1;
    }
    assert(a@ =~= b@);
    true
}

/// What `str::to_lowercase` gives for a sequence of characters.
pub uninterp spec fn lower_of(s: Seq<char>) -> Seq<char>;

/// Relies on `str::to_lowercase`: the result is a function of the characters
/// alone, and the empty string stays empty.
#[verifier::external_body]
fn lowercase(s: &str) -> (r: String)
    ensures
        r@ == lower_of(s@),
        s@.len() == 0 ==> r@.len() == 0,
{
    s.to_lowercase()
}

/// The text after the last `/` of `s` (all of `s` when it has none).
pub open spec fn after_last_slash(s: Seq<char>) -> Seq<char>
    decreases s.len(),
{
    if s.len() == 0 {
        s
    } else if s.last() == '/' {
        Seq::empty()
    } else {
        after_last_slash(s.drop_last()).push(s.last())
    }
}

/// The final component of a path, when it names a file.
pub open spec fn file_name_of(s: Seq<char>) -> Option<Seq<char>> {
    let b = after_last_slash(s);
    if b.len() == 0 || b == seq!['.', '.'] {
        None
    } else {
        Some(b)
    }
}

/// The final component of the path `p`, or `None` where it has none (empty,
/// ending in `/`, or ending in `..`).
pub fn file_name(p: &str) -> (r: Option<String>)
    ensures
        r is Some <==> file_name_of(p@) is Some,
        r is Some ==> r->Some_0@ == file_name_of(p@)->Some_0,
{
    let cs = chars_of(p);
    let mut start: usize = cs.len();
    assert(cs@.subrange(0, start as int) =~= cs@);
    assert(cs@ + cs@.subrange(start as int, start as int) =~= cs@);
    // walk back to the character after the last slash
    while start > 0 && cs[start - 1] != '/'
        invariant
            start <= cs@.len(),
            after_last_slash(cs@) == after_last_slash(cs@.subrange(0, start as int)) + cs@.subrange(
                start as int,
                cs@.len() as int,
            ),
        decreases start,
    {
        let ghost pre = cs@.subrange(0, start as int);
        assert(pre.drop_last() =~= cs@.subrange(0, start - 1));
        assert(cs@.subrange(start - 1, cs@.len() as int) =~= seq![cs@[start - 1]]
            + cs@.subrange(start as int, cs@.len() as int));
        start = start - 1;
        assert(after_last_slash(pre) == after_last_slash(cs@.subrange(0, start as int)).push(
            pre.last(),
        ));
    }
    let ghost pre = cs@.subrange(0, start as int);
    if start > 0 {
        assert(pre.last() == '/');
    } else {
        assert(pre =~= Seq::<char>::empty());
    }
    assert(after_last_slash(pre) =~= Seq::<char>::empty());
    let mut out: Vec<char> = Vec::new();
    let mut i: usize = start;
    while i < cs.len()
        invariant
            start <= i <= cs@.len(),
            out@ == cs@.subrange(start as int, i as int),
        decreases cs.len() - i,
    {
        out.push(cs[i]);
        i = i + 1;
    }
    assert(out@ =~= after_last_slash(cs@));
    if out.len() == 0 || (out.len() == 2 && out[0] == '.' && out[1] == '.') {
        assert(out.len() == 2 ==> out@ =~= seq!['.', '.']);
        None
    } else {
        assert(out@ != seq!['.', '.']) by {
            if out@ == seq!['.', '.'] {
                assert(out@.len() == 2);
            }
        }
        Some(string_from(&out))
    }
}

/// The path before the last `/` of `s`, where it has one.
pub open spec fn parent_of(s: Seq<char>) -> Option<Seq<char>>
    decreases s.len(),
{
    if s.len() == 0 {
        None
    } else if s.last() == '/' {
        Some(s.drop_last())
    } else {
        parent_of(s.drop_last())
    }
}

/// The path before the last `/` of `p`, or `None` where it has no `/`.
pub fn parent_path(p: &str) -> (r: Option<String>)
    ensures
        r is Some <==> parent_of(p@) is Some,
        r is Some ==> r->Some_0@ == parent_of(p@)->Some_0,
{
    let cs = chars_of(p);
    let mut end: usize = cs.len();
    assert(cs@.subrange(0, end as int) =~= cs@);
    while end > 0 && cs[end - 1] != '/'
        invariant
            end <= cs@.len(),
            parent_of(cs@) == parent_of(cs@.subrange(0, end as int)),
        decreases end,
    {
        assert(cs@.subrange(0, end as int).drop_last() =~= cs@.subrange(0, end - 1));
        end = end - 1;
    }
    if end == 0 {
        assert(cs@.subrange(0, 0) =~= Seq::<char>::empty());
        return None;
    }
    assert(cs@.subrange(0, end as int).drop_last() =~= cs@.subrange(0, end - 1));
    let mut out: Vec<char> = Vec::new();
    let mut i: usize = 0;
    while i < end - 1
        invariant
            0 < end <= cs@.len(),
            i <= end - 1,
            out@ == cs@.subrange(0, i as int),
        decreases end - 1 - i,
    {
        out.push(cs[i]);
        i = i + 1;
    }
    Some(string_from(&out))
}

/// `f` placed under the directory `d`, as `Path::join` does: an absolute `f`
/// stands alone, an empty `d` adds nothing, and one `/` separates the two.
pub open spec fn joined(d: Seq<char>, f: Seq<char>) -> Seq<char> {
    if f.len() > 0 && f[0] == '/' {
        f
    } else if d.len() == 0 {
        f
    } else if d.last() == '/' {
        d + f
    } else {
        d + seq!['/'] + f
    }
}

pub fn join_path(d: &str, f: &str) -> (r: String)
    ensures
        r@ == joined(d@, f@),
{
    let fs = chars_of(f);
    if fs.len() > 0 && fs[0] == '/' {
        return string_from(&fs);
    }
    let ds = chars_of(d);
    if ds.len() == 0 {
        return string_from(&fs);
    }
    let mut out = ds.clone();
    if ds[ds.len() - 1] != '/' {
        out.push('/');
    }
    push_text(&mut out, f);
    string_from(&out)
}

/// Words of `s` (maximal runs without whitespace), joined by `-`. `gap` says
/// whether whitespace has followed the text already in `out`.
pub open spec fn dash_words(s: Seq<char>, out: Seq<char>, gap: bool) -> Seq<char>
    decreases s.len(),
{
    if s.len() == 0 {
        out
    } else if is_space(s[0]) {
        dash_words(s.drop_first(), out, out.len() > 0)
    } else if gap {
        dash_words(s.drop_first(), out + seq!['-', s[0]], false)
    } else {
        dash_words(s.drop_first(), out.push(s[0]), false)
    }
}

/// `s` with every `/` replaced by `-`.
pub open spec fn slash_to_dash(s: Seq<char>) -> Seq<char> {
    s.map_values(|c: char| if c == '/' { '-' } else { c })
}

/// Lower-cases `s` and joins its whitespace-separated words with `-`.
pub fn dashed_lower_words(s: &str) -> (r: String)
    ensures
        r@ == dash_words(lower_of(s@), Seq::empty(), false),
{
    let low = lowercase(s);
    let cs = chars_of(low.as_str());
    let mut out: Vec<char> = Vec::new();
    let mut gap = false;
    let mut i: usize = 0;
    assert(cs@.subrange(0, cs@.len() as int) =~= cs@);
    while i < cs.len()
        invariant
            i <= cs@.len(),
            cs@ == lower_of(s@),
            dash_words(cs@, Seq::empty(), false) == dash_words(
                cs@.subrange(i as int, cs@.len() as int),
                out@,
                gap,
            ),
        decreases cs.len() - i,
    {
        let ghost rest = cs@.subrange(i as int, cs@.len() as int);
        assert(rest.drop_first() =~= cs@.subrange(i + 1, cs@.len() as int));
        let c = cs[i];
        let ghost before = out@;
        if is_whitespace_char(c) {
            gap = out.len() > 0;
        } else {
            if gap {
                out.push('-');
            }
            out.push(c);
            gap = false;
            assert(before + seq!['-', c] =~= before.push('-').push(c));
        }
        i = i + 1;
    }
    string_from(&out)
}

/// `s` with every `/` replaced by `-`.
pub fn replace_slashes(s: &str) -> (r: String)
    ensures
        r@ == slash_to_dash(s@),
{
    let cs = chars_of(s);
    let mut out: Vec<char> = Vec::new();
    let mut i: usize = 0;
    while i < cs.len()
        invariant
            i <= cs@.len(),
            cs@ == s@,
            out@ == slash_to_dash(s@.subrange(0, i as int)),
        decreases cs.len() - i,
    {
        if cs[i] == '/' {
            out.push('-');
        } else {
            out.push(cs[i]);
        }
        assert(slash_to_dash(s@.subrange(0, i + 1)) =~= slash_to_dash(s@.subrange(0, i as int)).push(
            if cs@[i as int] == '/' { '-' } else { cs@[i as int] },
        ));
        i = i + 1;
    }
    assert(s@.subrange(0, cs@.len() as int) =~= s@);
    string_from(&out)
}

} // verus!
