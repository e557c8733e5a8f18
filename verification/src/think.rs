//! Separating a leading `<think>...</think>` block from model output.
use vstd::prelude::*;
use crate::text::{chars_of, is_whitespace, is_ws, owned, string_from_chars, trim_start};

verus! {

/// The opening tag.
pub open spec fn open_tag() -> Seq<char> {
    seq!['<', 't', 'h', 'i', 'n', 'k', '>']
}

/// The closing tag.
pub open spec fn close_tag() -> Seq<char> {
    seq!['<', '/', 't', 'h', 'i', 'n', 'k', '>']
}

/// The first position at or after `i` where `pat` occurs in `s`.
pub open spec fn find_from(s: Seq<char>, pat: Seq<char>, i: int) -> Option<int>
    decreases s.len() + 1 - i,
{
    if i < 0 || i + pat.len() > s.len() {
        None
    } else if s.subrange(i, i + pat.len()) == pat {
        Some(i)
    } else {
        find_from(s, pat, i + 1)
    }
}

/// The result of separating a leading think block: the content without the block and the
/// block's text; when the content (after leading white space) does not start with a closed
/// `<think>` block, the content unchanged and no thinking.
pub open spec fn spec_strip_think(content: Seq<char>) -> (Seq<char>, Option<Seq<char>>) {
    let t = trim_start(content);
    if t.len() >= 7 && t.subrange(0, 7) == open_tag() {
        let rest = t.skip(7);
        match find_from(rest, close_tag(), 0) {
            Some(e) => (rest.skip(e + 8), Some(rest.subrange(0, e))),
            None => (content, None),
        }
    } else {
        (content, None)
    }
}

/// Whether `pat` occurs in `v` at position `i`.
fn occurs_at(v: &Vec<char>, pat: &Vec<char>, i: usize) -> (r: bool)
    requires
        i + pat.len() <= v.len(),
    ensures
        r == (v@.subrange(i as int, i + pat.len()) == pat@),
{
    let mut j: usize = 0;
    while j < pat.len()
        invariant
            j <= pat.len(),
            i + pat.len() <= v.len(),
            forall|k: int| 0 <= k < j ==> v@[i + k] == pat@[k],
        decreases pat.len() - j,
    {
        if v[i + j] != pat[j] {
            assert(v@.subrange(i as int, i + pat.len())[j as int] != pat@[j as int]);
            return false;
        }
        j = j + 1;
    }
    assert(v@.subrange(i as int, i + pat.len()) =~= pat@);
    true
}

/// The chars of the opening tag.
fn open_tag_chars() -> (r: Vec<char>)
    ensures
        r@ == open_tag(),
{
    let r = vec!['<', 't', 'h', 'i', 'n', 'k', '>'];
    assert(r@ =~= open_tag());
    r
}

/// The chars of the closing tag.
fn close_tag_chars() -> (r: Vec<char>)
    ensures
        r@ == close_tag(),
{
    let r = vec!['<', '/', 't', 'h', 'i', 'n', 'k', '>'];
    assert(r@ =~= close_tag());
    r
}

/// Separates a leading `<think>...</think>` block (white space may precede it): returns the
/// remaining content and the thinking text; an unclosed or non-leading tag leaves the content
/// unchanged with no thinking. The content is always present.
pub fn strip_think_tag(content: &str) -> (r: (Option<String>, Option<String>))
    ensures
        r.0 matches Some(c) && c@ == spec_strip_think(content@).0,
        match spec_strip_think(content@).1 {
            Some(t) => r.1 matches Some(x) && x@ == t,
            None => r.1 is None,
        },
{
    let v = chars_of(content);
    let mut a: usize = 0;
    assert(v@.skip(0) =~= v@);
    while a < v.len() && is_whitespace(v[a])
        invariant
            a <= v.len(),
            v@ == content@,
            trim_start(content@) == trim_start(v@.skip(a as int)),
        decreases v.len() - a,
    {
        assert(v@.skip(a as int).drop_first() =~= v@.skip(a + 1));
        a = a + 1;
    }
    let ghost t = v@.skip(a as int);
    assert(trim_start(t) == t);
    let open = open_tag_chars();
    if v.len() >= 7 && a <= v.len() - 7 && occurs_at(&v, &open, a) {
        assert(t.subrange(0, 7) =~= v@.subrange(a as int, a + 7));
        let close = close_tag_chars();
        let start = a + 7;
        let ghost rest = t.skip(7);
        assert(rest =~= v@.skip(start as int));
        let mut i: usize = start;
        while v.len() >= 8 && i <= v.len() - 8
            invariant
                start <= i,
                start == a + 7,
                a + 7 <= v.len(),
                v@ == content@,
                t == v@.skip(a as int),
                trim_start(content@) == t,
                t.len() >= 7 && t.subrange(0, 7) == open_tag(),
                close@ == close_tag(),
                rest == t.skip(7),
                rest == v@.skip(start as int),
                find_from(rest, close_tag(), 0) == find_from(rest, close_tag(), i - start),
            decreases v.len() - i,
        {
            assert(rest.subrange(i - start, i - start + 8) =~= v@.subrange(i as int, i + 8));
            if occurs_at(&v, &close, i) {
                let thinking = string_from_chars(&v, start, i);
                let stripped = string_from_chars(&v, i + 8, v.len());
                assert(find_from(rest, close_tag(), i - start) == Some(i - start));
                assert(rest.subrange(0, i - start) =~= v@.subrange(start as int, i as int));
                assert(rest.skip(i - start + 8) =~= v@.subrange(i + 8, v.len() as int));
                return (Some(stripped), Some(thinking));
            }
            i = i + 1;
        }
        assert(find_from(rest, close_tag(), i - start) is None);
        return (Some(owned(content)), None);
    }
    proof {
        if t.len() >= 7 && t.subrange(0, 7) == open_tag() {
            assert(t.subrange(0, 7) =~= v@.subrange(a as int, a + 7));
        }
    }
    (Some(owned(content)), None)
}

} // verus!
