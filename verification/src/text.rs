//! Character sequences: building strings, finding a piece of text inside
//! another, and the debug rendering of names.

use vstd::prelude::*;

verus! {

/// What `{:?}` makes of a string: the text in double quotes, with quotes,
/// backslashes and unprintable characters escaped.
pub uninterp spec fn debug_str(s: Seq<char>) -> Seq<char>;

/// `format!("{:?}", s)` for a string slice: std's `Debug` for `str`. Its
/// result is a function of the characters of `s` alone; which escapes it
/// uses is not stated here.
#[verifier::external_body]
pub(crate) fn debug_string(s: &str) -> (r: String)
    ensures
        r@ == debug_str(s@),
{
    format!("{:?}", s)
}

/// std's `String::push`: appends the character `c` to `s`.
#[verifier::external_body]
pub(crate) fn push_char(s: &mut String, c: char)
    ensures
        final(s)@ == old(s)@.push(c),
{
    s.push(c)
}

/// `needle` occurs in `hay` as a run of consecutive characters (the empty
/// needle occurs everywhere).
pub open spec fn contains_chars(hay: Seq<char>, needle: Seq<char>) -> bool {
    exists|i: int|
        0 <= i && i + needle.len() <= hay.len() && #[trigger] hay.subrange(i, i + needle.len())
            == needle
}

/// The characters of `s`, in order.
pub fn chars_of(s: &str) -> (v: Vec<char>)
    ensures
        v@ == s@,
{
    let n = s.unicode_len();
    let mut v: Vec<char> = Vec::new();
    for i in 0..n
        invariant
            n == s@.len(),
            v@ == s@.take(i as int),
    {
        v.push(s.get_char(i));
        assert(v@ =~= s@.take(i + 1));
    }
    assert(v@ =~= s@);
    v
}

fn matches_at(hay: &Vec<char>, needle: &Vec<char>, at: usize) -> (r: bool)
    requires
        at + needle@.len() <= hay@.len(),
    ensures
        r == (hay@.subrange(at as int, at + needle@.len()) == needle@),
{
    let n = needle.len();
    let mut j: usize = 0;
    while j < n
        invariant
            n == needle@.len(),
            at + n <= hay.len(),
            j <= n,
            forall|t: int| 0 <= t < j ==> hay@[at + t] == needle@[t],
        decreases n - j,
    {
        if hay[at + j] != needle[j] {
            assert(hay@.subrange(at as int, at + n)[j as int] != needle@[j as int]);
            return false;
        }
        j += 1;
    }
    assert(hay@.subrange(at as int, at + n) =~= needle@);
    true
}

/// Whether `needle` occurs in `hay` (as `str::contains` answers it).
pub fn text_contains(hay: &str, needle: &str) -> (r: bool)
    ensures
        r == contains_chars(hay@, needle@),
{
    let h = chars_of(hay);
    let n = chars_of(needle);
    if n.len() > h.len() {
        return false;
    }
    if n.len() == 0 {
        assert(contains_chars(hay@, needle@)) by {
            assert(hay@.subrange(0int, 0int + needle@.len()) =~= needle@);
        }
        return true;
    }
    let last = h.len() - n.len();
    let mut i: usize = 0;
    while i <= last
        invariant
            h@ == hay@,
            n@ == needle@,
            last == h@.len() - n@.len(),
            n@.len() <= h@.len(),
            1 <= n@.len(),
            last < h.len(),
            forall|k: int| 0 <= k < i ==> #[trigger] h@.subrange(k, k + n@.len()) != n@,
        decreases last + 1 - i,
    {
        if matches_at(&h, &n, i) {
            return true;
        }
        i += 1;
    }
    false
}

/// Containment as searching text sees it: every text contains the empty
/// text and itself, and whatever stands between a prefix and a suffix; no
/// text contains a longer one.
pub proof fn lemma_contains_laws(pre: Seq<char>, mid: Seq<char>, post: Seq<char>, other: Seq<
    char,
>)
    ensures
        contains_chars(mid, Seq::<char>::empty()),
        contains_chars(mid, mid),
        contains_chars(pre + mid + post, mid),
        other.len() > mid.len() ==> !contains_chars(mid, other),
{
    assert(mid.subrange(0int, 0int + Seq::<char>::empty().len()) =~= Seq::<char>::empty());
    assert(mid.subrange(0int, 0int + mid.len()) =~= mid);
    let whole = pre + mid + post;
    assert(whole.subrange(pre.len() as int, pre.len() as int + mid.len()) =~= mid);
}

} // verus!
