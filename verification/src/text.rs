//! Strings as sequences of characters: the conversions that the rest of the
//! crate builds on, and a few searches over character sequences.

use vstd::prelude::*;

verus! {

/// Appends one character to a string.
///
/// Calls `String::push`, which appends the given `char` to the end of the
/// string; the contract says so over the string's view.
#[verifier::external_body]
pub(crate) fn push_char(s: &mut String, c: char)
    ensures
        final(s)@ == old(s)@.push(c),
{
    s.push(c);
}

/// The characters of `s`, in order.
pub fn chars_of(s: &str) -> (out: Vec<char>)
    ensures
        out@ == s@,
{
    broadcast use vstd::string::group_string_axioms;

    let mut out: Vec<char> = Vec::new();
    for c in it: s.chars()
        invariant
            out@ == it.seq().take(it.index() as int),
            it.seq() == s@,
    {
        out.push(c);
    }
    out
}

/// The string made of the characters of `chars`, in order.
pub fn string_of(chars: &Vec<char>) -> (out: String)
    ensures
        out@ == chars@,
{
    let mut out = String::new();
    let mut i: usize = 0;
    while i < chars.len()
        invariant
            i <= chars.len(),
            out@ == chars@.take(i as int),
        decreases chars.len() - i,
    {
        push_char(&mut out, chars[i]);
        i += 1;
    }
    out
}

/// The text of an optional string.
pub open spec fn opt_text(s: Option<String>) -> Option<Seq<char>> {
    match s {
        Some(t) => Some(t@),
        None => None,
    }
}

/// Whether two strings hold the same text.
pub fn same_text(a: &str, b: &str) -> (same: bool)
    ensures
        same == (a@ == b@),
{
    let x: String = a.to_owned();
    let y: String = b.to_owned();
    x == y
}

/// `needle` stands in `hay` at index `i`.
pub open spec fn occurs_at(hay: Seq<char>, needle: Seq<char>, i: int) -> bool {
    0 <= i && i + needle.len() <= hay.len() && hay.subrange(i, i + needle.len()) == needle
}

/// `needle` is a contiguous part of `hay`.
pub open spec fn occurs_in(hay: Seq<char>, needle: Seq<char>) -> bool {
    exists|i: int| occurs_at(hay, needle, i)
}

/// Whether `needle` stands in `hay` at index `at`.
pub fn matches_at(hay: &Vec<char>, needle: &Vec<char>, at: usize) -> (found: bool)
    ensures
        found == occurs_at(hay@, needle@, at as int),
{
    if needle.len() > hay.len() || at > hay.len() - needle.len() {
        return false;
    }
    let mut j: usize = 0;
    while j < needle.len()
        invariant
            j <= needle.len(),
            at + needle.len() <= hay.len(),
            hay@.subrange(at as int, at + j) == needle@.take(j as int),
        decreases needle.len() - j,
    {
        if hay[at + j] != needle[j] {
            proof {
                let part = hay@.subrange(at as int, at + needle.len());
                assert(part[j as int] == hay@[at + j]);
            }
            return false;
        }
        proof {
            assert(hay@.subrange(at as int, at + j + 1) =~= hay@.subrange(at as int, at + j).push(
                hay@[at + j],
            ));
            assert(needle@.take(j + 1) =~= needle@.take(j as int).push(needle@[j as int]));
        }
        j += 1;
    }
    proof {
        assert(needle@.take(needle.len() as int) =~= needle@);
    }
    true
}

/// Whether `needle` is a contiguous part of `hay`.
pub fn contains_chars(hay: &Vec<char>, needle: &Vec<char>) -> (found: bool)
    ensures
        found == occurs_in(hay@, needle@),
{
    if needle.len() > hay.len() {
        return false;
    }
    let last: usize = hay.len() - needle.len();
    let mut i: usize = 0;
    while i < last
        invariant
            i <= last,
            last == hay.len() - needle.len(),
            needle.len() <= hay.len(),
            forall|k: int| 0 <= k < i ==> !occurs_at(hay@, needle@, k),
        decreases last - i,
    {
        if matches_at(hay, needle, i) {
            return true;
        }
        i += 1;
    }
    matches_at(hay, needle, last)
}

/// Whether the string `needle` is a contiguous part of the string `hay`.
pub fn str_contains(hay: &str, needle: &str) -> (found: bool)
    ensures
        found == occurs_in(hay@, needle@),
{
    let h = chars_of(hay);
    let n = chars_of(needle);
    contains_chars(&h, &n)
}

/// The index at which the last segment of `s` begins, where `/` parts the
/// segments: just behind the last `/`, or 0 where there is none.
pub open spec fn is_segment_start(s: Seq<char>, k: int) -> bool {
    &&& 0 <= k <= s.len()
    &&& k == 0 || s[k - 1] == '/'
    &&& forall|j: int| k <= j < s.len() ==> s[j] != '/'
}

/// What follows the last `/` of `s`; all of `s` where it holds none.
pub open spec fn last_segment(s: Seq<char>) -> Seq<char> {
    let k = choose|k: int| is_segment_start(s, k);
    s.subrange(k, s.len() as int)
}

/// Only one index begins the last segment.
pub proof fn lemma_segment_start_unique(s: Seq<char>, a: int, b: int)
    requires
        is_segment_start(s, a),
        is_segment_start(s, b),
    ensures
        a == b,
{
    if a < b {
        assert(s[b - 1] == '/');
    } else if b < a {
        assert(s[a - 1] == '/');
    }
}

/// The part of `s` behind its last `/`.
pub fn last_segment_of(s: &str) -> (out: String)
    ensures
        out@ == last_segment(s@),
{
    let chars = chars_of(s);
    let mut k: usize = chars.len();
    while k > 0 && chars[k - 1] != '/'
        invariant
            k <= chars.len(),
            forall|j: int| k <= j < chars.len() ==> chars@[j] != '/',
        decreases k,
    {
        k -= 1;
    }
    proof {
        assert(is_segment_start(chars@, k as int));
        let c = choose|c: int| is_segment_start(chars@, c);
        lemma_segment_start_unique(chars@, c, k as int);
    }
    let mut out = String::new();
    let mut i: usize = k;
    while i < chars.len()
        invariant
            k <= i <= chars.len(),
            out@ == chars@.subrange(k as int, i as int),
        decreases chars.len() - i,
    {
        push_char(&mut out, chars[i]);
        proof {
            assert(chars@.subrange(k as int, i + 1) =~= chars@.subrange(k as int, i as int).push(
                chars@[i as int],
            ));
        }
        i += 1;
    }
    out
}

/// What is left of `s` once the leading `prefix` is taken off, where `s`
/// begins with it.
pub open spec fn without_prefix(s: Seq<char>, prefix: Seq<char>) -> Option<Seq<char>> {
    if prefix.is_prefix_of(s) {
        Some(s.subrange(prefix.len() as int, s.len() as int))
    } else {
        None
    }
}

/// Takes the leading `prefix` off `s`; `None` where `s` does not begin with it.
pub fn strip_prefix_of(s: &str, prefix: &str) -> (out: Option<String>)
    ensures
        out is Some == without_prefix(s@, prefix@) is Some,
        out matches Some(t) ==> Some(t@) == without_prefix(s@, prefix@),
{
    let chars = chars_of(s);
    let head = chars_of(prefix);
    if !matches_at(&chars, &head, 0) {
        proof {
            if head@.is_prefix_of(chars@) {
                assert(chars@.subrange(0, head@.len() as int) =~= head@);
            }
        }
        return None;
    }
    proof {
        assert(head@.is_prefix_of(chars@));
    }
    let mut out = String::new();
    let mut i: usize = head.len();
    while i < chars.len()
        invariant
            head.len() <= i <= chars.len(),
            out@ == chars@.subrange(head.len() as int, i as int),
        decreases chars.len() - i,
    {
        push_char(&mut out, chars[i]);
        proof {
            assert(chars@.subrange(head.len() as int, i + 1) =~= chars@.subrange(
                head.len() as int,
                i as int,
            ).push(chars@[i as int]));
        }
        i += 1;
    }
    Some(out)
}

} // verus!
