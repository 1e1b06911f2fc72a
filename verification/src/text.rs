//! Searching and trimming text, over the characters of a string.

use vstd::prelude::*;
use vstd::string::*;

verus! {

/// Whether a character has the Unicode property White_Space.
pub uninterp spec fn is_white_space(c: char) -> bool;

/// `char::is_whitespace` of the standard library, which tells whether a
/// character has the Unicode property White_Space. The contract gives that
/// answer a name and says nothing of which characters have the property.
#[verifier::external_body]
pub(crate) fn white_space(c: char) -> (r: bool)
    ensures
        r == is_white_space(c),
{
    c.is_whitespace()
}

/// What is taken off the ends of a text.
#[derive(Clone, Copy, Debug)]
pub enum Strip {
    /// Every character with the property White_Space.
    WhiteSpace,
    /// Every occurrence of one character.
    Exactly(char),
}

/// Whether `kind` takes the character `c` off.
pub open spec fn strips(kind: Strip, c: char) -> bool {
    match kind {
        Strip::WhiteSpace => is_white_space(c),
        Strip::Exactly(d) => c == d,
    }
}

/// `s` without the stripped characters at its start.
pub open spec fn skip_leading(s: Seq<char>, kind: Strip) -> Seq<char>
    decreases s.len(),
{
    if s.len() > 0 && strips(kind, s[0]) {
        skip_leading(s.drop_first(), kind)
    } else {
        s
    }
}

/// `s` without the stripped characters at its end.
pub open spec fn skip_trailing(s: Seq<char>, kind: Strip) -> Seq<char>
    decreases s.len(),
{
    if s.len() > 0 && strips(kind, s.last()) {
        skip_trailing(s.drop_last(), kind)
    } else {
        s
    }
}

/// `s` without the stripped characters at both ends.
pub open spec fn stripped(s: Seq<char>, kind: Strip) -> Seq<char> {
    skip_trailing(skip_leading(s, kind), kind)
}

/// Whether `needle` stands in `hay` at index `i`.
pub open spec fn occurs_at(hay: Seq<char>, needle: Seq<char>, i: int) -> bool {
    0 <= i && i + needle.len() <= hay.len() && hay.subrange(i, i + needle.len()) == needle
}

/// The first index at or after `from` at which `needle` stands in `hay`.
pub open spec fn find_from(hay: Seq<char>, needle: Seq<char>, from: int) -> Option<int>
    decreases hay.len() - from + 1,
{
    if from < 0 || from + needle.len() > hay.len() {
        None
    } else if occurs_at(hay, needle, from) {
        Some(from)
    } else {
        find_from(hay, needle, from + 1)
    }
}

/// The first index at which `needle` stands in `hay`.
pub open spec fn find(hay: Seq<char>, needle: Seq<char>) -> Option<int> {
    find_from(hay, needle, 0)
}

/// Whether `needle` stands anywhere in `hay`.
pub open spec fn contains(hay: Seq<char>, needle: Seq<char>) -> bool {
    find(hay, needle) is Some
}

/// What `find_from` returns is the least index, at or after `from`, at which
/// the needle stands; it returns nothing exactly when there is none.
pub proof fn lemma_find_is_first(hay: Seq<char>, needle: Seq<char>, from: int)
    requires
        0 <= from,
    ensures
        match find_from(hay, needle, from) {
            Some(i) => from <= i && occurs_at(hay, needle, i) && forall|j: int|
                from <= j < i ==> !occurs_at(hay, needle, j),
            None => forall|j: int| from <= j ==> !occurs_at(hay, needle, j),
        },
    decreases hay.len() - from + 1,
{
    if from + needle.len() <= hay.len() && !occurs_at(hay, needle, from) {
        lemma_find_is_first(hay, needle, from + 1);
    }
}

/// Searching the rest of a text from its start is searching the text from
/// where the rest begins.
pub proof fn lemma_find_shifts(hay: Seq<char>, needle: Seq<char>, start: int, from: int)
    requires
        0 <= start <= from,
        start <= hay.len(),
    ensures
        find_from(hay.subrange(start, hay.len() as int), needle, from - start) == (
        match find_from(hay, needle, from) {
            Some(i) => Some(i - start),
            None => None,
        }),
    decreases hay.len() - from + 1,
{
    let rest = hay.subrange(start, hay.len() as int);
    if from + needle.len() <= hay.len() {
        assert(rest.subrange(from - start, from - start + needle.len()) =~= hay.subrange(
            from,
            from + needle.len(),
        ));
        if !occurs_at(hay, needle, from) {
            lemma_find_shifts(hay, needle, start, from + 1);
        }
    }
}

/// The characters of a string, in order.
pub fn chars_of(s: &str) -> (out: Vec<char>)
    ensures
        out@ == s@,
{
    broadcast use vstd::string::group_string_axioms;

    let mut out: Vec<char> = Vec::new();
    for c in iter: s.chars()
        invariant
            iter.seq() == s@,
            out@ == iter.seq().take(iter.index() as int),
    {
        out.push(c);
        assert(iter.seq().take(iter.index() + 1) =~= iter.seq().take(iter.index() as int).push(c));
    }
    assert(s@.take(s@.len() as int) =~= s@);
    out
}

/// Whether `needle` stands in `hay` at index `at`.
pub fn stands_at(hay: &Vec<char>, needle: &Vec<char>, at: usize) -> (r: bool)
    ensures
        r == occurs_at(hay@, needle@, at as int),
{
    if needle.len() > hay.len() || at > hay.len() - needle.len() {
        return false;
    }
    let mut k: usize = 0;
    while k < needle.len()
        invariant
            k <= needle.len(),
            at + needle.len() <= hay.len(),
            forall|j: int| 0 <= j < k ==> hay@[at + j] == needle@[j],
        decreases needle.len() - k,
    {
        if hay[at + k] != needle[k] {
            proof {
                let part = hay@.subrange(at as int, at + needle.len());
                assert(part[k as int] != needle@[k as int]);
            }
            return false;
        }
        k = k + 1;
    }
    assert(hay@.subrange(at as int, at + needle.len()) =~= needle@);
    true
}

/// The first index at or after `from` at which `needle` stands in `hay`.
pub fn find_after(hay: &Vec<char>, needle: &Vec<char>, from: usize) -> (r: Option<usize>)
    ensures
        match r {
            Some(i) => find_from(hay@, needle@, from as int) == Some(i as int),
            None => find_from(hay@, needle@, from as int) is None,
        },
{
    if needle.len() > hay.len() {
        return None;
    }
    let last: usize = hay.len() - needle.len();
    let mut i: usize = from;
    while i <= last
        invariant
            from <= i,
            last == hay.len() - needle.len(),
            find_from(hay@, needle@, from as int) == find_from(hay@, needle@, i as int),
        decreases last + 1 - i,
    {
        if stands_at(hay, needle, i) {
            return Some(i);
        }
        if i == last {
            assert(find_from(hay@, needle@, i as int + 1) is None);
            return None;
        }
        i = i + 1;
    }
    None
}

/// Whether `needle` stands anywhere in `hay`.
pub fn holds(hay: &Vec<char>, needle: &Vec<char>) -> (r: bool)
    ensures
        r == contains(hay@, needle@),
{
    find_after(hay, needle, 0).is_some()
}

/// The bounds of `chars[lo..hi]` without the stripped characters at both
/// ends.
pub fn strip_bounds(chars: &Vec<char>, lo: usize, hi: usize, kind: Strip) -> (r: (usize, usize))
    requires
        lo <= hi <= chars.len(),
    ensures
        lo <= r.0 <= r.1 <= hi,
        chars@.subrange(r.0 as int, r.1 as int) == stripped(chars@.subrange(lo as int, hi as int), kind),
{
    let mut a: usize = lo;
    while a < hi && takes(kind, chars[a])
        invariant
            lo <= a <= hi <= chars.len(),
            skip_leading(chars@.subrange(lo as int, hi as int), kind) == skip_leading(
                chars@.subrange(a as int, hi as int),
                kind,
            ),
        decreases hi - a,
    {
        assert(chars@.subrange(a as int, hi as int).drop_first() =~= chars@.subrange(
            a as int + 1,
            hi as int,
        ));
        a = a + 1;
    }
    let mut b: usize = hi;
    while a < b && takes(kind, chars[b - 1])
        invariant
            lo <= a <= b <= hi <= chars.len(),
            skip_leading(chars@.subrange(lo as int, hi as int), kind) == chars@.subrange(
                a as int,
                hi as int,
            ),
            skip_trailing(chars@.subrange(a as int, hi as int), kind) == skip_trailing(
                chars@.subrange(a as int, b as int),
                kind,
            ),
        decreases b - a,
    {
        assert(chars@.subrange(a as int, b as int).drop_last() =~= chars@.subrange(
            a as int,
            b as int - 1,
        ));
        b = b - 1;
    }
    (a, b)
}

/// Whether `kind` takes the character `c` off.
pub fn takes(kind: Strip, c: char) -> (r: bool)
    ensures
        r == strips(kind, c),
{
    match kind {
        Strip::WhiteSpace => white_space(c),
        Strip::Exactly(d) => c == d,
    }
}

/// Whether two texts are the same.
pub fn same_text(a: &str, b: &str) -> (r: bool)
    ensures
        r == (a@ == b@),
{
    let x = a.to_owned();
    let y = b.to_owned();
    x == y
}

} // verus!
