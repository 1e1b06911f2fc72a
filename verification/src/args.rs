//! Building blocks of an argument list: appending, joining, the words
//! of a text.

use vstd::prelude::*;
use vstd::string::*;
use crate::text::{chars_of, is_white_space, white_space};

verus! {

/// The texts of a list of strings.
pub open spec fn texts(v: Seq<String>) -> Seq<Seq<char>> {
    Seq::new(v.len(), |i: int| v[i]@)
}

/// Appends a copy of a text to a list.
pub fn put(list: &mut Vec<String>, s: &str)
    ensures
        texts(final(list)@) == texts(old(list)@).push(s@),
{
    list.push(s.to_owned());
    assert(texts(list@) =~= texts(old(list)@).push(s@));
}

/// Appends a string to a list.
pub fn put_owned(list: &mut Vec<String>, s: String)
    ensures
        texts(final(list)@) == texts(old(list)@).push(s@),
{
    list.push(s);
    assert(texts(list@) =~= texts(old(list)@).push(s@));
}

/// Appends an option and its value to a list.
pub fn put_pair(list: &mut Vec<String>, name: &str, value: &str)
    ensures
        texts(final(list)@) == texts(old(list)@) + seq![name@, value@],
{
    put(list, name);
    put(list, value);
    assert(texts(list@) =~= texts(old(list)@) + seq![name@, value@]);
}

/// Two texts, one after the other.
pub fn joined(a: &str, b: &str) -> (r: String)
    ensures
        r@ == a@ + b@,
{
    let mut r = a.to_owned();
    r.append(b);
    r
}

/// What a reader of words holds after some characters: the words that are
/// complete and the characters of the word still open.
pub struct WordScan {
    pub complete: Seq<Seq<char>>,
    pub open: Seq<char>,
}

/// Reading one character: white space closes the open word if it holds
/// anything; any other character extends it.
pub open spec fn word_step(st: WordScan, c: char) -> WordScan {
    if is_white_space(c) {
        if st.open.len() > 0 {
            WordScan { complete: st.complete.push(st.open), open: Seq::empty() }
        } else {
            st
        }
    } else {
        WordScan { complete: st.complete, open: st.open.push(c) }
    }
}

/// Reading the characters of a text, in order.
pub open spec fn word_scan(s: Seq<char>) -> WordScan
    decreases s.len(),
{
    if s.len() == 0 {
        WordScan { complete: Seq::empty(), open: Seq::empty() }
    } else {
        word_step(word_scan(s.drop_last()), s.last())
    }
}

/// The words of a text: its longest runs of characters that are not white
/// space, in order.
pub open spec fn words_of(s: Seq<char>) -> Seq<Seq<char>> {
    let st = word_scan(s);
    if st.open.len() > 0 {
        st.complete.push(st.open)
    } else {
        st.complete
    }
}

/// Appends the words of a text to a list.
pub fn put_words(list: &mut Vec<String>, s: &str)
    ensures
        texts(final(list)@) == texts(old(list)@) + words_of(s@),
{
    let chars = chars_of(s);
    let n = chars.len();
    let mut start: usize = 0;
    let mut i: usize = 0;
    assert(chars@.take(0) =~= Seq::<char>::empty());
    assert(chars@.subrange(0, 0) =~= Seq::<char>::empty());
    assert(texts(list@) =~= texts(old(list)@) + word_scan(chars@.take(0)).complete);
    while i < n
        invariant
            start <= i <= n,
            n == chars.len(),
            chars@ == s@,
            texts(list@) == texts(old(list)@) + word_scan(chars@.take(i as int)).complete,
            word_scan(chars@.take(i as int)).open == chars@.subrange(start as int, i as int),
        decreases n - i,
    {
        let c = chars[i];
        let ghost before = word_scan(chars@.take(i as int));
        proof {
            let next = chars@.take(i as int + 1);
            assert(next.drop_last() =~= chars@.take(i as int));
            assert(next.last() == c);
        }
        if white_space(c) {
            if start < i {
                let ghost held = texts(list@);
                put(list, s.substring_char(start, i));
                assert(texts(list@) =~= texts(old(list)@) + before.complete.push(before.open));
            }
            start = i + 1;
            assert(chars@.subrange(start as int, i as int + 1) =~= Seq::<char>::empty());
        } else {
            assert(chars@.subrange(start as int, i as int + 1) =~= before.open.push(c));
        }
        i = i + 1;
    }
    assert(chars@.take(n as int) =~= chars@);
    if start < n {
        let ghost last = word_scan(chars@);
        put(list, s.substring_char(start, n));
        assert(texts(list@) =~= texts(old(list)@) + last.complete.push(last.open));
    }
}

} // verus!
