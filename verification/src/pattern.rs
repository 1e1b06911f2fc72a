//! Matching a record against a pattern, and decoding a record's bytes.

use vstd::prelude::*;

verus! {

/// What matching `pattern` against `text` gives: nothing where the pattern
/// is not a valid regular expression or matches nowhere in the text;
/// otherwise, for the leftmost match, the text of every group, the whole
/// match first, a group that took no part in the match holding nothing.
pub uninterp spec fn regex_captures(pattern: Seq<char>, text: Seq<char>) -> Option<
    Seq<Option<Seq<char>>>,
>;

/// The text of a record's bytes, each invalid UTF-8 sequence replaced by the
/// replacement character.
pub uninterp spec fn lossy_text(bytes: Seq<u8>) -> Seq<char>;

/// The groups of a match, as text.
pub open spec fn groups_view(groups: Seq<Option<String>>) -> Seq<Option<Seq<char>>> {
    Seq::new(
        groups.len(),
        |i: int|
            match groups[i] {
                Some(s) => Some(s@),
                None => None,
            },
    )
}

/// The groups of an optional match, as text.
pub open spec fn match_view(m: Option<Vec<Option<String>>>) -> Option<Seq<Option<Seq<char>>>> {
    match m {
        Some(g) => Some(groups_view(g@)),
        None => None,
    }
}

/// The text of group `i` of a match, if the match has that group and the
/// group took part in it.
pub open spec fn group(groups: Seq<Option<Seq<char>>>, i: int) -> Option<Seq<char>> {
    if 0 <= i < groups.len() {
        groups[i]
    } else {
        None
    }
}

/// `regex::Regex::new` followed by `Regex::captures` and `Captures::iter`
/// of the crate regex. The contract names the outcome, which depends on the
/// pattern and the text alone, and says nothing of what it is for any given
/// pattern.
#[verifier::external_body]
pub(crate) fn captures(pattern: &str, text: &str) -> (m: Option<Vec<Option<String>>>)
    ensures
        match_view(m) == regex_captures(pattern@, text@),
{
    let re = regex::Regex::new(pattern).ok()?;
    let found = re.captures(text)?;
    Some(found.iter().map(|g| g.map(|t| t.as_str().to_string())).collect())
}

/// `String::from_utf8_lossy` of the standard library. The contract names the
/// decoded text, which depends on the bytes alone.
#[verifier::external_body]
pub(crate) fn decode_lossy(bytes: &[u8]) -> (s: String)
    ensures
        s@ == lossy_text(bytes@),
{
    String::from_utf8_lossy(bytes).into_owned()
}

/// The text of group `i` of a match.
pub fn group_of(groups: &Vec<Option<String>>, i: usize) -> (r: Option<&String>)
    ensures
        match r {
            Some(s) => group(groups_view(groups@), i as int) == Some(s@),
            None => group(groups_view(groups@), i as int) is None,
        },
{
    if i < groups.len() {
        groups[i].as_ref()
    } else {
        None
    }
}

} // verus!
