//! Checks on what a caller hands in: a path that has to exist, an address
//! that has to be a web address.

use vstd::prelude::*;
use vstd::string::*;
use crate::text::same_text;

verus! {

/// The scheme, the path and the pairs of key and value in the query of an
/// address, the pairs decoded and in order, where the address can be parsed
/// as a URL; nothing where it cannot.
pub uninterp spec fn url_parts(address: Seq<char>) -> Option<
    (Seq<char>, Seq<char>, Seq<(Seq<char>, Seq<char>)>),
>;

/// The texts of a list of pairs.
pub open spec fn pairs_view(pairs: Seq<(String, String)>) -> Seq<(Seq<char>, Seq<char>)> {
    Seq::new(pairs.len(), |i: int| (pairs[i].0@, pairs[i].1@))
}

/// The parts of an address as the contracts see them.
pub open spec fn parts_view(parts: Option<(String, String, Vec<(String, String)>)>) -> Option<
    (Seq<char>, Seq<char>, Seq<(Seq<char>, Seq<char>)>),
> {
    match parts {
        Some(p) => Some((p.0@, p.1@, pairs_view(p.2@))),
        None => None,
    }
}

/// `url::Url::parse` of the crate url, followed by `Url::scheme`,
/// `Url::path` and `Url::query_pairs` on what it returns. The contract names
/// the three parts of the parsed address, which depend on the text alone,
/// and says nothing of which texts parse or of what the parts are.
#[verifier::external_body]
pub(crate) fn address_parts(address: &str) -> (parts: Option<
    (String, String, Vec<(String, String)>),
>)
    ensures
        parts_view(parts) == url_parts(address@),
{
    let parsed = url::Url::parse(address).ok()?;
    let query = parsed.query_pairs().map(|(k, v)| (k.into_owned(), v.into_owned())).collect();
    Some((parsed.scheme().to_string(), parsed.path().to_string(), query))
}

/// `std::path::Path::exists` of the standard library. The answer depends on
/// what is on disk at the time of the call, so nothing is promised of it.
#[verifier::external_body]
pub(crate) fn path_exists(path: &str) -> (exists: bool) {
    std::path::Path::new(path).exists()
}

/// Whether a scheme is one of the two that the web uses.
pub open spec fn is_web_scheme(scheme: Seq<char>) -> bool {
    scheme == "http"@ || scheme == "https"@
}

/// The scheme among the parts of an address.
pub open spec fn scheme_in(parts: Option<(Seq<char>, Seq<char>, Seq<(Seq<char>, Seq<char>)>)>) -> Option<
    Seq<char>,
> {
    match parts {
        Some(p) => Some(p.0),
        None => None,
    }
}

/// Whether an address is accepted, given its scheme if it parsed.
pub open spec fn accepts_scheme(scheme: Option<Seq<char>>) -> bool {
    match scheme {
        Some(s) => is_web_scheme(s),
        None => false,
    }
}

/// Whether an address with this scheme is accepted: only `http` and
/// `https` are.
pub fn web_scheme(scheme: &str) -> (r: bool)
    ensures
        r == is_web_scheme(scheme@),
{
    same_text(scheme, "http") || same_text(scheme, "https")
}

/// Whether an address is a web address: it parses as a URL and its scheme
/// is `http` or `https`.
pub fn validate_url(url: &str) -> (r: bool)
    ensures
        r == accepts_scheme(scheme_in(url_parts(url@))),
{
    match address_parts(url) {
        Some(p) => web_scheme(p.0.as_str()),
        None => false,
    }
}

/// The path that is accepted, given whether something exists at it: the
/// input itself, unless it is empty or nothing is there.
pub fn accepted_path(input_path: &str, exists: bool) -> (r: Option<String>)
    ensures
        r is Some <==> input_path@.len() > 0 && exists,
        r is Some ==> r->0@ == input_path@,
{
    if input_path.is_empty() || !exists {
        None
    } else {
        Some(input_path.to_owned())
    }
}

/// The path, if it is not empty and something exists at it. Whether
/// something exists is asked of the file system, and only for a path that
/// is not empty.
pub fn validate_path(input_path: &str) -> (r: Option<String>)
    ensures
        input_path@.len() == 0 ==> r is None,
        r is Some ==> r->0@ == input_path@,
{
    if input_path.is_empty() {
        return None;
    }
    let exists = path_exists(input_path);
    accepted_path(input_path, exists)
}

/// A letter `A` to `Z` made small; any other character as it is.
pub open spec fn ascii_lower(c: char) -> char {
    if 'A' <= c && c <= 'Z' {
        ((c as u8 + 32) as u8) as char
    } else {
        c
    }
}

/// Whether a path is `/watch`, small and capital letters taken alike.
pub open spec fn is_watch(path: Seq<char>) -> bool {
    &&& path.len() == 6
    &&& path[0] == '/'
    &&& ascii_lower(path[1]) == 'w'
    &&& ascii_lower(path[2]) == 'a'
    &&& ascii_lower(path[3]) == 't'
    &&& ascii_lower(path[4]) == 'c'
    &&& ascii_lower(path[5]) == 'h'
}

/// Whether a query gives a value that is not empty for `key`.
pub open spec fn gives(query: Seq<(Seq<char>, Seq<char>)>, key: Seq<char>) -> bool {
    exists|i: int| 0 <= i < query.len() && (#[trigger] query[i]).0 == key && query[i].1.len() > 0
}

/// Whether an address with this path and query names one video of a list:
/// it is a watch page with both a video and a list in its query. Such an
/// address is read as the one video.
pub open spec fn is_single_video(path: Seq<char>, query: Seq<(Seq<char>, Seq<char>)>) -> bool {
    is_watch(path) && gives(query, "v"@) && gives(query, "list"@)
}

/// Whether a character is `letter`, which is a small letter, or its
/// capital.
fn is_letter(c: char, letter: char) -> (r: bool)
    requires
        'a' <= letter && letter <= 'z',
    ensures
        r == (ascii_lower(c) == letter),
{
    let small = letter as u8;
    c == letter || (c as u32 == (small - 32) as u32)
}

/// Whether a path is `/watch`, small and capital letters taken alike.
pub fn watch_path(path: &str) -> (r: bool)
    ensures
        r == is_watch(path@),
{
    if path.unicode_len() != 6 {
        return false;
    }
    path.get_char(0) == '/' && is_letter(path.get_char(1), 'w') && is_letter(
        path.get_char(2),
        'a',
    ) && is_letter(path.get_char(3), 't') && is_letter(path.get_char(4), 'c') && is_letter(
        path.get_char(5),
        'h',
    )
}

/// Whether a query gives a value that is not empty for `key`.
pub fn query_gives(query: &Vec<(String, String)>, key: &str) -> (r: bool)
    ensures
        r == gives(pairs_view(query@), key@),
{
    let mut i: usize = 0;
    while i < query.len()
        invariant
            i <= query.len(),
            forall|j: int|
                0 <= j < i ==> !((#[trigger] pairs_view(query@)[j]).0 == key@ && pairs_view(
                    query@,
                )[j].1.len() > 0),
        decreases query.len() - i,
    {
        let named = same_text(query[i].0.as_str(), key);
        if named && !query[i].1.as_str().is_empty() {
            assert(pairs_view(query@)[i as int].0 == key@);
            return true;
        }
        i = i + 1;
    }
    false
}

/// Whether an address with this path and query names one video of a list.
pub fn single_video(path: &str, query: &Vec<(String, String)>) -> (r: bool)
    ensures
        r == is_single_video(path@, pairs_view(query@)),
{
    watch_path(path) && query_gives(query, "v") && query_gives(query, "list")
}

/// Whether an address names one video of a list; false for an address
/// that does not parse as a URL.
pub fn names_single_video(address: &str) -> (r: bool)
    ensures
        r == match url_parts(address@) {
            Some(p) => is_single_video(p.1, p.2),
            None => false,
        },
{
    match address_parts(address) {
        Some(p) => single_video(p.1.as_str(), &p.2),
        None => false,
    }
}

} // verus!
