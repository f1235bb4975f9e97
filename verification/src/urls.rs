//! Trusted boundary around the `url` crate. The engine treats a URL as its
//! serialized string; parsing, joining and path extraction are outside calls
//! whose results are named here and believed, not proved.

use vstd::prelude::*;

verus! {

pub uninterp spec fn url_parse_spec(s: Seq<char>) -> Option<Seq<char>>;

pub uninterp spec fn url_join_spec(base: Seq<char>, rel: Seq<char>) -> Option<Seq<char>>;

pub uninterp spec fn url_path_spec(s: Seq<char>) -> Option<Seq<char>>;

/// Relies on `url::Url::parse` and `url::Url::as_str`: whether a string
/// parses as an absolute URL, and the serialization of the parsed URL,
/// depend on the input string alone.
#[verifier::external_body]
pub(crate) fn parse_url(s: &str) -> (r: Option<String>)
    ensures
        r is Some <==> url_parse_spec(s@) is Some,
        r is Some ==> r.unwrap()@ == url_parse_spec(s@).unwrap(),
{
    match url::Url::parse(s) {
        Ok(u) => Some(String::from(u.as_str())),
        Err(_) => None,
    }
}

/// Relies on `url::Url::parse` and `url::Url::join`: the resolution of a
/// (possibly relative) URL reference `rel` against the absolute URL `base`
/// depends on the two strings alone. `None` covers both an unparseable base
/// and a failed join.
#[verifier::external_body]
pub(crate) fn join_url(base: &str, rel: &str) -> (r: Option<String>)
    ensures
        r is Some <==> url_join_spec(base@, rel@) is Some,
        r is Some ==> r.unwrap()@ == url_join_spec(base@, rel@).unwrap(),
{
    match url::Url::parse(base) {
        Ok(b) => match b.join(rel) {
            Ok(u) => Some(String::from(u.as_str())),
            Err(_) => None,
        },
        Err(_) => None,
    }
}

/// Relies on `url::Url::parse` and `url::Url::path`: the path component of
/// an absolute URL depends on the URL string alone. `None` when the string
/// does not parse.
#[verifier::external_body]
pub(crate) fn url_path(s: &str) -> (r: Option<String>)
    ensures
        r is Some <==> url_path_spec(s@) is Some,
        r is Some ==> r.unwrap()@ == url_path_spec(s@).unwrap(),
{
    match url::Url::parse(s) {
        Ok(u) => Some(String::from(u.path())),
        Err(_) => None,
    }
}

} // verus!
