//! Depth and path-length measures over serialized URLs, used by the
//! recursion cap and the dynamic wildcard filter.

use vstd::prelude::*;
use vstd::string::StrSliceExecFns;
use vstd::string::StringExecFns;

use crate::expand::normalized_target_spec;
use crate::text::count_char;
use crate::text::count_slashes;
use crate::text::ends_with_slash;
use crate::text::str_ends_with_slash;
use crate::urls::url_path;
use crate::urls::url_path_spec;

verus! {

/// The recursion depth of a URL: the number of path segments of the URL
/// with a trailing slash ensured, which equals the number of slashes in its
/// path. A string that does not parse has depth 0.
pub open spec fn depth_spec(url: Seq<char>) -> nat {
    match url_path_spec(normalized_target_spec(url)) {
        Some(p) => count_char(p, '/'),
        None => 0,
    }
}

/// The character length of a URL's path, a trailing slash excluded, so a
/// directory and the entry it redirects from measure the same. A string
/// that does not parse has length 0.
pub open spec fn path_length_spec(url: Seq<char>) -> nat {
    match url_path_spec(url) {
        Some(p) => if ends_with_slash(p) {
            (p.len() - 1) as nat
        } else {
            p.len()
        },
        None => 0,
    }
}

/// How many directories deep a URL sits; the measure the recursion cap is
/// stated over.
pub fn get_current_depth(url: &str) -> (depth: usize)
    ensures
        depth == depth_spec(url@),
{
    let mut normalized = String::from_str(url);
    if !str_ends_with_slash(url) {
        normalized.append("/");
    }
    proof {
        reveal_strlit("/");
        assert(normalized@ =~= normalized_target_spec(url@));
    }
    match url_path(normalized.as_str()) {
        Some(p) => count_slashes(p.as_str()),
        None => 0,
    }
}

/// The length of a URL's path in characters, excluding a trailing slash.
pub fn get_url_path_length(url: &str) -> (len: usize)
    ensures
        len == path_length_spec(url@),
{
    match url_path(url) {
        Some(p) => {
            let n = p.as_str().unicode_len();
            if n > 0 && p.as_str().get_char(n - 1) == '/' {
                n - 1
            } else {
                n
            }
        },
        None => 0,
    }
}

} // verus!
