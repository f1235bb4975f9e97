//! The recursion classifier: deciding from one response whether the server
//! hinted at a directory worth scanning further.

use vstd::prelude::*;
use vstd::string::StringExecFns;

use crate::response::ScanResponse;
use crate::response::ScanResponseView;
use crate::text::ends_with_slash;
use crate::text::str_ends_with_slash;
use crate::urls::join_url;
use crate::urls::url_join_spec;

verus! {

/// 3xx.
pub open spec fn is_redirect_status(status: u16) -> bool {
    300 <= status < 400
}

/// 2xx.
pub open spec fn is_success_status(status: u16) -> bool {
    200 <= status < 300
}

/// What counts as a directory: a redirect whose `Location`, resolved
/// against the response URL, is exactly that URL plus a trailing slash; or
/// a success whose URL already ends in a slash. A missing or unresolvable
/// `Location`, or any mismatch, is not a directory.
pub open spec fn is_directory_spec(v: ScanResponseView) -> bool {
    if is_redirect_status(v.status) {
        match v.location {
            Some(loc) => match url_join_spec(v.url, loc) {
                Some(abs) => abs == v.url.push('/'),
                None => false,
            },
            None => false,
        }
    } else if is_success_status(v.status) {
        ends_with_slash(v.url)
    } else {
        false
    }
}

/// Classifies one response. The result is a function of the response view
/// alone: equal responses always classify equally.
pub fn response_is_directory(response: &ScanResponse) -> (r: bool)
    ensures
        r == is_directory_spec(response@),
{
    if response.status >= 300 && response.status < 400 {
        match &response.location {
            Some(loc) => {
                match join_url(response.url.as_str(), loc.as_str()) {
                    Some(abs) => {
                        let mut expected = response.url.clone();
                        expected.append("/");
                        proof {
                            reveal_strlit("/");
                            assert(expected@ =~= response.url@.push('/'));
                        }
                        expected == abs
                    },
                    None => false,
                }
            },
            None => false,
        }
    } else if response.status >= 200 && response.status < 300 {
        str_ends_with_slash(response.url.as_str())
    } else {
        false
    }
}

/// Law: classification is pure — responses with equal views classify
/// equally, whatever else differed between the two exchanges.
pub proof fn lemma_is_directory_pure(a: ScanResponseView, b: ScanResponseView)
    ensures
        a == b ==> is_directory_spec(a) == is_directory_spec(b),
{
}

} // verus!
