//! The engine's view of one HTTP response: exactly the plain values the
//! scan logic reads. The HTTP client's own response type stays outside the
//! library; callers copy these fields out of it.

use vstd::prelude::*;

verus! {

/// One completed HTTP exchange, reduced to what classification, filtering
/// and reporting need.
pub struct ScanResponse {
    /// HTTP status code.
    pub status: u16,
    /// Final URL after any redirects the client followed, serialized.
    pub url: String,
    /// Body length in bytes; 0 when the server sent none.
    pub content_length: u64,
    /// Raw `Location` header, when present and readable as text.
    pub location: Option<String>,
}

/// Mathematical view of a [`ScanResponse`].
pub struct ScanResponseView {
    pub status: u16,
    pub url: Seq<char>,
    pub content_length: u64,
    pub location: Option<Seq<char>>,
}

impl View for ScanResponse {
    type V = ScanResponseView;

    open spec fn view(&self) -> ScanResponseView {
        ScanResponseView {
            status: self.status,
            url: self.url@,
            content_length: self.content_length,
            location: self.location.deep_view(),
        }
    }
}

} // verus!
