//! The immutable options one scan tree runs under, and the small
//! coordinator computations over them.

use vstd::prelude::*;

verus! {

/// User options, shared read-only across every scan derived from the root.
pub struct ScanConfig {
    /// Status codes worth reporting.
    pub status_codes: Vec<u16>,
    /// Body sizes to discard outright.
    pub size_filters: Vec<u64>,
    /// File extensions to append to each wordlist entry.
    pub extensions: Vec<String>,
    /// Append a trailing slash to each extension-less candidate.
    pub add_slash: bool,
    /// Query pairs appended to every candidate URL.
    pub queries: Vec<(String, String)>,
    /// Whether the HTTP client follows redirects.
    pub follow_redirects: bool,
    /// Never recurse into discovered directories.
    pub no_recursion: bool,
    /// Maximum recursion depth relative to the root scan; 0 means unbounded.
    pub max_depth: usize,
    /// Concurrent request workers per scan.
    pub threads: usize,
    /// Output file path; empty means report to the terminal.
    pub output: String,
    /// Print bare URLs instead of full report lines.
    pub quiet: bool,
    /// Disable the wildcard auto-filter.
    pub dont_filter: bool,
}

/// How many requests a scan of `word_count` words will issue: one per word
/// plus one per word and extension. `None` when the total does not fit in
/// a progress counter.
pub fn expected_requests(word_count: usize, extension_count: usize) -> (r: Option<u64>)
    ensures
        r is Some <==> word_count * (extension_count + 1) <= u64::MAX,
        r is Some ==> r.unwrap() == word_count * (extension_count + 1),
{
    let words: u128 = word_count as u128;
    let per_word: u128 = (extension_count as u128) + 1;
    proof {
        assert(words * per_word <= 0xffff_ffff_ffff_ffff_u128 * 0x1_0000_0000_0000_0000_u128)
            by (nonlinear_arith)
            requires
                words <= 0xffff_ffff_ffff_ffff_u128,
                per_word <= 0x1_0000_0000_0000_0000_u128,
        ;
    }
    let total: u128 = words * per_word;
    if total <= 0xffff_ffff_ffff_ffff_u128 {
        Some(total as u64)
    } else {
        None
    }
}

} // verus!
