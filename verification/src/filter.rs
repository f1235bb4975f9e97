//! The response filter: which responses are worth reporting, given the
//! configured allow-set, the static size filters and the per-scan wildcard
//! calibration.

use vstd::prelude::*;

use crate::config::ScanConfig;
use crate::paths::get_url_path_length;
use crate::paths::path_length_spec;
use crate::response::ScanResponse;
use crate::response::ScanResponseView;

verus! {

/// Heuristic description of a server's wildcard (catch-all) response, as
/// measured by a calibration probe: a fixed body size, or a body size that
/// tracks the length of the requested URL path at a fixed offset. Both
/// fields zero means "no wildcard filtering".
#[derive(Clone, Copy, Debug, PartialEq, Eq, Structural)]
pub struct WildcardFilter {
    /// Body size of a static wildcard response; 0 disables the static rule.
    pub size: u64,
    /// Offset of a dynamic wildcard response over the URL path length;
    /// 0 disables the dynamic rule.
    pub dynamic: u64,
}

impl WildcardFilter {
    /// The filter that filters nothing.
    pub fn zero() -> (r: Self)
        ensures
            r == (WildcardFilter { size: 0, dynamic: 0 }),
    {
        WildcardFilter { size: 0, dynamic: 0 }
    }
}

/// The filter a scan runs under: the calibration result, unless
/// calibration found nothing or auto-filtering is off, in which case the
/// zero filter.
pub fn effective_filter(calibration: Option<WildcardFilter>, dont_filter: bool) -> (r:
    WildcardFilter)
    ensures
        dont_filter || calibration is None ==> r == (WildcardFilter { size: 0, dynamic: 0 }),
        !dont_filter && calibration is Some ==> r == calibration.unwrap(),
{
    match calibration {
        Some(f) => {
            if dont_filter {
                WildcardFilter::zero()
            } else {
                f
            }
        },
        None => WildcardFilter::zero(),
    }
}

/// A response is reported exactly when its status is allowed, its size is
/// not explicitly filtered, and — unless auto-filtering is off — it matches
/// neither the static nor the dynamic wildcard heuristic.
pub open spec fn report_spec(
    v: ScanResponseView,
    filter: WildcardFilter,
    allowed: Seq<u16>,
    size_filters: Seq<u64>,
    dont_filter: bool,
) -> bool {
    &&& allowed.contains(v.status)
    &&& !size_filters.contains(v.content_length)
    &&& !(!dont_filter && filter.size > 0 && filter.size == v.content_length)
    &&& !(!dont_filter && filter.dynamic > 0 && path_length_spec(v.url) + filter.dynamic
        == v.content_length)
}

/// Law: a reported response always has an allowed status and a content
/// length outside the size-filter set, and — unless auto-filtering is off —
/// one matching neither the static nor the dynamic wildcard heuristic.
pub proof fn lemma_reported_is_unfiltered(
    v: ScanResponseView,
    filter: WildcardFilter,
    allowed: Seq<u16>,
    size_filters: Seq<u64>,
    dont_filter: bool,
)
    ensures
        report_spec(v, filter, allowed, size_filters, dont_filter) ==> allowed.contains(v.status),
        report_spec(v, filter, allowed, size_filters, dont_filter) ==> !size_filters.contains(
            v.content_length,
        ),
        report_spec(v, filter, allowed, size_filters, dont_filter) && !dont_filter && filter.size
            > 0 ==> v.content_length != filter.size,
        report_spec(v, filter, allowed, size_filters, dont_filter) && !dont_filter
            && filter.dynamic > 0 ==> path_length_spec(v.url) + filter.dynamic != v.content_length,
{
}

fn contains_u16(items: &Vec<u16>, value: u16) -> (r: bool)
    ensures
        r == items@.contains(value),
{
    let mut i: usize = 0;
    while i < items.len()
        invariant
            i <= items.len(),
            forall|j: int| 0 <= j < i ==> items@[j] != value,
        decreases items.len() - i,
    {
        if items[i] == value {
            return true;
        }
        i = i + 1;
    }
    false
}

fn contains_u64(items: &Vec<u64>, value: u64) -> (r: bool)
    ensures
        r == items@.contains(value),
{
    let mut i: usize = 0;
    while i < items.len()
        invariant
            i <= items.len(),
            forall|j: int| 0 <= j < i ==> items@[j] != value,
        decreases items.len() - i,
    {
        if items[i] == value {
            return true;
        }
        i = i + 1;
    }
    false
}

/// Decides whether one response survives filtering and is reported.
pub fn should_report(response: &ScanResponse, filter: &WildcardFilter, config: &ScanConfig) -> (r:
    bool)
    ensures
        r == report_spec(
            response@,
            *filter,
            config.status_codes@,
            config.size_filters@,
            config.dont_filter,
        ),
{
    if !contains_u16(&config.status_codes, response.status) {
        return false;
    }
    if contains_u64(&config.size_filters, response.content_length) {
        return false;
    }
    if !config.dont_filter && filter.size > 0 && filter.size == response.content_length {
        return false;
    }
    if !config.dont_filter && filter.dynamic > 0 {
        let path_len = get_url_path_length(response.url.as_str());
        if filter.dynamic <= response.content_length && (path_len as u64) == response.content_length
            - filter.dynamic {
            return false;
        }
    }
    true
}

} // verus!
