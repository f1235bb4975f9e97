//! The request worker's decisions: whether one response triggers a
//! recursive scan and whether it is reported. Recursion is decided before
//! filtering, so a filtered-out page can still contribute a directory.

use vstd::prelude::*;

use crate::classify::is_directory_spec;
use crate::classify::response_is_directory;
use crate::config::ScanConfig;
use crate::filter::report_spec;
use crate::filter::should_report;
use crate::filter::WildcardFilter;
use crate::paths::depth_spec;
use crate::paths::get_current_depth;
use crate::response::ScanResponse;
use crate::response::ScanResponseView;

verus! {

/// The depth cap is reached when a cap is set and the URL sits at least
/// `max_depth` directories below the root scan's base depth.
pub open spec fn reached_max_depth_spec(url: Seq<char>, base_depth: usize, max_depth: usize) -> bool {
    max_depth != 0 && depth_spec(url) - base_depth >= max_depth
}

/// Whether the configured maximum recursion depth has been reached at
/// `url`. A zero cap means recursion is unbounded.
pub fn reached_max_depth(url: &str, base_depth: usize, max_depth: usize) -> (r: bool)
    ensures
        r == reached_max_depth_spec(url@, base_depth, max_depth),
{
    if max_depth == 0 {
        return false;
    }
    let depth = get_current_depth(url);
    depth >= base_depth && depth - base_depth >= max_depth
}

/// A response's URL is recursed into exactly when recursion is enabled,
/// the response classified as a directory, and the depth cap is not yet
/// reached there.
pub open spec fn should_recurse_spec(
    v: ScanResponseView,
    base_depth: usize,
    max_depth: usize,
    no_recursion: bool,
) -> bool {
    !no_recursion && is_directory_spec(v) && !reached_max_depth_spec(v.url, base_depth, max_depth)
}

/// What the worker does with one completed response.
pub struct ResponseAction {
    /// Send the response's final URL on the recursion channel.
    pub recurse: bool,
    /// Send the response on the report channel.
    pub report: bool,
}

/// Decides both worker actions for one response. The recursion decision
/// never reads the filter, so a filtered-out response still recurses.
pub fn evaluate_response(
    response: &ScanResponse,
    base_depth: usize,
    filter: &WildcardFilter,
    config: &ScanConfig,
) -> (action: ResponseAction)
    ensures
        action.recurse == should_recurse_spec(
            response@,
            base_depth,
            config.max_depth,
            config.no_recursion,
        ),
        action.report == report_spec(
            response@,
            *filter,
            config.status_codes@,
            config.size_filters@,
            config.dont_filter,
        ),
{
    let recurse = !config.no_recursion && response_is_directory(response) && !reached_max_depth(
        response.url.as_str(),
        base_depth,
        config.max_depth,
    );
    let report = should_report(response, filter, config);
    ResponseAction { recurse, report }
}

/// Law: with a positive depth cap, no URL deeper than
/// `base_depth + max_depth - 1` is ever selected for recursion.
pub proof fn lemma_recursion_depth_bounded(
    v: ScanResponseView,
    base_depth: usize,
    max_depth: usize,
    no_recursion: bool,
)
    ensures
        max_depth > 0 && should_recurse_spec(v, base_depth, max_depth, no_recursion) ==> depth_spec(
            v.url,
        ) <= base_depth + max_depth - 1,
{
}

} // verus!
