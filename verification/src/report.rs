//! Report-line formatting: the one-line record the sinks write for each
//! reported response, identical for the file and the terminal.

use vstd::prelude::*;
use vstd::string::StringExecFns;

use crate::response::ScanResponse;
use crate::response::ScanResponseView;
use crate::text::dec_spec;
use crate::text::pad_left;
use crate::text::pad_left_spec;
use crate::text::u64_to_dec;

verus! {

/// The record written for one reported response. Quiet mode: the bare URL.
/// Normal mode: the status code right-justified to 3 characters, the
/// content length right-justified to 10, and the URL, space-separated.
/// Every record ends in a newline.
pub open spec fn report_line_spec(v: ScanResponseView, quiet: bool) -> Seq<char> {
    if quiet {
        v.url.push('\n')
    } else {
        pad_left_spec(dec_spec(v.status as nat), 3) + seq![' '] + pad_left_spec(
            dec_spec(v.content_length as nat),
            10,
        ) + seq![' '] + v.url.push('\n')
    }
}

/// Formats one reported response as the line both sinks emit.
pub fn format_report_line(response: &ScanResponse, quiet: bool) -> (r: String)
    ensures
        r@ == report_line_spec(response@, quiet),
{
    if quiet {
        let mut out = response.url.clone();
        out.append("\n");
        proof {
            reveal_strlit("\n");
            assert(out@ =~= response.url@.push('\n'));
        }
        out
    } else {
        let status = u64_to_dec(response.status as u64);
        let mut out = pad_left(status.as_str(), 3);
        out.append(" ");
        let length = u64_to_dec(response.content_length);
        let padded = pad_left(length.as_str(), 10);
        out.append(padded.as_str());
        out.append(" ");
        out.append(response.url.as_str());
        out.append("\n");
        proof {
            reveal_strlit(" ");
            reveal_strlit("\n");
            assert(out@ =~= report_line_spec(response@, quiet));
        }
        out
    }
}

} // verus!
