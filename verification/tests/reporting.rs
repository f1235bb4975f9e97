use dirscan::config::expected_requests;
use dirscan::report::format_report_line;
use dirscan::response::ScanResponse;
use dirscan::text::{pad_left, u64_to_dec};

fn response(status: u16, url: &str, content_length: u64) -> ScanResponse {
    ScanResponse {
        status,
        url: String::from(url),
        content_length,
        location: None,
    }
}

#[test]
/// normal mode: status, right-justified content length, url, newline
fn report_line_normal_mode() {
    let resp = response(200, "https://localhost.com/FAQ", 3280);
    let line = format_report_line(&resp, false);
    assert_eq!(line, "200       3280 https://localhost.com/FAQ\n");
}

#[test]
/// quiet mode: the bare URL and a newline
fn report_line_quiet_mode() {
    let resp = response(200, "https://localhost.com/FAQ", 3280);
    let line = format_report_line(&resp, true);
    assert_eq!(line, "https://localhost.com/FAQ\n");
}

#[test]
/// a content length wider than the column is not truncated
fn report_line_wide_content_length() {
    let resp = response(301, "http://h/big", 123456789012);
    let line = format_report_line(&resp, false);
    assert_eq!(line, "301 123456789012 http://h/big\n");
}

#[test]
/// zero-length bodies format as a zero
fn report_line_zero_length() {
    let resp = response(204, "http://h/empty", 0);
    let line = format_report_line(&resp, false);
    assert_eq!(line, "204          0 http://h/empty\n");
}

#[test]
/// decimal rendering of counters
fn decimal_rendering() {
    assert_eq!(u64_to_dec(0), "0");
    assert_eq!(u64_to_dec(7), "7");
    assert_eq!(u64_to_dec(3280), "3280");
    assert_eq!(u64_to_dec(u64::MAX), "18446744073709551615");
}

#[test]
/// left-padding pads short values and leaves wide values alone
fn padding() {
    assert_eq!(pad_left("42", 10), "        42");
    assert_eq!(pad_left("0123456789ab", 10), "0123456789ab");
    assert_eq!(pad_left("", 3), "   ");
}

#[test]
/// one request per word, plus one per word and extension
fn expected_request_count() {
    assert_eq!(expected_requests(1000, 0), Some(1000));
    assert_eq!(expected_requests(1000, 3), Some(4000));
    assert_eq!(expected_requests(0, 5), Some(0));
}

#[test]
/// a request total beyond the counter's range is refused
fn expected_request_count_overflow() {
    assert_eq!(expected_requests(usize::MAX, usize::MAX), None);
}
