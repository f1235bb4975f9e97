use dirscan::classify::response_is_directory;
use dirscan::response::ScanResponse;

fn response(status: u16, url: &str, location: Option<&str>) -> ScanResponse {
    ScanResponse {
        status,
        url: String::from(url),
        content_length: 0,
        location: location.map(String::from),
    }
}

#[test]
/// a redirect to the same URL plus a trailing slash marks a directory
fn directory_by_redirect() {
    let resp = response(301, "http://h/foo", Some("http://h/foo/"));
    assert!(response_is_directory(&resp));
}

#[test]
/// the Location header is resolved against the response URL before comparing
fn directory_by_relative_redirect() {
    let resp = response(301, "http://h/foo", Some("foo/"));
    assert!(response_is_directory(&resp));
}

#[test]
/// a redirect somewhere else is not a directory
fn redirect_elsewhere_is_not_directory() {
    let resp = response(301, "http://h/foo", Some("http://h/bar/"));
    assert!(!response_is_directory(&resp));
}

#[test]
/// a redirect without a Location header is not a directory
fn redirect_without_location_is_not_directory() {
    let resp = response(302, "http://h/foo", None);
    assert!(!response_is_directory(&resp));
}

#[test]
/// a success whose URL ends in a slash is a directory; without one it is not
fn directory_by_trailing_slash_on_success() {
    let with_slash = response(200, "http://h/bar/", None);
    assert!(response_is_directory(&with_slash));

    let without_slash = response(200, "http://h/bar", None);
    assert!(!response_is_directory(&without_slash));
}

#[test]
/// statuses outside 2xx and 3xx never mark a directory
fn other_statuses_are_not_directories() {
    let not_found = response(404, "http://h/bar/", None);
    assert!(!response_is_directory(&not_found));

    let server_error = response(500, "http://h/bar/", Some("http://h/bar/"));
    assert!(!response_is_directory(&server_error));
}

#[test]
/// classification is pure: the same response always classifies the same way
fn classification_is_pure() {
    let first = response(301, "http://h/foo", Some("http://h/foo/"));
    let second = response(301, "http://h/foo", Some("http://h/foo/"));
    let a = response_is_directory(&first);
    let b = response_is_directory(&second);
    let c = response_is_directory(&first);
    assert_eq!(a, b);
    assert_eq!(a, c);
}
