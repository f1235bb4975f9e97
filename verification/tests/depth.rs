use dirscan::paths::{get_current_depth, get_url_path_length};
use dirscan::worker::reached_max_depth;

#[test]
/// the root of a host sits at depth 1, with or without a trailing slash
fn depth_of_host_root() {
    assert_eq!(get_current_depth("http://localhost"), 1);
    assert_eq!(get_current_depth("http://localhost/"), 1);
}

#[test]
/// each path segment adds one to the depth
fn depth_counts_path_segments() {
    assert_eq!(get_current_depth("http://h/a/"), 2);
    assert_eq!(get_current_depth("http://h/a"), 2);
    assert_eq!(get_current_depth("http://h/a/b/"), 3);
    assert_eq!(get_current_depth("http://h/a/b/c/"), 4);
}

#[test]
/// an unparseable URL has depth 0
fn depth_of_unparseable_url_is_zero() {
    assert_eq!(get_current_depth("not a url"), 0);
}

#[test]
/// with a cap of 2 above base depth 1, one level of recursion is allowed
/// and deeper URLs are cut off
fn depth_enforcement() {
    assert!(!reached_max_depth("http://h/a/", 1, 2));
    assert!(reached_max_depth("http://h/a/b/", 1, 2));
    assert!(reached_max_depth("http://h/a/b/c/", 1, 2));
}

#[test]
/// a cap of zero means unbounded recursion
fn depth_cap_zero_is_unbounded() {
    assert!(!reached_max_depth("http://h/a/b/c/d/e/f/", 1, 0));
}

#[test]
/// the path length counts path characters, excluding a trailing slash
fn path_length_excludes_trailing_slash() {
    assert_eq!(get_url_path_length("http://h/a/"), 2);
    assert_eq!(get_url_path_length("http://h/a"), 2);
    assert_eq!(get_url_path_length("http://h/abcd"), 5);
    assert_eq!(get_url_path_length("http://h/"), 0);
}
