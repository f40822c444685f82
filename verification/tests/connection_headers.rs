use http::header::{HeaderMap, HeaderValue};
use wreq_core::connection::strip_connection_headers;

fn map(entries: &[(&'static str, &'static str)]) -> HeaderMap {
    let mut m = HeaderMap::new();
    for (k, v) in entries {
        m.append(*k, HeaderValue::from_static(v));
    }
    m
}

#[test]
fn strips_fixed_connection_headers() {
    let mut h = map(&[
        ("keep-alive", "timeout=5"),
        ("proxy-connection", "keep-alive"),
        ("transfer-encoding", "chunked"),
        ("upgrade", "websocket"),
        ("content-type", "text/plain"),
    ]);
    strip_connection_headers(&mut h, true);
    assert_eq!(h.len(), 1);
    assert_eq!(h.get("content-type").unwrap(), "text/plain");
}

#[test]
fn request_keeps_te_trailers() {
    let mut h = map(&[("te", "trailers"), ("accept", "*/*")]);
    strip_connection_headers(&mut h, true);
    assert_eq!(h.get("te").unwrap(), "trailers");
    assert_eq!(h.len(), 2);
}

#[test]
fn request_drops_other_te() {
    let mut h = map(&[("te", "gzip"), ("accept", "*/*")]);
    strip_connection_headers(&mut h, true);
    assert!(h.get("te").is_none());
    assert_eq!(h.len(), 1);
}

#[test]
fn request_judges_te_by_its_first_value() {
    let mut h = map(&[("te", "trailers"), ("te", "gzip")]);
    strip_connection_headers(&mut h, true);
    assert_eq!(h.get_all("te").iter().count(), 2);

    let mut h = map(&[("te", "gzip"), ("te", "trailers")]);
    strip_connection_headers(&mut h, true);
    assert_eq!(h.get_all("te").iter().count(), 0);
}

#[test]
fn response_drops_any_te() {
    let mut h = map(&[("te", "trailers"), ("server", "x")]);
    strip_connection_headers(&mut h, false);
    assert!(h.get("te").is_none());
    assert_eq!(h.len(), 1);
}

#[test]
fn connection_header_removes_listed_headers() {
    let mut h = map(&[
        ("connection", "X-Custom, Foo ,\tbar,,"),
        ("x-custom", "1"),
        ("foo", "2"),
        ("bar", "3"),
        ("baz", "4"),
    ]);
    strip_connection_headers(&mut h, true);
    assert!(h.get("connection").is_none());
    assert!(h.get("x-custom").is_none());
    assert!(h.get("foo").is_none());
    assert!(h.get("bar").is_none());
    assert_eq!(h.get("baz").unwrap(), "4");
    assert_eq!(h.len(), 1);
}

#[test]
fn connection_header_with_invalid_bytes_removes_only_itself() {
    let mut h = HeaderMap::new();
    h.insert(
        "connection",
        HeaderValue::from_bytes(b"foo, \xffbar").unwrap(),
    );
    h.insert("foo", HeaderValue::from_static("1"));
    strip_connection_headers(&mut h, true);
    assert!(h.get("connection").is_none());
    assert_eq!(h.get("foo").unwrap(), "1");
}

#[test]
fn connection_header_can_list_te() {
    let mut h = map(&[("connection", "te"), ("te", "trailers")]);
    strip_connection_headers(&mut h, true);
    assert!(h.is_empty());
}

#[test]
fn stripping_twice_changes_nothing_more() {
    let mut h = map(&[
        ("connection", "foo"),
        ("foo", "1"),
        ("te", "trailers"),
        ("upgrade", "h2c"),
        ("accept", "*/*"),
    ]);
    strip_connection_headers(&mut h, true);
    let once = h.clone();
    strip_connection_headers(&mut h, true);
    assert_eq!(h, once);
    assert_eq!(h.len(), 2);
}

#[test]
fn empty_map_stays_empty() {
    let mut h = HeaderMap::new();
    strip_connection_headers(&mut h, false);
    assert!(h.is_empty());
}

#[test]
fn request_keeps_te_only_when_first_value_is_trailers() {
    let mut h = map(&[("te", "trailers"), ("connection", "x"), ("x", "1")]);
    strip_connection_headers(&mut h, true);
    assert_eq!(h.get("te").unwrap(), "trailers");
    assert!(h.get("x").is_none());
}
