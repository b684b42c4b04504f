use fcgi_front::request_parser::{parse_http_request, parse_request_bytes};

#[test]
fn test_valid_http_request() {
    let request = "GET /index.html HTTP/1.1\r\nHost: example.com\r\n";
    let (method, path, version) = parse_http_request(request);
    assert_eq!(method, "GET");
    assert_eq!(path, "/index.html");
    assert_eq!(version, "HTTP/1.1");
}

#[test]
fn test_incomplete_http_request() {
    let request = "POST /submit";
    let (method, path, version) = parse_http_request(request);
    assert_eq!(method, "POST");
    assert_eq!(path, "/submit");
    assert_eq!(version, "");
}

#[test]
fn test_empty_request() {
    let request = "";
    let (method, path, version) = parse_http_request(request);
    assert_eq!(method, "");
    assert_eq!(path, "");
    assert_eq!(version, "");
}

#[test]
fn test_malformed_request_line() {
    let request = "INVALID\r\nSome-Header: value";
    let (method, path, version) = parse_http_request(request);
    assert_eq!(method, "INVALID");
    assert_eq!(path, "");
    assert_eq!(version, "");
}

#[test]
fn test_no_crlf_single_token() {
    let (method, path, version) = parse_http_request("HELLO");
    assert_eq!(method, "HELLO");
    assert_eq!(path, "");
    assert_eq!(version, "");
}

#[test]
fn test_extra_tokens_ignored() {
    let (method, path, version) = parse_http_request("GET /a HTTP/1.0 junk\r\n");
    assert_eq!(method, "GET");
    assert_eq!(path, "/a");
    assert_eq!(version, "HTTP/1.0");
}

#[test]
fn test_leading_and_repeated_whitespace() {
    let (method, path, version) = parse_http_request("  GET \t /a  HTTP/1.1\r\n");
    assert_eq!(method, "GET");
    assert_eq!(path, "/a");
    assert_eq!(version, "HTTP/1.1");
}

#[test]
fn test_parse_request_bytes_plain() {
    let raw = b"GET /style.css HTTP/1.1\r\nHost: x\r\n";
    let (method, path, version) = parse_request_bytes(raw);
    assert_eq!(method, "GET");
    assert_eq!(path, "/style.css");
    assert_eq!(version, "HTTP/1.1");
}

#[test]
fn test_parse_request_bytes_invalid_utf8() {
    // The decoding must replace invalid sequences instead of failing.
    let raw = [0xffu8, 0xfe, b' ', b'/', b'x', b' ', b'V'];
    let (method, path, version) = parse_request_bytes(&raw);
    assert_eq!(method, "\u{fffd}\u{fffd}");
    assert_eq!(path, "/x");
    assert_eq!(version, "V");
}
