use fcgi_front::fastcgi::parse_fastcgi_response;

#[test]
fn test_split_on_first_blank_line() {
    let raw = b"Content-Type: text/html\r\n\r\n<html></html>".to_vec();
    let (headers, body) = parse_fastcgi_response(raw);
    assert_eq!(headers, "Content-Type: text/html");
    assert_eq!(body, "<html></html>");
}

#[test]
fn test_no_delimiter_means_all_body() {
    let raw = b"no header block here".to_vec();
    let (headers, body) = parse_fastcgi_response(raw);
    assert_eq!(headers, "");
    assert_eq!(body, "no header block here");
}

#[test]
fn test_only_first_delimiter_splits() {
    let raw = b"A: 1\r\nB: 2\r\n\r\nbody\r\n\r\nmore".to_vec();
    let (headers, body) = parse_fastcgi_response(raw);
    assert_eq!(headers, "A: 1\r\nB: 2");
    assert_eq!(body, "body\r\n\r\nmore");
}

#[test]
fn test_delimiter_at_start() {
    let raw = b"\r\n\r\nonly body".to_vec();
    let (headers, body) = parse_fastcgi_response(raw);
    assert_eq!(headers, "");
    assert_eq!(body, "only body");
}

#[test]
fn test_delimiter_at_end() {
    let raw = b"X-Foo: bar\r\n\r\n".to_vec();
    let (headers, body) = parse_fastcgi_response(raw);
    assert_eq!(headers, "X-Foo: bar");
    assert_eq!(body, "");
}

#[test]
fn test_empty_input() {
    let (headers, body) = parse_fastcgi_response(Vec::new());
    assert_eq!(headers, "");
    assert_eq!(body, "");
}

#[test]
fn test_invalid_utf8_is_replaced_not_fatal() {
    let mut raw = b"K: v\r\n\r\n".to_vec();
    raw.push(0xff);
    raw.push(0xc3);
    let (headers, body) = parse_fastcgi_response(raw);
    assert_eq!(headers, "K: v");
    assert_eq!(body, "\u{fffd}\u{fffd}");
}
