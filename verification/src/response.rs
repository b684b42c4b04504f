//! Assembly of the outgoing HTTP responses. Every response the server can
//! write is built here, and each one carries a `Content-Length` computed from
//! the actual payload, never one taken over from the backend.

use vstd::prelude::*;
use vstd::string::*;
use crate::static_file::{mime_of, mime_type_for};
use crate::text::{dec_rep, u64_to_string};

verus! {

/// The complete `404 Not Found` response: no body, explicit zero length.
pub open spec fn not_found_rep() -> Seq<char> {
    "HTTP/1.1 404 Not Found\r\nContent-Length: 0\r\nConnection: close\r\n\r\n"@
}

/// Builds the `404 Not Found` response.
pub fn not_found_response() -> (r: String)
    ensures
        r@ == not_found_rep(),
{
    String::from_str("HTTP/1.1 404 Not Found\r\nContent-Length: 0\r\nConnection: close\r\n\r\n")
}

/// The complete `500 Server Error` response: no body, explicit zero length.
pub open spec fn server_error_rep() -> Seq<char> {
    "HTTP/1.1 500 Server Error\r\nContent-Length: 0\r\nConnection: close\r\n\r\n"@
}

/// Builds the `500 Server Error` response.
pub fn server_error_response() -> (r: String)
    ensures
        r@ == server_error_rep(),
{
    String::from_str("HTTP/1.1 500 Server Error\r\nContent-Length: 0\r\nConnection: close\r\n\r\n")
}

/// The header block of a `200 OK` static-file response: declared MIME type,
/// the file's length in decimal, and an order to close the connection. The
/// file bytes follow on the socket after this block.
pub open spec fn static_ok_header_rep(mime: Seq<char>, len: nat) -> Seq<char> {
    "HTTP/1.1 200 OK\r\nContent-Type: "@ + mime + "\r\nContent-Length: "@ + dec_rep(len)
        + "\r\nConnection: close\r\n\r\n"@
}

/// Builds the response headers for serving the file at `file_path` whose size
/// on disk is `content_length`: the MIME type comes from the path's
/// extension, the length from the file's metadata.
pub fn static_ok_header(file_path: &str, content_length: u64) -> (r: String)
    ensures
        r@ == static_ok_header_rep(mime_of(file_path@), content_length as nat),
{
    let mut s = String::from_str("HTTP/1.1 200 OK\r\nContent-Type: ");
    let mime = mime_type_for(file_path);
    s.append(mime.as_str());
    s.append("\r\nContent-Length: ");
    let len_str = u64_to_string(content_length);
    s.append(len_str.as_str());
    s.append("\r\nConnection: close\r\n\r\n");
    proof {
        assert(s@ =~= static_ok_header_rep(mime_of(file_path@), content_length as nat));
    }
    s
}

/// A `200 OK` response that carries the backend's own header block verbatim,
/// then a `Content-Length` synthesized from the body's byte length (the
/// backend's declared length is never trusted), then the body.
pub open spec fn gateway_ok_rep(headers: Seq<char>, body_len: nat, body: Seq<char>) -> Seq<char> {
    "HTTP/1.1 200 OK\r\n"@ + headers + "\r\nContent-Length: "@ + dec_rep(body_len)
        + "\r\nConnection: close\r\n\r\n"@ + body
}

/// Builds the `200 OK` response for a backend reply already split into
/// `headers` and `body`; the length counted is the body's length in bytes,
/// which is what goes out on the wire.
pub fn gateway_ok_response(headers: &str, body: &str) -> (r: String)
    ensures
        r@ == gateway_ok_rep(headers@, body.len() as nat, body@),
{
    let mut s = String::from_str("HTTP/1.1 200 OK\r\n");
    s.append(headers);
    s.append("\r\nContent-Length: ");
    let len_str = u64_to_string(body.len() as u64);
    s.append(len_str.as_str());
    s.append("\r\nConnection: close\r\n\r\n");
    s.append(body);
    proof {
        assert(s@ =~= gateway_ok_rep(headers@, body.len() as nat, body@));
    }
    s
}

} // verus!
