//! The FastCGI side of the gateway: the parameters that describe one request
//! to the backend, and the splitter that separates the backend's raw stdout
//! stream into a CGI header block and a body.

use vstd::prelude::*;
use vstd::string::*;
use crate::text::{lossy_decode, lossy_of};

verus! {

/// True when the blank-line delimiter `\r\n\r\n` starts at index `i` of `s`.
pub open spec fn delim_at(s: Seq<char>, i: int) -> bool {
    0 <= i && i + 4 <= s.len() && s[i] == '\r' && s[i + 1] == '\n' && s[i + 2] == '\r' && s[i + 3]
        == '\n'
}

/// The index of the first blank-line delimiter at or after `i`, or the length
/// of `s` when there is none.
pub open spec fn delim_pos_from(s: Seq<char>, i: int) -> int
    decreases s.len() - i,
{
    if i < 0 || i + 4 > s.len() {
        s.len() as int
    } else if delim_at(s, i) {
        i
    } else {
        delim_pos_from(s, i + 1)
    }
}

/// Whether the decoded backend output contains a blank-line delimiter at all.
pub open spec fn has_delim(s: Seq<char>) -> bool {
    delim_at(s, delim_pos_from(s, 0))
}

/// The header block of the decoded backend output: everything before the
/// first blank line, or empty when there is no blank line.
pub open spec fn headers_of(s: Seq<char>) -> Seq<char> {
    if has_delim(s) {
        s.subrange(0, delim_pos_from(s, 0))
    } else {
        Seq::<char>::empty()
    }
}

/// The body of the decoded backend output: everything after the first blank
/// line, or the whole text when there is no blank line.
pub open spec fn body_of(s: Seq<char>) -> Seq<char> {
    if has_delim(s) {
        s.subrange(delim_pos_from(s, 0) + 4, s.len() as int)
    } else {
        s
    }
}

/// The law of lossless splitting: when the backend emitted a header block,
/// headers, blank line and body reassemble the decoded output exactly.
pub proof fn lemma_split_reassembles(s: Seq<char>)
    requires
        has_delim(s),
    ensures
        headers_of(s) + seq!['\r', '\n', '\r', '\n'] + body_of(s) == s,
{
    assert(headers_of(s) + seq!['\r', '\n', '\r', '\n'] + body_of(s) =~= s);
}

/// Decodes the backend's stdout bytes as text (invalid sequences replaced,
/// never a failure) and splits the text on the first blank line: the part
/// before it is the CGI header block, passed on verbatim; the part after it
/// is the body. With no blank line the headers are empty and the whole text
/// is the body.
pub fn parse_fastcgi_response(response: Vec<u8>) -> (r: (String, String))
    ensures
        r.0@ == headers_of(lossy_of(response@)),
        r.1@ == body_of(lossy_of(response@)),
{
    let text = lossy_decode(response.as_slice());
    let ghost t = text@;
    let n = text.as_str().unicode_len();
    let mut i: usize = 0;
    while n - i > 3 && !(text.as_str().get_char(i) == '\r' && text.as_str().get_char(i + 1) == '\n'
        && text.as_str().get_char(i + 2) == '\r' && text.as_str().get_char(i + 3) == '\n')
        invariant
            0 <= i <= n,
            n == t.len(),
            t == text@,
            delim_pos_from(t, 0) == delim_pos_from(t, i as int),
        decreases n - i,
    {
        i += 1;
    }
    if n - i > 3 {
        proof {
            assert(delim_at(t, i as int));
            assert(delim_pos_from(t, i as int) == i as int);
            assert(has_delim(t));
        }
        let headers = String::from_str(text.as_str().substring_char(0, i));
        let body = String::from_str(text.as_str().substring_char(i + 4, n));
        (headers, body)
    } else {
        proof {
            assert(delim_pos_from(t, i as int) == n as int);
            assert(!has_delim(t));
        }
        (String::new(), text)
    }
}

/// The FastCGI name/value pairs that describe one request to the backend.
/// The request body is never forwarded, so the content length is always
/// zero and the content type always empty: `wf` states that invariant.
pub struct GatewayParams {
    pub request_method: String,
    pub script_name: String,
    pub script_filename: String,
    pub request_uri: String,
    pub document_uri: String,
    pub server_addr: String,
    pub server_port: u16,
    pub content_type: String,
    pub content_length: u64,
}

impl GatewayParams {
    /// The invariant of every parameter set this library builds: no request
    /// body is ever described to the backend.
    pub open spec fn wf(self) -> bool {
        self.content_length == 0 && self.content_type@.len() == 0
    }
}

/// Builds the parameter set for one backend request: the parsed method, the
/// request path as both request and document URI, the resolved script name
/// and filename, the server's address and port, and an empty body.
pub fn build_gateway_params(
    method: &str,
    path: &str,
    script_name: &str,
    script_filename: &str,
    server_addr: &str,
    server_port: u16,
) -> (p: GatewayParams)
    ensures
        p.request_method@ == method@,
        p.script_name@ == script_name@,
        p.script_filename@ == script_filename@,
        p.request_uri@ == path@,
        p.document_uri@ == path@,
        p.server_addr@ == server_addr@,
        p.server_port == server_port,
        p.wf(),
{
    GatewayParams {
        request_method: String::from_str(method),
        script_name: String::from_str(script_name),
        script_filename: String::from_str(script_filename),
        request_uri: String::from_str(path),
        document_uri: String::from_str(path),
        server_addr: String::from_str(server_addr),
        server_port,
        content_type: String::new(),
        content_length: 0,
    }
}

} // verus!
