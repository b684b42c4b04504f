//! The request-line parser: the first line of the bytes read off the client
//! socket is split on white space into method, path and version. Missing
//! tokens degrade to empty strings; the parser never fails.

use vstd::prelude::*;
use vstd::string::*;
use crate::text::{
    crlf_at, first_line, is_ws, is_ws_char, line_end_from, lossy_decode, lossy_of, skip_ws_from,
    token_at, token_end, token_end_from,
};

verus! {

/// The three white-space-delimited tokens of the first line of `s`: method,
/// path and HTTP version, each empty when absent.
pub open spec fn request_tokens(s: Seq<char>) -> (Seq<char>, Seq<char>, Seq<char>) {
    let l = first_line(s);
    let m_end = token_end(l, 0);
    let p_end = token_end(l, m_end);
    (token_at(l, 0), token_at(l, m_end), token_at(l, p_end))
}

/// The bounds of the token of `request@.subrange(0, hi)` that starts at or
/// after `start`.
fn token_bounds(request: &str, start: usize, hi: usize) -> (r: (usize, usize))
    requires
        start <= hi <= request@.len(),
    ensures
        ({
            let l = request@.subrange(0, hi as int);
            &&& r.0 as int == skip_ws_from(l, start as int)
            &&& r.1 as int == token_end_from(l, r.0 as int)
            &&& start <= r.0 <= r.1 <= hi
        }),
{
    let ghost l = request@.subrange(0, hi as int);
    let mut i = start;
    while i < hi && is_ws(request.get_char(i))
        invariant
            start <= i <= hi <= request@.len(),
            l == request@.subrange(0, hi as int),
            skip_ws_from(l, start as int) == skip_ws_from(l, i as int),
        decreases hi - i,
    {
        proof {
            assert(l[i as int] == request@[i as int]);
        }
        i += 1;
    }
    proof {
        assert(skip_ws_from(l, i as int) == i as int);
    }
    let mut j = i;
    while j < hi && !is_ws(request.get_char(j))
        invariant
            i <= j <= hi <= request@.len(),
            l == request@.subrange(0, hi as int),
            token_end_from(l, i as int) == token_end_from(l, j as int),
        decreases hi - j,
    {
        proof {
            assert(l[j as int] == request@[j as int]);
        }
        j += 1;
    }
    proof {
        assert(token_end_from(l, j as int) == j as int);
    }
    (i, j)
}

/// Splits the request text on the first CRLF, takes the first line, and
/// returns its first three white-space-delimited tokens as method, path and
/// version. A missing token becomes the empty string; no input is rejected.
pub fn parse_http_request(request: &str) -> (r: (String, String, String))
    ensures
        r.0@ == request_tokens(request@).0,
        r.1@ == request_tokens(request@).1,
        r.2@ == request_tokens(request@).2,
{
    let n = request.unicode_len();
    let mut e: usize = 0;
    while n - e > 1 && !(request.get_char(e) == '\r' && request.get_char(e + 1) == '\n')
        invariant
            0 <= e <= n,
            n == request@.len(),
            line_end_from(request@, 0) == line_end_from(request@, e as int),
        decreases n - e,
    {
        e += 1;
    }
    let line_e: usize = if n - e > 1 {
        e
    } else {
        n
    };
    proof {
        assert(line_end_from(request@, 0) == line_e as int);
        assert(request@.subrange(0, line_e as int) == first_line(request@));
    }
    let (m0, m1) = token_bounds(request, 0, line_e);
    let (p0, p1) = token_bounds(request, m1, line_e);
    let (v0, v1) = token_bounds(request, p1, line_e);
    let method = String::from_str(request.substring_char(m0, m1));
    let path = String::from_str(request.substring_char(p0, p1));
    let version = String::from_str(request.substring_char(v0, v1));
    proof {
        let l = first_line(request@);
        assert(method@ =~= l.subrange(m0 as int, m1 as int));
        assert(path@ =~= l.subrange(p0 as int, p1 as int));
        assert(version@ =~= l.subrange(v0 as int, v1 as int));
    }
    (method, path, version)
}

/// Decodes the raw bytes of the initial read as text and parses the request
/// line out of them: the decoding replaces invalid byte sequences instead of
/// failing, so no byte string is rejected.
pub fn parse_request_bytes(raw: &[u8]) -> (r: (String, String, String))
    ensures
        r.0@ == request_tokens(lossy_of(raw@)).0,
        r.1@ == request_tokens(lossy_of(raw@)).1,
        r.2@ == request_tokens(lossy_of(raw@)).2,
{
    let text = lossy_decode(raw);
    parse_http_request(text.as_str())
}

/// The law of degenerate input: a request without a CRLF anywhere is one
/// single line, so the parser tokenizes the whole string.
pub proof fn lemma_no_crlf_single_line(s: Seq<char>)
    requires
        forall|i: int| 0 <= i < s.len() ==> !crlf_at(s, i),
    ensures
        first_line(s) == s,
{
    lemma_line_end_none(s, 0);
    assert(s.subrange(0, s.len() as int) =~= s);
}

/// The law of the unstructured request: a string with no CRLF and no white
/// space anywhere is taken whole as the method, and path and version are
/// empty.
pub proof fn lemma_single_token_request(s: Seq<char>)
    requires
        forall|i: int| 0 <= i < s.len() ==> !crlf_at(s, i),
        forall|i: int| 0 <= i < s.len() ==> !is_ws_char(s[i]),
    ensures
        request_tokens(s).0 == s,
        request_tokens(s).1 == Seq::<char>::empty(),
        request_tokens(s).2 == Seq::<char>::empty(),
{
    lemma_no_crlf_single_line(s);
    lemma_token_end_all(s, 0);
    assert(skip_ws_from(s, 0) == 0);
    assert(s.subrange(0, s.len() as int) =~= s);
    assert(skip_ws_from(s, s.len() as int) == s.len() as int);
    assert(s.subrange(s.len() as int, s.len() as int) =~= Seq::<char>::empty());
}

proof fn lemma_token_end_all(s: Seq<char>, i: int)
    requires
        0 <= i <= s.len(),
        forall|j: int| 0 <= j < s.len() ==> !is_ws_char(s[j]),
    ensures
        token_end_from(s, i) == s.len(),
    decreases s.len() - i,
{
    if i < s.len() {
        lemma_token_end_all(s, i + 1);
    }
}

proof fn lemma_line_end_none(s: Seq<char>, i: int)
    requires
        0 <= i <= s.len(),
        forall|j: int| i <= j < s.len() ==> !crlf_at(s, j),
    ensures
        line_end_from(s, i) == s.len(),
    decreases s.len() - i,
{
    if i + 2 > s.len() {
    } else {
        assert(!crlf_at(s, i));
        lemma_line_end_none(s, i + 1);
    }
}

} // verus!
