//! The static-file classifier: decides, by a literal, case-sensitive
//! extension allow-list, whether a request path is eligible for direct file
//! service, and looks up the MIME type the response will declare.

use vstd::prelude::*;
use vstd::string::*;

verus! {

/// `suffix` is the tail of `s`.
pub open spec fn ends_with(s: Seq<char>, suffix: Seq<char>) -> bool {
    suffix.len() <= s.len() && s.subrange(s.len() - suffix.len(), s.len() as int) == suffix
}

/// The extension allow-list for direct file service, matched literally and
/// case-sensitively against the end of the path.
pub open spec fn is_static_name(s: Seq<char>) -> bool {
    ends_with(s, ".css"@) || ends_with(s, ".js"@) || ends_with(s, ".png"@) || ends_with(
        s,
        ".jpg"@,
    ) || ends_with(s, ".jpeg"@) || ends_with(s, ".gif"@) || ends_with(s, ".svg"@) || ends_with(
        s,
        ".ico"@,
    ) || ends_with(s, ".html"@)
}

/// Decides `ends_with` on concrete strings.
pub fn str_ends_with(s: &str, suffix: &str) -> (r: bool)
    ensures
        r == ends_with(s@, suffix@),
{
    let n = s.unicode_len();
    let m = suffix.unicode_len();
    if m > n {
        return false;
    }
    let mut k: usize = 0;
    while k < m
        invariant
            m <= n,
            n == s@.len(),
            m == suffix@.len(),
            0 <= k <= m,
            forall|t: int| 0 <= t < k ==> s@[n - m + t] == suffix@[t],
        decreases m - k,
    {
        if s.get_char(n - m + k) != suffix.get_char(k) {
            proof {
                assert(s@.subrange(n - m, n as int)[k as int] != suffix@[k as int]);
            }
            return false;
        }
        k += 1;
    }
    proof {
        assert(s@.subrange(n - m, n as int) =~= suffix@);
    }
    true
}

/// True iff the path ends in one of the nine allow-listed extensions.
pub fn is_allowed_static_file(file_path: &str) -> (r: bool)
    ensures
        r == is_static_name(file_path@),
{
    str_ends_with(file_path, ".css") || str_ends_with(file_path, ".js") || str_ends_with(
        file_path,
        ".png",
    ) || str_ends_with(file_path, ".jpg") || str_ends_with(file_path, ".jpeg") || str_ends_with(
        file_path,
        ".gif",
    ) || str_ends_with(file_path, ".svg") || str_ends_with(file_path, ".ico") || str_ends_with(
        file_path,
        ".html",
    )
}

/// What `mime_guess` maps a file path to: the first MIME type registered for
/// the path's extension, or `application/octet-stream` when the extension has
/// none. A fixed table lookup, a function of the path alone.
pub uninterp spec fn mime_of(path: Seq<char>) -> Seq<char>;

/// Relies on `mime_guess::from_path` followed by
/// `MimeGuess::first_or_octet_stream`: a lookup of the path's extension in a
/// static table, falling back to `application/octet-stream`; the result
/// depends on the path string alone.
#[verifier::external_body]
pub(crate) fn mime_type_for(path: &str) -> (r: String)
    ensures
        r@ == mime_of(path@),
{
    mime_guess::from_path(path).first_or_octet_stream().essence_str().to_string()
}

} // verus!
