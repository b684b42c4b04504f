//! Character-level helpers shared by the parsers and the response builders:
//! the white-space test used to tokenize the request line, and the decimal
//! rendering of lengths for `Content-Length` headers.

use vstd::prelude::*;
use vstd::string::*;

verus! {

/// The Unicode white-space characters: the separators between the tokens of
/// an HTTP request line.
pub open spec fn is_ws_char(c: char) -> bool {
    let u = c as u32;
    u == 0x09 || u == 0x0A || u == 0x0B || u == 0x0C || u == 0x0D || u == 0x20
        || u == 0x85 || u == 0xA0 || u == 0x1680
        || (0x2000 <= u && u <= 0x200A)
        || u == 0x2028 || u == 0x2029 || u == 0x202F || u == 0x205F || u == 0x3000
}

/// Decides `is_ws_char` on a concrete character.
pub fn is_ws(c: char) -> (r: bool)
    ensures
        r == is_ws_char(c),
{
    let u = c as u32;
    u == 0x09 || u == 0x0A || u == 0x0B || u == 0x0C || u == 0x0D || u == 0x20
        || u == 0x85 || u == 0xA0 || u == 0x1680
        || (0x2000 <= u && u <= 0x200A)
        || u == 0x2028 || u == 0x2029 || u == 0x202F || u == 0x205F || u == 0x3000
}

/// The decimal digit character for a value below ten.
pub open spec fn digit_char(d: nat) -> char {
    if d == 0 {
        '0'
    } else if d == 1 {
        '1'
    } else if d == 2 {
        '2'
    } else if d == 3 {
        '3'
    } else if d == 4 {
        '4'
    } else if d == 5 {
        '5'
    } else if d == 6 {
        '6'
    } else if d == 7 {
        '7'
    } else if d == 8 {
        '8'
    } else {
        '9'
    }
}

/// The decimal representation of a natural number, most significant digit
/// first, with no leading zeros (a single `'0'` for zero).
pub open spec fn dec_rep(n: nat) -> Seq<char>
    decreases n,
{
    if n < 10 {
        seq![digit_char(n)]
    } else {
        dec_rep(n / 10).push(digit_char(n % 10))
    }
}

/// True when a CRLF pair starts at index `i` of `s`.
pub open spec fn crlf_at(s: Seq<char>, i: int) -> bool {
    0 <= i && i + 2 <= s.len() && s[i] == '\r' && s[i + 1] == '\n'
}

/// The index of the first CRLF pair at or after `i`, or the length of `s`
/// when there is none.
pub open spec fn line_end_from(s: Seq<char>, i: int) -> int
    decreases s.len() - i,
{
    if i < 0 || i + 2 > s.len() {
        s.len() as int
    } else if crlf_at(s, i) {
        i
    } else {
        line_end_from(s, i + 1)
    }
}

/// Everything before the first CRLF; the whole string when it has none.
pub open spec fn first_line(s: Seq<char>) -> Seq<char> {
    s.subrange(0, line_end_from(s, 0))
}

/// The index of the first non-white-space character at or after `i`, or the
/// length of `s` when the rest is all white space.
pub open spec fn skip_ws_from(s: Seq<char>, i: int) -> int
    decreases s.len() - i,
{
    if i < 0 || i >= s.len() {
        s.len() as int
    } else if is_ws_char(s[i]) {
        skip_ws_from(s, i + 1)
    } else {
        i
    }
}

/// The index of the first white-space character at or after `i`, or the
/// length of `s` when the rest is all token characters.
pub open spec fn token_end_from(s: Seq<char>, i: int) -> int
    decreases s.len() - i,
{
    if i < 0 || i >= s.len() {
        s.len() as int
    } else if is_ws_char(s[i]) {
        i
    } else {
        token_end_from(s, i + 1)
    }
}

/// The white-space-delimited token that starts at or after `i`: empty when
/// only white space is left.
pub open spec fn token_at(s: Seq<char>, i: int) -> Seq<char> {
    s.subrange(skip_ws_from(s, i), token_end_from(s, skip_ws_from(s, i)))
}

/// The index just past the token that starts at or after `i`.
pub open spec fn token_end(s: Seq<char>, i: int) -> int {
    token_end_from(s, skip_ws_from(s, i))
}

/// What `String::from_utf8_lossy` decodes a byte sequence to: UTF-8, with
/// each invalid sequence replaced. A function of the bytes alone.
pub uninterp spec fn lossy_of(bytes: Seq<u8>) -> Seq<char>;

/// Relies on `String::from_utf8_lossy`: valid UTF-8 passes through unchanged
/// (so ASCII bytes decode to themselves), invalid sequences are replaced with
/// U+FFFD, and the result depends on the bytes alone.
#[verifier::external_body]
pub(crate) fn lossy_decode(bytes: &[u8]) -> (r: String)
    ensures
        r@ == lossy_of(bytes@),
        (forall|i: int| 0 <= i < bytes@.len() ==> bytes@[i] < 128) ==> r@ == bytes@.map_values(
            |b: u8| b as char,
        ),
{
    String::from_utf8_lossy(bytes).into_owned()
}

fn digit_str(d: u64) -> (r: &'static str)
    requires
        d < 10,
    ensures
        r@ == seq![digit_char(d as nat)],
{
    match d {
        0 => {
            proof {
                reveal_strlit("0");
                assert("0"@ =~= seq![digit_char(0)]);
            }
            "0"
        },
        1 => {
            proof {
                reveal_strlit("1");
                assert("1"@ =~= seq![digit_char(1)]);
            }
            "1"
        },
        2 => {
            proof {
                reveal_strlit("2");
                assert("2"@ =~= seq![digit_char(2)]);
            }
            "2"
        },
        3 => {
            proof {
                reveal_strlit("3");
                assert("3"@ =~= seq![digit_char(3)]);
            }
            "3"
        },
        4 => {
            proof {
                reveal_strlit("4");
                assert("4"@ =~= seq![digit_char(4)]);
            }
            "4"
        },
        5 => {
            proof {
                reveal_strlit("5");
                assert("5"@ =~= seq![digit_char(5)]);
            }
            "5"
        },
        6 => {
            proof {
                reveal_strlit("6");
                assert("6"@ =~= seq![digit_char(6)]);
            }
            "6"
        },
        7 => {
            proof {
                reveal_strlit("7");
                assert("7"@ =~= seq![digit_char(7)]);
            }
            "7"
        },
        8 => {
            proof {
                reveal_strlit("8");
                assert("8"@ =~= seq![digit_char(8)]);
            }
            "8"
        },
        _ => {
            proof {
                reveal_strlit("9");
                assert(d == 9);
                assert("9"@ =~= seq![digit_char(9)]);
            }
            "9"
        },
    }
}

/// Renders a length in decimal, exactly as `dec_rep` describes it.
pub fn u64_to_string(n: u64) -> (s: String)
    ensures
        s@ == dec_rep(n as nat),
    decreases n,
{
    if n < 10 {
        String::from_str(digit_str(n))
    } else {
        let q = n / 10;
        let r = n % 10;
        proof {
            assert(n / 10 < n) by (nonlinear_arith)
                requires
                    n >= 10,
            ;
        }
        let mut s = u64_to_string(q);
        s.append(digit_str(r));
        proof {
            assert(s@ =~= dec_rep(n as nat));
        }
        s
    }
}

} // verus!
