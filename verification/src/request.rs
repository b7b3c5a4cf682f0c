//! Plain descriptions of the HTTP requests the operations make.
//!
//! The embedding application owns the transport; the library hands it a
//! fully determined request — method, path, query and form pairs — whose
//! every field is pinned by the builder contracts in [`crate::ops`].

use vstd::prelude::*;
use vstd::string::*;

verus! {

/// The HTTP method of a request.
#[derive(Debug, Clone, Copy, PartialEq, Eq)]
pub enum HttpMethod {
    Get,
    Post,
    Patch,
    Delete,
}

/// One request to the platform: everything the transport needs except
/// the base domain and the credentials.
#[derive(Debug, PartialEq, Eq)]
pub struct ApiRequest {
    pub method: HttpMethod,
    pub path: String,
    pub query: Vec<(String, String)>,
    pub form: Vec<(String, String)>,
}

/// The decimal digit character for `n` below ten.
pub open spec fn dec_digit(n: nat) -> char {
    if n == 0 {
        '0'
    } else if n == 1 {
        '1'
    } else if n == 2 {
        '2'
    } else if n == 3 {
        '3'
    } else if n == 4 {
        '4'
    } else if n == 5 {
        '5'
    } else if n == 6 {
        '6'
    } else if n == 7 {
        '7'
    } else if n == 8 {
        '8'
    } else {
        '9'
    }
}

/// The decimal digits of a natural number, most significant first.
pub open spec fn dec_digits(n: nat) -> Seq<char>
    decreases n,
{
    if n < 10 {
        seq![dec_digit(n)]
    } else {
        dec_digits(n / 10).push(dec_digit(n % 10))
    }
}

/// The decimal rendering of an integer: its digits, with a leading
/// minus sign when negative.
pub open spec fn dec_int(n: int) -> Seq<char> {
    if n < 0 {
        seq!['-'] + dec_digits((-n) as nat)
    } else {
        dec_digits(n as nat)
    }
}

fn dec_digit_str(d: u64) -> (r: &'static str)
    requires
        d < 10,
    ensures
        r@ == seq![dec_digit(d as nat)],
{
    let s: &'static str = if d == 0 {
        "0"
    } else if d == 1 {
        "1"
    } else if d == 2 {
        "2"
    } else if d == 3 {
        "3"
    } else if d == 4 {
        "4"
    } else if d == 5 {
        "5"
    } else if d == 6 {
        "6"
    } else if d == 7 {
        "7"
    } else if d == 8 {
        "8"
    } else {
        "9"
    };
    proof {
        reveal_strlit("0");
        reveal_strlit("1");
        reveal_strlit("2");
        reveal_strlit("3");
        reveal_strlit("4");
        reveal_strlit("5");
        reveal_strlit("6");
        reveal_strlit("7");
        reveal_strlit("8");
        reveal_strlit("9");
        assert(s@ =~= seq![dec_digit(d as nat)]);
    }
    s
}

fn u64_to_dec(n: u64) -> (r: String)
    ensures
        r@ == dec_digits(n as nat),
    decreases n,
{
    let d = dec_digit_str(n % 10);
    if n < 10 {
        String::from_str(d)
    } else {
        let prefix = u64_to_dec(n / 10);
        proof {
            assert(dec_digits((n / 10) as nat).push(dec_digit((n % 10) as nat)) =~= dec_digits(
                (n / 10) as nat,
            ) + d@);
        }
        prefix.concat(d)
    }
}

/// The decimal rendering of a 64-bit integer, exactly as [`dec_int`]
/// says it.
pub fn i64_to_dec(v: i64) -> (r: String)
    ensures
        r@ == dec_int(v as int),
{
    if v >= 0 {
        u64_to_dec(v as u64)
    } else {
        let m: u64 = ((-(v + 1)) as u64) + 1;
        proof {
            assert(m as int == -(v as int));
            reveal_strlit("-");
            assert("-"@ =~= seq!['-']);
        }
        String::from_str("-").concat(u64_to_dec(m).as_str())
    }
}

/// The target of a request: the base domain and the API path, joined
/// with exactly one slash whether or not the domain ends with one.
pub open spec fn spec_join_url(domain: Seq<char>, path: Seq<char>) -> Seq<char> {
    if domain.len() > 0 && domain.last() == '/' {
        domain + path
    } else {
        domain + "/"@ + path
    }
}

/// Joins the configured base domain with an API path, normalizing the
/// join to exactly one slash.
pub fn build_url(domain: &str, path: &str) -> (r: String)
    ensures
        r@ == spec_join_url(domain@, path@),
{
    let n = domain.unicode_len();
    if n > 0 && domain.get_char(n - 1) == '/' {
        String::from_str(domain).concat(path)
    } else {
        String::from_str(domain).concat("/").concat(path)
    }
}

} // verus!
