//! Wire-syntax validity, asked of hyper.
//!
//! Whether a method token, a header name, a header value or a target URI is
//! acceptable at the HTTP layer is decided by hyper (through the `http` types
//! it re-exports). Each check below only makes that call and hands the answer
//! back under a name; every answer depends on the argument's content alone.

use vstd::prelude::*;

verus! {

/// Whether hyper accepts `m` as an HTTP method token.
pub uninterp spec fn method_parses(m: Seq<char>) -> bool;

/// Whether hyper accepts `n` as a header name.
pub uninterp spec fn header_name_parses(n: Seq<char>) -> bool;

/// Whether hyper accepts the bytes `v` as a header value.
pub uninterp spec fn header_value_parses(v: Seq<u8>) -> bool;

/// Whether hyper parses `u` as a URI.
pub uninterp spec fn uri_parses(u: Seq<char>) -> bool;

/// Relies on hyper::Method::from_bytes: whether `m` is a valid HTTP method
/// token, a function of the characters alone.
#[verifier::external_body]
pub(crate) fn check_method(m: &str) -> (r: bool)
    ensures
        r == method_parses(m@),
{
    hyper::Method::from_bytes(m.as_bytes()).is_ok()
}

/// Relies on hyper::header::HeaderName::from_bytes: whether `n` is a valid
/// header name, a function of the characters alone.
#[verifier::external_body]
pub(crate) fn check_header_name(n: &str) -> (r: bool)
    ensures
        r == header_name_parses(n@),
{
    hyper::header::HeaderName::from_bytes(n.as_bytes()).is_ok()
}

/// Relies on hyper::header::HeaderValue::from_bytes: whether the bytes `v`
/// are a valid header value, a function of the bytes alone.
#[verifier::external_body]
pub(crate) fn check_header_value(v: &[u8]) -> (r: bool)
    ensures
        r == header_value_parses(v@),
{
    hyper::header::HeaderValue::from_bytes(v).is_ok()
}

/// Relies on hyper::Uri's FromStr: whether `u` parses as a URI, a function
/// of the characters alone.
#[verifier::external_body]
pub(crate) fn check_uri(u: &str) -> (r: bool)
    ensures
        r == uri_parses(u@),
{
    u.parse::<hyper::Uri>().is_ok()
}

} // verus!
