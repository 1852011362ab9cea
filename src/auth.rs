//! Token checks that take the same time wherever two tokens of equal length
//! first differ.
use subtle::ConstantTimeEq;
use vstd::prelude::*;

verus! {

broadcast use vstd::utf8::group_utf8_lib;

/// Relies on `subtle`'s `ConstantTimeEq` for slices: `ct_eq` yields 1 exactly
/// when both slices have the same length and the same bytes, and on equal
/// lengths it combines every byte without stopping at a mismatch.
#[verifier::external_body]
fn constant_time_eq(a: &[u8], b: &[u8]) -> (r: bool)
    ensures
        r == (a@ == b@),
{
    a.ct_eq(b).into()
}

/// Whether `provided` is the `expected` token. Tokens of different lengths
/// are refused at once; tokens of one length are compared in constant time.
pub fn tokens_match(expected: &str, provided: &str) -> (r: bool)
    ensures
        r == (expected@ == provided@),
{
    let e = expected.as_bytes();
    let p = provided.as_bytes();
    proof {
        vstd::utf8::encode_utf8_decode_utf8(expected@);
        vstd::utf8::encode_utf8_decode_utf8(provided@);
    }
    if e.len() != p.len() {
        return false;
    }
    constant_time_eq(e, p)
}

/// Whether a callback's `Authorization` header carries the shared secret as
/// a bearer token.
pub fn callback_authorized(authorization: &str, callback_secret: &str) -> (r: bool)
    ensures
        r == (authorization@ == "Bearer "@ + callback_secret@),
{
    let mut expected = String::from_str("Bearer ");
    expected.append(callback_secret);
    tokens_match(expected.as_str(), authorization)
}

} // verus!
