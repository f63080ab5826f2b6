//! Text primitives of the standard library that the coordinator relies on.

use vstd::prelude::*;
use vstd::utf8::{decode_utf8, valid_utf8};

verus! {

/// The text that lossy UTF-8 decoding yields for a byte string.
pub uninterp spec fn lossy_text(bytes: Seq<u8>) -> Seq<char>;

/// Compares two string slices with `str`'s own `==`.
///
/// Trusted: the result is `true` exactly when both slices hold the same
/// sequence of characters.
#[verifier::external_body]
pub(crate) fn same_text(a: &str, b: &str) -> (same: bool)
    ensures
        same == (a@ == b@),
{
    a == b
}

/// Decodes captured output with `String::from_utf8_lossy`.
///
/// Trusted: the result is a function of the bytes alone, named by
/// [`lossy_text`]; well-formed UTF-8 decodes to exactly the text it encodes.
/// Ill-formed sequences are replaced, never rejected.
#[verifier::external_body]
pub(crate) fn decode_lossy(bytes: &[u8]) -> (decoded: String)
    ensures
        decoded@ == lossy_text(bytes@),
        valid_utf8(bytes@) ==> decoded@ == decode_utf8(bytes@),
{
    String::from_utf8_lossy(bytes).into_owned()
}

} // verus!
