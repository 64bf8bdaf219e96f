//! Turning the bytes a command printed into text.
use vstd::prelude::*;
use vstd::utf8::{decode_utf8, valid_utf8};

verus! {

/// The text that `String::from_utf8_lossy` makes of `bytes`.
pub uninterp spec fn utf8_lossy(bytes: Seq<u8>) -> Seq<char>;

/// Calls `String::from_utf8_lossy` and takes ownership of the result.
/// Trusted: the result is what that function gives for these bytes, and,
/// as its documentation says, bytes that are valid UTF-8 are decoded
/// unchanged. What becomes of invalid sequences (each is replaced by
/// U+FFFD) is not stated.
#[verifier::external_body]
fn from_utf8_lossy_owned(bytes: &[u8]) -> (r: String)
    ensures
        r@ == utf8_lossy(bytes@),
        valid_utf8(bytes@) ==> r@ == decode_utf8(bytes@),
{
    String::from_utf8_lossy(bytes).into_owned()
}

/// The text of what a command printed on its standard output.
pub fn string_from_std(stdout: &[u8]) -> (r: String)
    ensures
        r@ == utf8_lossy(stdout@),
        valid_utf8(stdout@) ==> r@ == decode_utf8(stdout@),
{
    from_utf8_lossy_owned(stdout)
}

} // verus!
