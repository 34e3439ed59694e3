//! Helpers for comparing and folding text.

use vstd::prelude::*;

verus! {

/// The Unicode lower-case form of a text, as the standard library computes it.
pub uninterp spec fn lowercase_of(text: Seq<char>) -> Seq<char>;

/// Trusted: calls `str::to_lowercase` of the standard library.
///
/// The contract only names the result: it is the lower-case form of `text`,
/// which depends on nothing but the characters of `text`.
#[verifier::external_body]
pub(crate) fn to_lowercase(text: &str) -> (lower: String)
    ensures
        lower@ == lowercase_of(text@),
{
    text.to_lowercase()
}

/// Tells whether two texts hold the same characters.
///
/// The comparison walks the UTF-8 encodings of both texts; equal encodings
/// decode to equal texts.
pub fn str_eq(left: &str, right: &str) -> (same: bool)
    ensures
        same == (left@ == right@),
{
    let left_bytes = left.as_bytes();
    let right_bytes = right.as_bytes();
    proof {
        vstd::utf8::encode_utf8_decode_utf8(left@);
        vstd::utf8::encode_utf8_decode_utf8(right@);
    }
    if left_bytes.len() != right_bytes.len() {
        return false;
    }
    let mut i: usize = 0;
    while i < left_bytes.len()
        invariant
            i <= left_bytes.len(),
            left_bytes.len() == right_bytes.len(),
            forall|j: int| 0 <= j < i ==> left_bytes@[j] == right_bytes@[j],
            left_bytes@ == vstd::utf8::encode_utf8(left@),
            right_bytes@ == vstd::utf8::encode_utf8(right@),
            vstd::utf8::decode_utf8(vstd::utf8::encode_utf8(left@)) == left@,
            vstd::utf8::decode_utf8(vstd::utf8::encode_utf8(right@)) == right@,
        decreases left_bytes.len() - i,
    {
        if left_bytes[i] != right_bytes[i] {
            return false;
        }
        i += 1;
    }
    assert(left_bytes@ =~= right_bytes@);
    true
}

} // verus!
