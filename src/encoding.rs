//! Base64 encoding of binary payloads.
use vstd::prelude::*;

verus! {

/// The largest input that base64 encoding accepts: its output length must
/// fit in a machine word.
pub const MAX_ENCODED_INPUT: usize = usize::MAX / 2;

/// The standard, padded base64 encoding of `bytes`.
pub uninterp spec fn base64_of(bytes: Seq<u8>) -> Seq<char>;

/// Relies on base64::encode: the standard alphabet with padding.
#[verifier::external_body]
pub(crate) fn encode_base64(bytes: &Vec<u8>) -> (r: String)
    requires
        bytes@.len() <= MAX_ENCODED_INPUT,
    ensures
        r@ == base64_of(bytes@),
{
    base64::encode(bytes)
}

} // verus!
