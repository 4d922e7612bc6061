use sha2::Digest;
use vstd::prelude::*;

verus! {

/// The SHA-256 digest of `b`, written as lowercase hexadecimal text.
pub uninterp spec fn sha256_hex(b: Seq<u8>) -> Seq<char>;

/// Relies on sha2::Sha256::digest for the 256-bit digest of the bytes, and on
/// the `LowerHex` formatting of its output array for the text: the result
/// depends on the bytes alone.
#[verifier::external_body]
pub(crate) fn content_digest(b: &Vec<u8>) -> (r: String)
    ensures
        r@ == sha256_hex(b@),
{
    format!("{:x}", sha2::Sha256::digest(b))
}

} // verus!
