//! The hash primitive the puzzle engine is built on.

use vstd::prelude::*;

verus! {

/// The 32-byte SHA-256 digest of a byte sequence. The digest is a pure
/// function of its input, so it is safe to give it a name; its value is
/// computed only by the trusted wrapper below.
pub uninterp spec fn sha256_of(data: Seq<u8>) -> Seq<u8>;

/// Relies on sha2::Sha256::digest: a deterministic 32-byte digest of the
/// input bytes, depending on nothing but those bytes.
#[verifier::external_body]
pub(crate) fn sha256_digest(data: &Vec<u8>) -> (r: [u8; 32])
    ensures
        r@ == sha256_of(data@),
{
    <sha2::Sha256 as sha2::Digest>::digest(data.as_slice()).into()
}

} // verus!
