use vstd::prelude::*;
use sha3::digest::Digest;

verus! {

/// The Keccak-256 digest of a byte string, as `sha3::Keccak256` computes it.
pub uninterp spec fn keccak256(data: Seq<u8>) -> Seq<u8>;

/// Calls `sha3::Keccak256::digest`. Trusted: the result is the Keccak-256
/// digest of `data`, a function of the bytes of `data` alone.
#[verifier::external_body]
pub(crate) fn keccak256_digest(data: &[u8]) -> (out: Vec<u8>)
    ensures
        out@ == keccak256(data@),
{
    sha3::Keccak256::digest(data).to_vec()
}

} // verus!
