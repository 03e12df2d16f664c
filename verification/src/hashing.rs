//! The Blake2b-256 digest, as `sp-core` computes it.
use vstd::prelude::*;
use hash_db::Hasher;
use sp_core::Blake2Hasher;

verus! {

/// The Blake2b-256 digest of `data`.
pub uninterp spec fn spec_blake2_256(data: Seq<u8>) -> Seq<u8>;

/// Hashes `data` with `Blake2Hasher::hash`.
///
/// Trusted: the digest depends on the bytes of `data` alone.
#[verifier::external_body]
pub(crate) fn blake2_256(data: &[u8]) -> (digest: [u8; 32])
    ensures
        digest@ == spec_blake2_256(data@),
{
    Blake2Hasher::hash(data).0
}

} // verus!
