//! The two host services the protocol draws on: SHA-256 and the block's
//! random seed.

use vstd::prelude::*;

verus! {

/// The SHA-256 digest of a byte string.
pub uninterp spec fn sha256_digest(data: Seq<u8>) -> Seq<u8>;

/// `near_sdk::env::sha256`, trusted: the result is the SHA-256 digest of the
/// argument, a function of the bytes alone, and is 32 bytes long.
#[verifier::external_body]
pub(crate) fn sha256(data: &[u8]) -> (digest: Vec<u8>)
    ensures
        digest@ == sha256_digest(data@),
        digest@.len() == 32,
{
    near_sdk::env::sha256(data)
}

/// `near_sdk::env::random_seed_array`, trusted: the host's 32-byte random
/// seed. Nothing is claimed of its value.
#[verifier::external_body]
pub(crate) fn entropy() -> (seed: [u8; 32])
{
    near_sdk::env::random_seed_array()
}

} // verus!
