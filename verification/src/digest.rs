//! The hash oracle behind proof-of-work, proof-of-history and the Merkle
//! commitments.
//!
//! The ledger treats the hash function as an opaque, deterministic oracle: it
//! never relies on any structural property of the digest, only on the fact
//! that equal inputs give equal outputs. The oracle is SHA-256, folded to a
//! 64-bit word; every use site builds its preimage in verified code and goes
//! through the single trusted binding below.

use vstd::prelude::*;
use sha2::Digest;

verus! {

/// Value of the SHA-256 digest of `data`, folded to its first eight bytes.
pub uninterp spec fn sha_digest_of(data: Seq<u8>) -> u64;

/// Relies on `sha2::Sha256::digest`: the digest is a function of the input
/// bytes alone, so equal byte strings always map to the same word.
#[verifier::external_body]
pub(crate) fn sha_digest(data: &Vec<u8>) -> (r: u64)
    ensures
        r == sha_digest_of(data@),
{
    let d = sha2::Sha256::digest(data.as_slice());
    let mut word = [0u8; 8];
    word.copy_from_slice(&d[0..8]);
    u64::from_be_bytes(word)
}

} // verus!
