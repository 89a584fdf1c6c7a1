//! Proof-of-work verification and the difficulty retarget rule.
//!
//! A solution is the digest of (parent hash ∥ nonce ∥ proof-of-history head)
//! under the hash oracle, and it must not exceed the numeric target implied
//! by the claimed difficulty. The retarget rule scales difficulty by the
//! ratio of intended to actual window time, clamped to a factor of four per
//! window, and never lets it reach zero.

use vstd::prelude::*;

use crate::arith::{spec_saturating_mul_u128, saturating_mul_u128};
use crate::bytes::{push_u64_be, u64_be_bytes};
use crate::digest::{sha_digest, sha_digest_of};
use crate::state::EXPECTED_WINDOW_TIME;
use crate::types::{Balance, HashValue};

verus! {

/// Domain tag of proof-of-work preimages.
pub const WORK_DOMAIN: u8 = 2;

/// Largest adjustment factor one retarget may apply, up or down.
pub const RETARGET_CLAMP: u128 = 4;

/// Numeric target a solution digest must not exceed: the digest space
/// scaled down by the difficulty.
pub open spec fn spec_pow_target(difficulty: Balance) -> u64 {
    if difficulty == 0 {
        u64::MAX
    } else if difficulty > u64::MAX {
        0
    } else {
        (u64::MAX as u128 / difficulty) as u64
    }
}

/// Whether a digest meets the target implied by `difficulty`.
pub open spec fn spec_meets_target(digest: u64, difficulty: Balance) -> bool {
    digest <= spec_pow_target(difficulty)
}

/// Digest of the canonical proof-of-work preimage.
pub open spec fn spec_work_digest(parent: HashValue, nonce: Seq<u8>, poh: HashValue) -> u64 {
    sha_digest_of(seq![WORK_DOMAIN] + u64_be_bytes(parent) + nonce + u64_be_bytes(poh))
}

/// A solution is valid when it is the digest of the canonical preimage and
/// meets the numeric target.
pub open spec fn spec_pow_valid(
    parent: HashValue,
    nonce: Seq<u8>,
    solution: u64,
    difficulty: Balance,
    poh: HashValue,
) -> bool {
    solution == spec_work_digest(parent, nonce, poh) && spec_meets_target(solution, difficulty)
}

/// Computes the numeric target for `difficulty`.
pub fn pow_target(difficulty: Balance) -> (r: u64)
    ensures
        r == spec_pow_target(difficulty),
{
    if difficulty == 0 {
        u64::MAX
    } else if difficulty > u64::MAX as u128 {
        0
    } else {
        (u64::MAX as u128 / difficulty) as u64
    }
}

/// Recomputes the digest of the canonical preimage.
fn work_digest(parent: HashValue, nonce: &Vec<u8>, poh: HashValue) -> (r: u64)
    ensures
        r == spec_work_digest(parent, nonce@, poh),
{
    let mut preimage: Vec<u8> = Vec::new();
    preimage.push(WORK_DOMAIN);
    push_u64_be(&mut preimage, parent);
    let mut i: usize = 0;
    while i < nonce.len()
        invariant
            i <= nonce@.len(),
            preimage@ == seq![WORK_DOMAIN] + u64_be_bytes(parent) + nonce@.subrange(0, i as int),
        decreases nonce@.len() - i,
    {
        preimage.push(nonce[i]);
        i = i + 1;
        proof {
            assert(preimage@ =~= seq![WORK_DOMAIN] + u64_be_bytes(parent)
                + nonce@.subrange(0, i as int));
        }
    }
    push_u64_be(&mut preimage, poh);
    proof {
        assert(nonce@.subrange(0, nonce@.len() as int) =~= nonce@);
        assert(preimage@ =~= seq![WORK_DOMAIN] + u64_be_bytes(parent) + nonce@
            + u64_be_bytes(poh));
    }
    sha_digest(&preimage)
}

/// Evaluates one nonce against the current target: returns the digest of
/// the canonical preimage and whether it meets the target. Mining workers
/// call this in their search loop.
pub fn evaluate_nonce(
    parent: HashValue,
    nonce: &Vec<u8>,
    poh: HashValue,
    difficulty: Balance,
) -> (r: (u64, bool))
    ensures
        r.0 == spec_work_digest(parent, nonce@, poh),
        r.1 == spec_meets_target(r.0, difficulty),
{
    let digest = work_digest(parent, nonce, poh);
    let meets = digest <= pow_target(difficulty);
    (digest, meets)
}

/// Checks a claimed solution against the canonical preimage and the target.
pub fn verify_pow(
    parent: HashValue,
    nonce: &Vec<u8>,
    solution: u64,
    difficulty: Balance,
    poh: HashValue,
) -> (r: bool)
    ensures
        r == spec_pow_valid(parent, nonce@, solution, difficulty, poh),
{
    let digest = work_digest(parent, nonce, poh);
    solution == digest && digest <= pow_target(difficulty)
}

/// The difficulty after one retarget: the old difficulty scaled by the
/// ratio of intended to actual window time, clamped to a factor of
/// `RETARGET_CLAMP`, and never below one.
pub open spec fn spec_retarget_difficulty(difficulty: Balance, elapsed: u64) -> Balance {
    let actual: u128 = if elapsed == 0 {
        1
    } else {
        elapsed as u128
    };
    let raw = spec_saturating_mul_u128(difficulty, EXPECTED_WINDOW_TIME as u128) / actual;
    let hi = spec_saturating_mul_u128(difficulty, RETARGET_CLAMP);
    let lo: u128 = if difficulty / RETARGET_CLAMP >= 1 {
        difficulty / RETARGET_CLAMP
    } else {
        1
    };
    if raw < lo {
        lo
    } else if raw > hi {
        hi
    } else {
        raw
    }
}

/// After any retarget of a positive difficulty, the difficulty is still
/// positive.
pub proof fn lemma_retarget_positive(difficulty: Balance, elapsed: u64)
    requires
        difficulty >= 1,
    ensures
        spec_retarget_difficulty(difficulty, elapsed) >= 1,
{
}

/// Computes the retargeted difficulty.
pub fn retarget_difficulty(difficulty: Balance, elapsed: u64) -> (r: Balance)
    ensures
        r == spec_retarget_difficulty(difficulty, elapsed),
{
    let actual: u128 = if elapsed == 0 {
        1
    } else {
        elapsed as u128
    };
    let raw = saturating_mul_u128(difficulty, EXPECTED_WINDOW_TIME as u128) / actual;
    let hi = saturating_mul_u128(difficulty, RETARGET_CLAMP);
    let quarter = difficulty / RETARGET_CLAMP;
    let lo: u128 = if quarter >= 1 {
        quarter
    } else {
        1
    };
    if raw < lo {
        lo
    } else if raw > hi {
        hi
    } else {
        raw
    }
}

} // verus!
