//! Proof-of-history: a strictly sequential hash chain that orders events
//! before consensus finalizes them, independent of wall-clock time.

use vstd::prelude::*;

use crate::bytes::{push_u64_be, u64_be_bytes};
use crate::digest::{sha_digest, sha_digest_of};
use crate::state::ChainState;
use crate::types::HashValue;

verus! {

/// Domain tag of proof-of-history preimages.
pub const POH_DOMAIN: u8 = 1;

/// The hash-chain step: digest of the previous head and the step counter.
pub open spec fn spec_poh_step(prev: HashValue, counter: u64) -> HashValue {
    sha_digest_of(seq![POH_DOMAIN] + u64_be_bytes(prev) + u64_be_bytes(counter))
}

/// Computes the next head of the proof-of-history chain.
fn poh_step(prev: HashValue, counter: u64) -> (r: HashValue)
    ensures
        r == spec_poh_step(prev, counter),
{
    let mut preimage: Vec<u8> = Vec::new();
    preimage.push(POH_DOMAIN);
    push_u64_be(&mut preimage, prev);
    push_u64_be(&mut preimage, counter);
    proof {
        assert(preimage@ =~= seq![POH_DOMAIN] + u64_be_bytes(prev) + u64_be_bytes(counter));
    }
    sha_digest(&preimage)
}

impl ChainState {
    /// Advances the proof-of-history chain by one step and returns the new
    /// head. Runs once per block, before any solution is accepted.
    pub fn advance_poh(&mut self) -> (r: HashValue)
        requires
            old(self).wf(),
        ensures
            final(self).wf(),
            *final(self) == (ChainState {
                last_poh_hash: spec_poh_step(old(self).last_poh_hash, old(self).poh_counter),
                poh_counter: if old(self).poh_counter == u64::MAX {
                    u64::MAX
                } else {
                    (old(self).poh_counter + 1) as u64
                },
                ..*old(self)
            }),
            r == final(self).last_poh_hash,
    {
        let next = poh_step(self.last_poh_hash, self.poh_counter);
        self.last_poh_hash = next;
        self.poh_counter = self.poh_counter.saturating_add(1);
        next
    }

    /// A candidate hash is accepted exactly when it equals the current head
    /// of the proof-of-history chain.
    pub fn verify_poh(&self, candidate: HashValue) -> (r: bool)
        ensures
            r == (candidate == self.last_poh_hash),
    {
        candidate == self.last_poh_hash
    }
}

} // verus!
