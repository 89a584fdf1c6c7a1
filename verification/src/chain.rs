//! The block-production cycle: the per-block hook and the proof-of-work
//! entry point.
//!
//! Once per block the hook advances proof-of-history, finalizes due
//! governance proposals, halves the reward when the halving period has
//! passed (unless a halving proposal is still being voted on), retargets
//! difficulty at the end of each window, and refreshes the light-client
//! commitment. `submit_pow_solution` checks a miner's solution against the
//! difficulty, the proof-of-history head and the hash oracle, then mints
//! the reward and inserts the block into the fork-choice tree as one
//! atomic transition.

use vstd::prelude::*;

use crate::arith::saturating_mul_u64;
use crate::flyclient::{spec_block_hashes, spec_merkle_root};
use crate::fork_choice::spec_ghost_insert;
use crate::governance::{
    spec_difficulty_after, spec_finalize_events, spec_finalized_proposal,
    spec_halving_period_after, spec_reward_after,
};
use crate::poh::spec_poh_step;
use crate::pow::{
    lemma_retarget_positive, retarget_difficulty, spec_pow_valid, spec_retarget_difficulty,
    verify_pow,
};
use crate::rewards::{spec_mint_amount, spec_mint_events};
use crate::state::{ChainState, MERKLE_INTERVAL, RETARGET_WINDOW};
use crate::types::{AccountId, Balance, BlockContext, Error, Event, HashValue, Proposal};

verus! {

/// Whether an active proposal on the halving period blocks the periodic
/// halving at block `number`: one that is still active once due proposals
/// are finalized.
pub open spec fn spec_halving_blocked(props: Seq<Proposal>, number: u64) -> bool {
    exists|i: int|
        0 <= i < props.len() && (#[trigger] props[i]).status is Active && props[i].kind
            is HalvingPeriod && props[i].voting_ends_at >= number
}

/// The complete effect of the per-block hook at block `number` with
/// timestamp `now`, stated over the state before the hook.
pub open spec fn spec_on_initialize(pre: ChainState, post: ChainState, number: u64, now: u64) -> bool {
    let props = pre.proposals@;
    let reward1 = spec_reward_after(props, number, pre.block_reward);
    let period1 = spec_halving_period_after(props, number, pre.blocks_per_halving);
    let diff1 = spec_difficulty_after(props, number, pre.difficulty);
    let halves = !spec_halving_blocked(props, number) && number >= pre.last_halving_block && number
        - pre.last_halving_block >= period1 && reward1 != 0;
    let reward2 = if halves {
        (reward1 / 2) as Balance
    } else {
        reward1
    };
    let retargets = number % RETARGET_WINDOW == 0 && number > 0;
    let elapsed: u64 = if now >= pre.last_retarget_time {
        (now - pre.last_retarget_time) as u64
    } else {
        0
    };
    let commits = number % MERKLE_INTERVAL == 0 && number > 0;
    &&& post.block_number == number
    &&& post.last_poh_hash == spec_poh_step(pre.last_poh_hash, pre.poh_counter)
    &&& post.poh_counter == (if pre.poh_counter == u64::MAX {
        u64::MAX
    } else {
        (pre.poh_counter + 1) as u64
    })
    &&& post.proposals@.len() == props.len()
    &&& forall|i: int|
        0 <= i < props.len() ==> post.proposals@[i] == spec_finalized_proposal(props[i], number)
    &&& post.block_reward == reward2
    &&& post.last_halving_block == (if halves {
        number
    } else {
        pre.last_halving_block
    })
    &&& post.blocks_per_halving == period1
    &&& post.difficulty == (if retargets {
        spec_retarget_difficulty(diff1, elapsed)
    } else {
        diff1
    })
    &&& post.last_retarget_time == (if retargets {
        now
    } else {
        pre.last_retarget_time
    })
    &&& post.merkle_root == (if commits {
        spec_merkle_root(spec_block_hashes(pre.blocks@))
    } else {
        pre.merkle_root
    })
    &&& post.events@ == pre.events@ + spec_finalize_events(props, number) + (if halves {
        seq![Event::HalvingOccurred(number, reward2)]
    } else {
        Seq::<Event>::empty()
    })
    &&& post == (ChainState {
        block_number: post.block_number,
        last_poh_hash: post.last_poh_hash,
        poh_counter: post.poh_counter,
        proposals: post.proposals,
        block_reward: post.block_reward,
        last_halving_block: post.last_halving_block,
        blocks_per_halving: post.blocks_per_halving,
        difficulty: post.difficulty,
        last_retarget_time: post.last_retarget_time,
        merkle_root: post.merkle_root,
        events: post.events,
        ..pre
    })
}

impl ChainState {
    /// Whether a proposal on the halving period is still active.
    fn has_active_halving_proposal(&self) -> (r: bool)
        ensures
            r == exists|i: int|
                0 <= i < self.proposals@.len() && (#[trigger] self.proposals@[i]).status is Active
                    && self.proposals@[i].kind is HalvingPeriod,
    {
        let mut i: usize = 0;
        while i < self.proposals.len()
            invariant
                i <= self.proposals@.len(),
                forall|j: int|
                    0 <= j < i ==> !((#[trigger] self.proposals@[j]).status is Active
                        && self.proposals@[j].kind is HalvingPeriod),
            decreases self.proposals@.len() - i,
        {
            if matches!(self.proposals[i].status, crate::types::ProposalStatus::Active) && matches!(
                self.proposals[i].kind,
                crate::types::ProposalType::HalvingPeriod,
            ) {
                return true;
            }
            i = i + 1;
        }
        false
    }

    /// The scheduler hook, run once at the start of each block: advances
    /// proof-of-history, finalizes due proposals, halves the reward when
    /// the halving period has elapsed and no halving proposal is being
    /// voted on, retargets difficulty at the end of each window, and
    /// refreshes the light-client commitment on its own interval.
    pub fn on_initialize(&mut self, number: u64, now: u64)
        requires
            old(self).wf(),
        ensures
            final(self).wf(),
            spec_on_initialize(*old(self), *final(self), number, now),
    {
        self.block_number = number;
        let _ = self.advance_poh();
        self.finalize_proposals(number);
        let blocked = self.has_active_halving_proposal();
        proof {
            let props = old(self).proposals@;
            if blocked {
                let i = choose|i: int|
                    0 <= i < self.proposals@.len() && (#[trigger] self.proposals@[i]).status
                        is Active && self.proposals@[i].kind is HalvingPeriod;
                assert(self.proposals@[i] == spec_finalized_proposal(props[i], number));
                assert(props[i].status is Active && props[i].kind is HalvingPeriod
                    && props[i].voting_ends_at >= number);
                assert(spec_halving_blocked(props, number));
            }
            if spec_halving_blocked(props, number) {
                let i = choose|i: int|
                    0 <= i < props.len() && (#[trigger] props[i]).status is Active && props[i].kind
                        is HalvingPeriod && props[i].voting_ends_at >= number;
                assert(self.proposals@[i] == spec_finalized_proposal(props[i], number));
                assert(self.proposals@[i].status is Active && self.proposals@[i].kind
                    is HalvingPeriod);
                assert(blocked);
            }
        }
        if !blocked {
            let since = number.saturating_sub(self.last_halving_block);
            if since >= self.blocks_per_halving && self.block_reward != 0 {
                self.block_reward = self.block_reward / 2;
                self.last_halving_block = number;
                self.events.push(Event::HalvingOccurred(number, self.block_reward));
            }
        }
        if number % RETARGET_WINDOW == 0 && number > 0 {
            let elapsed = now.saturating_sub(self.last_retarget_time);
            proof {
                lemma_retarget_positive(self.difficulty, elapsed);
            }
            self.difficulty = retarget_difficulty(self.difficulty, elapsed);
            self.last_retarget_time = now;
        }
        if number % MERKLE_INTERVAL == 0 && number > 0 {
            self.update_merkle_tree();
        }
        proof {
            assert(self.events@ =~= old(self).events@ + spec_finalize_events(
                old(self).proposals@,
                number,
            ) + (if self.last_halving_block == number && !spec_halving_blocked(
                old(self).proposals@,
                number,
            ) && old(self).last_halving_block != number {
                seq![Event::HalvingOccurred(number, self.block_reward)]
            } else {
                Seq::<Event>::empty()
            }));
        }
    }

    /// Accepts or rejects one mined solution, as one atomic transition.
    /// The claimed difficulty must reach the current one, the submitted
    /// proof-of-history head must match the chain's, and the solution must
    /// be the digest of the canonical preimage and meet the target. On
    /// success the reward is minted under the supply cap and the block
    /// enters the fork-choice tree.
    pub fn submit_pow_solution(
        &mut self,
        miner: AccountId,
        nonce: Vec<u8>,
        solution: HashValue,
        difficulty: Balance,
        poh_hash: HashValue,
        ctx: BlockContext,
    ) -> (r: Result<(), Error>)
        requires
            old(self).wf(),
        ensures
            final(self).wf(),
            difficulty < old(self).difficulty ==> r == Err::<(), Error>(Error::DifficultyTooLow)
                && *final(self) == *old(self),
            difficulty >= old(self).difficulty && poh_hash != old(self).last_poh_hash ==> r
                == Err::<(), Error>(Error::PohVerificationFailed) && *final(self) == *old(self),
            difficulty >= old(self).difficulty && poh_hash == old(self).last_poh_hash
                && !spec_pow_valid(ctx.parent_hash, nonce@, solution, difficulty, poh_hash) ==> r
                == Err::<(), Error>(Error::PowVerificationFailed) && *final(self) == *old(self),
            difficulty >= old(self).difficulty && poh_hash == old(self).last_poh_hash
                && spec_pow_valid(ctx.parent_hash, nonce@, solution, difficulty, poh_hash) ==> {
                &&& r == Ok::<(), Error>(())
                &&& final(self).total_supply == old(self).total_supply + spec_mint_amount(
                    *old(self),
                )
                &&& spec_ghost_insert(
                    old(self).blocks@,
                    old(self).best_block,
                    old(self).best_total_difficulty,
                    old(self).orphans@,
                    old(self).events@ + spec_mint_events(*old(self), miner),
                    *final(self),
                    ctx.block_hash,
                    ctx.parent_hash,
                    difficulty,
                    miner,
                    old(self).block_number,
                    ctx.timestamp,
                    poh_hash,
                )
                &&& *final(self) == (ChainState {
                    total_supply: final(self).total_supply,
                    blocks: final(self).blocks,
                    best_block: final(self).best_block,
                    best_total_difficulty: final(self).best_total_difficulty,
                    orphans: final(self).orphans,
                    events: final(self).events,
                    ..*old(self)
                })
            },
    {
        if difficulty < self.difficulty {
            return Err(Error::DifficultyTooLow);
        }
        if !self.verify_poh(poh_hash) {
            return Err(Error::PohVerificationFailed);
        }
        if !verify_pow(ctx.parent_hash, &nonce, solution, difficulty, poh_hash) {
            return Err(Error::PowVerificationFailed);
        }
        let _reward = self.calculate_and_issue_reward(miner);
        let number = self.block_number;
        self.update_ghost_tree(
            ctx.block_hash,
            ctx.parent_hash,
            difficulty,
            miner,
            number,
            ctx.timestamp,
            poh_hash,
        );
        Ok(())
    }
}

/// Drives the per-block hook block by block until `state` stands at block
/// `n`, with timestamps spaced `block_time` seconds apart.
pub fn run_to_block(state: &mut ChainState, n: u64, block_time: u64)
    requires
        old(state).wf(),
    ensures
        final(state).wf(),
        final(state).block_number == (if n > old(state).block_number {
            n
        } else {
            old(state).block_number
        }),
        old(state).block_number < n && old(state).poh_counter + n - old(state).block_number
            <= u64::MAX ==> final(state).poh_counter == old(state).poh_counter + n - old(
            state,
        ).block_number,
{
    while state.block_number < n
        invariant
            state.wf(),
            state.block_number >= old(state).block_number,
            state.block_number <= n || state.block_number == old(state).block_number,
            old(state).poh_counter + state.block_number - old(state).block_number <= u64::MAX
                ==> state.poh_counter == old(state).poh_counter + state.block_number - old(
                state,
            ).block_number,
        decreases
                (if state.block_number < n {
                    n - state.block_number
                } else {
                    0
                }),
    {
        let next = state.block_number + 1;
        let ts = saturating_mul_u64(next, block_time);
        state.on_initialize(next, ts);
    }
}

} // verus!
