//! Reward issuance under the halving schedule and the hard supply cap.

use vstd::prelude::*;

use vstd::arithmetic::div_mod::lemma_div_denominator;
use vstd::arithmetic::power2::{lemma_pow2_pos, lemma_pow2_unfold, pow2};

use crate::state::ChainState;
use crate::types::{AccountId, Balance, Event, ProposalStatus, ProposalType};

verus! {

/// Amount minted for the next accepted solution: the current reward,
/// truncated to the remaining headroom under the supply cap.
pub open spec fn spec_mint_amount(s: ChainState) -> Balance {
    if s.total_supply >= s.config.max_supply {
        0
    } else if s.block_reward <= s.config.max_supply - s.total_supply {
        s.block_reward
    } else {
        (s.config.max_supply - s.total_supply) as Balance
    }
}

/// Notices of one issuance: the cap notice once the cap is reached, the
/// payment notice on a nonzero reward, nothing otherwise.
pub open spec fn spec_mint_events(s: ChainState, miner: AccountId) -> Seq<Event> {
    if s.total_supply >= s.config.max_supply {
        seq![Event::MaxSupplyReached(s.block_number, s.total_supply)]
    } else if spec_mint_amount(s) > 0 {
        seq![Event::RewardPaid(miner, spec_mint_amount(s), s.block_number)]
    } else {
        Seq::empty()
    }
}

/// Whether a proposal to change the halving period is still being voted on.
pub open spec fn spec_has_active_halving_proposal(s: ChainState) -> bool {
    exists|i: int|
        0 <= i < s.proposals@.len() && (#[trigger] s.proposals@[i]).status is Active
            && s.proposals@[i].kind is HalvingPeriod
}

/// Whether the per-block hook halves the reward at block `number`.
pub open spec fn spec_halving_due(s: ChainState, number: u64) -> bool {
    &&& !spec_has_active_halving_proposal(s)
    &&& number >= s.last_halving_block
    &&& number - s.last_halving_block >= s.blocks_per_halving
    &&& s.block_reward != 0
}

/// The reward after `k` successive halvings.
pub open spec fn spec_halved_reward(initial: Balance, k: nat) -> Balance
    decreases k,
{
    if k == 0 {
        initial
    } else {
        (spec_halved_reward(initial, (k - 1) as nat) / 2) as Balance
    }
}

/// The supply cap. The cap holds in every well-formed state, so it holds
/// after every sequence of accepted solutions; the minted amount is exactly
/// the remaining headroom when the reward would overshoot it, and zero once
/// the cap is reached.
pub proof fn lemma_supply_cap(s: ChainState)
    requires
        s.wf(),
    ensures
        s.total_supply <= s.config.max_supply,
        s.total_supply + spec_mint_amount(s) <= s.config.max_supply,
        s.total_supply + s.block_reward > s.config.max_supply ==> s.total_supply
            + spec_mint_amount(s) == s.config.max_supply,
        s.total_supply == s.config.max_supply ==> spec_mint_amount(s) == 0,
{
}

/// The halving schedule: `k` successive halvings leave exactly the initial
/// reward divided by `2^k`, rounded down.
pub proof fn lemma_halving_schedule(initial: Balance, k: nat)
    ensures
        spec_halved_reward(initial, k) == initial as int / pow2(k) as int,
    decreases k,
{
    if k == 0 {
        assert(pow2(0) == 1) by {
            vstd::arithmetic::power2::lemma2_to64();
        }
    } else {
        lemma_halving_schedule(initial, (k - 1) as nat);
        lemma_pow2_pos((k - 1) as nat);
        lemma_pow2_unfold(k);
        lemma_div_denominator(initial as int, pow2((k - 1) as nat) as int, 2);
        assert(pow2((k - 1) as nat) * 2 == pow2(k)) by {
            lemma_pow2_unfold(k);
        }
    }
}

impl ChainState {
    /// Issues the reward for an accepted solution to `miner`: the current
    /// block reward truncated to the headroom under the supply cap. Updates
    /// the total supply and produces the corresponding notice; the returned
    /// amount is the deposit the ledger owes the miner.
    pub fn calculate_and_issue_reward(&mut self, miner: AccountId) -> (r: Balance)
        requires
            old(self).wf(),
        ensures
            final(self).wf(),
            r == spec_mint_amount(*old(self)),
            *final(self) == (ChainState {
                total_supply: (old(self).total_supply + r) as Balance,
                events: final(self).events,
                ..*old(self)
            }),
            final(self).events@ == old(self).events@ + spec_mint_events(*old(self), miner),
    {
        if self.total_supply >= self.config.max_supply {
            self.events.push(Event::MaxSupplyReached(self.block_number, self.total_supply));
            return 0;
        }
        let headroom = self.config.max_supply - self.total_supply;
        let reward = if self.block_reward <= headroom {
            self.block_reward
        } else {
            headroom
        };
        if reward > 0 {
            self.total_supply = self.total_supply + reward;
            self.events.push(Event::RewardPaid(miner, reward, self.block_number));
        }
        reward
    }
}

} // verus!
