//! The ledger-state aggregate owned by the core.
//!
//! Every storage cell of the consensus engine is an explicit field of
//! [`ChainState`]; each entry point is a synchronous function over a mutable
//! reference to it, so one writer at a time transforms the state and every
//! node replays the same transitions to the same result.

use vstd::prelude::*;

use crate::arith::{spec_saturating_mul_u64, saturating_mul_u64};
use crate::types::{
    AccountId, Balance, BlockInfo, ChainConfig, Event, HashValue, LockedStake, OrphanBlock,
    Proposal, VerifiedExpert, Vote,
};

verus! {

/// Blocks between two difficulty retargets.
pub const RETARGET_WINDOW: u64 = 2016;

/// Intended seconds between two blocks.
pub const TARGET_BLOCK_TIME: u64 = 200;

/// Intended seconds covered by one retarget window.
pub const EXPECTED_WINDOW_TIME: u64 = RETARGET_WINDOW * TARGET_BLOCK_TIME;

/// Blocks between two light-client Merkle commitments.
pub const MERKLE_INTERVAL: u64 = 1000;

/// Stake a proposer must hold and reserve: 1000 whole coins of 10^18 units.
pub const MIN_PROPOSAL_STAKE: Balance = 1_000_000_000_000_000_000_000;

/// Full vote weight, in parts per billion.
pub const FULL_WEIGHT: u32 = 1_000_000_000;

/// Distinct attestations needed before an orphan block is rewarded.
pub const ORPHAN_QUORUM: usize = 3;

/// Share of the block reward paid for orphan attestation, in percent.
pub const ORPHAN_REWARD_PERCENT: Balance = 20;

/// The complete persisted state of the consensus and monetary-policy core.
pub struct ChainState {
    /// Genesis-time configuration; never mutated.
    pub config: ChainConfig,
    /// Number of the block currently being processed.
    pub block_number: u64,
    /// Total supply issued so far; never exceeds `config.max_supply`.
    pub total_supply: Balance,
    /// Current per-block reward.
    pub block_reward: Balance,
    /// Block at which the reward was last halved.
    pub last_halving_block: u64,
    /// Current blocks between two halvings; governance may change it.
    pub blocks_per_halving: u64,
    /// Current proof-of-work difficulty; always positive.
    pub difficulty: Balance,
    /// Timestamp at which the difficulty was last retargeted.
    pub last_retarget_time: u64,
    /// Head of the proof-of-history hash chain.
    pub last_poh_hash: HashValue,
    /// Number of proof-of-history steps taken.
    pub poh_counter: u64,
    /// Every observed block, keyed by hash.
    pub blocks: Vec<BlockInfo>,
    /// Hash of the block with the greatest known total difficulty.
    pub best_block: HashValue,
    /// Total difficulty of the best block.
    pub best_total_difficulty: Balance,
    /// Non-canonical blocks awaiting attestation, keyed by hash.
    pub orphans: Vec<OrphanBlock>,
    /// Governance proposals, keyed by id.
    pub proposals: Vec<Proposal>,
    /// Id the next proposal will receive.
    pub next_proposal_id: u32,
    /// Recorded votes, keyed by proposal id and voter.
    pub votes: Vec<Vote>,
    /// Registered experts, keyed by account.
    pub experts: Vec<VerifiedExpert>,
    /// Stake reservation schedule, keyed by account.
    pub locked_stakes: Vec<LockedStake>,
    /// Latest light-client Merkle commitment.
    pub merkle_root: HashValue,
    /// Notices produced so far, in order.
    pub events: Vec<Event>,
}

impl ChainState {
    /// Well-formedness: the supply cap, positive difficulty, the best-block
    /// maximality rule, and uniqueness of every key space.
    pub open spec fn wf(self) -> bool {
        &&& self.total_supply <= self.config.max_supply
        &&& self.difficulty >= 1
        &&& self.blocks_per_halving >= 1
        &&& forall|i: int, j: int|
            0 <= i < j < self.blocks@.len() ==> self.blocks@[i].hash != self.blocks@[j].hash
        &&& forall|i: int|
            0 <= i < self.blocks@.len() ==> #[trigger] self.blocks@[i].total_difficulty
                <= self.best_total_difficulty
        &&& self.blocks@.len() == 0 ==> self.best_total_difficulty == 0
        &&& self.blocks@.len() > 0 ==> exists|i: int|
            0 <= i < self.blocks@.len() && #[trigger] self.blocks@[i].hash == self.best_block
                && self.blocks@[i].total_difficulty == self.best_total_difficulty
        &&& forall|i: int, j: int|
            0 <= i < j < self.orphans@.len() ==> self.orphans@[i].info.hash
                != self.orphans@[j].info.hash
        &&& forall|i: int|
            0 <= i < self.orphans@.len() ==> (#[trigger] self.orphans@[i]).wf()
        &&& self.next_proposal_id >= 1
        &&& forall|i: int|
            0 <= i < self.proposals@.len() ==> 1 <= #[trigger] self.proposals@[i].id
                < self.next_proposal_id
        &&& forall|i: int, j: int|
            0 <= i < j < self.proposals@.len() ==> self.proposals@[i].id != self.proposals@[j].id
        &&& forall|i: int, j: int|
            0 <= i < j < self.votes@.len() ==> !(self.votes@[i].proposal_id
                == self.votes@[j].proposal_id && self.votes@[i].voter == self.votes@[j].voter)
        &&& forall|i: int|
            0 <= i < self.votes@.len() ==> #[trigger] self.votes@[i].proposal_id
                < self.next_proposal_id
        &&& forall|i: int, j: int|
            0 <= i < j < self.experts@.len() ==> self.experts@[i].account_id
                != self.experts@[j].account_id
        &&& forall|i: int|
            0 <= i < self.experts@.len() ==> #[trigger] self.experts@[i].accuracy <= FULL_WEIGHT
        &&& forall|i: int, j: int|
            0 <= i < j < self.locked_stakes@.len() ==> self.locked_stakes@[i].account
                != self.locked_stakes@[j].account
    }

    /// The ledger state a fresh chain starts from.
    pub fn new(config: ChainConfig) -> (r: ChainState)
        requires
            config.initial_difficulty >= 1,
            config.blocks_per_year >= 1,
            config.halving_years >= 1,
        ensures
            r.wf(),
            r.config == config,
            r.block_number == 0,
            r.total_supply == 0,
            r.block_reward == config.block_reward,
            r.last_halving_block == 0,
            r.blocks_per_halving == spec_saturating_mul_u64(
                config.blocks_per_year,
                config.halving_years,
            ),
            r.difficulty == config.initial_difficulty,
            r.last_retarget_time == 0,
            r.last_poh_hash == 0,
            r.poh_counter == 0,
            r.blocks@.len() == 0,
            r.best_block == 0,
            r.best_total_difficulty == 0,
            r.orphans@.len() == 0,
            r.proposals@.len() == 0,
            r.next_proposal_id == 1,
            r.votes@.len() == 0,
            r.experts@.len() == 0,
            r.locked_stakes@.len() == 0,
            r.merkle_root == 0,
            r.events@.len() == 0,
    {
        let blocks_per_halving = saturating_mul_u64(config.blocks_per_year, config.halving_years);
        proof {
            assert(config.blocks_per_year * config.halving_years >= config.blocks_per_year * 1)
                by (nonlinear_arith)
                requires
                    config.halving_years >= 1,
                    config.blocks_per_year >= 0,
            ;
        }
        ChainState {
            config,
            block_number: 0,
            total_supply: 0,
            block_reward: config.block_reward,
            last_halving_block: 0,
            blocks_per_halving,
            difficulty: config.initial_difficulty,
            last_retarget_time: 0,
            last_poh_hash: 0,
            poh_counter: 0,
            blocks: Vec::new(),
            best_block: 0,
            best_total_difficulty: 0,
            orphans: Vec::new(),
            proposals: Vec::new(),
            next_proposal_id: 1,
            votes: Vec::new(),
            experts: Vec::new(),
            locked_stakes: Vec::new(),
            merkle_root: 0,
            events: Vec::new(),
        }
    }

    /// Total supply issued so far.
    pub fn total_supply(&self) -> (r: Balance)
        ensures
            r == self.total_supply,
    {
        self.total_supply
    }

    /// Current per-block reward.
    pub fn current_block_reward(&self) -> (r: Balance)
        ensures
            r == self.block_reward,
    {
        self.block_reward
    }

    /// Current proof-of-work difficulty.
    pub fn current_difficulty(&self) -> (r: Balance)
        ensures
            r == self.difficulty,
    {
        self.difficulty
    }

    /// Block at which the reward was last halved.
    pub fn last_halving_block(&self) -> (r: u64)
        ensures
            r == self.last_halving_block,
    {
        self.last_halving_block
    }
}

impl OrphanBlock {
    /// Validators of one orphan block are pairwise distinct.
    pub open spec fn wf(self) -> bool {
        forall|i: int, j: int|
            0 <= i < j < self.validators@.len() ==> self.validators@[i] != self.validators@[j]
    }
}

} // verus!
