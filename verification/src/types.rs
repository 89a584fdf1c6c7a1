//! Data model of the ledger core.
//!
//! Accounts are identified by 64-bit ids, block and digest values by 64-bit
//! words, balances and difficulty by 128-bit amounts. Every record below is
//! kept exactly under the key space an explorer or light client indexes by:
//! blocks and orphans by block hash, proposals by id, votes by proposal id
//! and voter, experts and stake locks by account.

use vstd::prelude::*;

verus! {

/// Account identifier.
pub type AccountId = u64;

/// Balance or difficulty amount.
pub type Balance = u128;

/// Digest value identifying a block or commitment.
pub type HashValue = u64;

/// Genesis-time configuration of the monetary policy and the proof-of-work
/// engine.
#[derive(Clone, Copy, PartialEq, Eq, Structural, Debug)]
pub struct ChainConfig {
    /// Reward paid for a freshly mined block before any halving.
    pub block_reward: Balance,
    /// Blocks produced per year.
    pub blocks_per_year: u64,
    /// Years between two reward halvings.
    pub halving_years: u64,
    /// Hard cap on the total issued supply.
    pub max_supply: Balance,
    /// Difficulty the chain starts at.
    pub initial_difficulty: Balance,
}

/// Immutable record of one observed block, canonical or not.
#[derive(Clone, Copy, PartialEq, Eq, Structural, Debug)]
pub struct BlockInfo {
    pub number: u64,
    pub hash: HashValue,
    pub parent_hash: HashValue,
    pub timestamp: u64,
    pub author: AccountId,
    pub difficulty: Balance,
    pub total_difficulty: Balance,
    pub poh_hash: HashValue,
}

/// A valid block that lost the fork choice, plus the accounts that attested
/// to it. `is_rewarded` moves from `false` to `true` exactly once.
#[derive(Clone, Debug)]
pub struct OrphanBlock {
    pub info: BlockInfo,
    pub validators: Vec<AccountId>,
    pub is_rewarded: bool,
}

/// Lifecycle of a governance proposal.
#[derive(Clone, Copy, PartialEq, Eq, Structural, Debug)]
pub enum ProposalStatus {
    Active,
    Approved,
    Rejected,
    Executed,
}

/// Which chain parameter a proposal targets.
#[derive(Clone, Copy, PartialEq, Eq, Structural, Debug)]
pub enum ProposalType {
    BlockReward,
    HalvingPeriod,
    DifficultyAdjustment,
    ProtocolUpgrade,
}

/// A governance proposal. Created by `create_proposal`, tallied by `vote`,
/// finalized by the per-block hook; never deleted.
#[derive(Clone, Debug)]
pub struct Proposal {
    pub id: u32,
    pub proposer: AccountId,
    pub kind: ProposalType,
    pub description: Vec<u8>,
    pub proposed_value: u128,
    pub voting_ends_at: u64,
    pub votes_for: Balance,
    pub votes_against: Balance,
    pub status: ProposalStatus,
}

/// One recorded vote; unique per (proposal id, voter) and immutable.
#[derive(Clone, Copy, Debug)]
pub struct Vote {
    pub voter: AccountId,
    pub proposal_id: u32,
    pub in_favor: bool,
    pub stake: Balance,
    pub delegated_to: Option<AccountId>,
    /// Weight applied to the stake, in parts per billion.
    pub weight: u32,
}

/// An account whose judgement voters may delegate to. `accuracy` is the
/// weight, in parts per billion, applied to votes delegated to it.
#[derive(Clone, Debug)]
pub struct VerifiedExpert {
    pub account_id: AccountId,
    pub expertise: Vec<u8>,
    pub accuracy: u32,
    pub total_votes: u32,
    pub correct_votes: u32,
}

/// Stake reserved for governance participation, released once
/// `release_block` passes. The core records the schedule; the ledger holds
/// the funds.
#[derive(Clone, Copy, PartialEq, Eq, Structural, Debug)]
pub struct LockedStake {
    pub account: AccountId,
    pub amount: Balance,
    pub release_block: u64,
}

/// Ambient facts about the block being processed, supplied by the node's
/// monotonic block-hash/parent-hash/timestamp source.
#[derive(Clone, Copy, PartialEq, Eq, Structural, Debug)]
pub struct BlockContext {
    /// Hash of the parent of the block being built.
    pub parent_hash: HashValue,
    /// Hash of the block being built.
    pub block_hash: HashValue,
    /// Timestamp of the block being built.
    pub timestamp: u64,
}

/// Notices produced by the core, one per state change; the payload is
/// exactly the tuple of the corresponding contract. Reward notices double as
/// the deposit instructions handed to the ledger.
#[derive(Clone, PartialEq, Eq, Debug)]
pub enum Event {
    /// A reward was paid to a miner: (miner, amount, block number).
    RewardPaid(AccountId, Balance, u64),
    /// The block reward was halved: (block number, new reward).
    HalvingOccurred(u64, Balance),
    /// The supply cap was reached: (block number, total supply).
    MaxSupplyReached(u64, Balance),
    /// A proposal was created: (proposal id, proposer, kind).
    ProposalCreated(u32, AccountId, ProposalType),
    /// A vote was recorded: (proposal id, voter, in favor, stake).
    VoteRegistered(u32, AccountId, bool, Balance),
    /// A proposal passed its tally: (proposal id, votes for, votes against).
    ProposalApproved(u32, Balance, Balance),
    /// A proposal failed its tally: (proposal id, votes for, votes against).
    ProposalRejected(u32, Balance, Balance),
    /// An approved proposal was applied: (proposal id, kind, value).
    ProposalExecuted(u32, ProposalType, u128),
    /// An expert was registered: (account, expertise).
    ExpertVerified(AccountId, Vec<u8>),
    /// An orphan-block attestation reward was paid: (validator, amount,
    /// block hash).
    OrphanBlockRewardPaid(AccountId, Balance, HashValue),
    /// A penalty was recorded: (account, amount, reason).
    PenaltyApplied(AccountId, Balance, Vec<u8>),
    /// A block took the chain head: (block hash, total difficulty).
    BlockAddedToGhost(HashValue, Balance),
}

/// Typed rejections of the core. A failed call has no side effect.
#[derive(Clone, Copy, PartialEq, Eq, Structural, Debug)]
pub enum Error {
    MaxSupplyExceeded,
    PowVerificationFailed,
    DifficultyTooLow,
    ProposalNotFound,
    ProposalAlreadyFinalized,
    VotingPeriodEnded,
    InsufficientStakeForVoting,
    AlreadyVoted,
    NotVerifiedExpert,
    OrphanBlockNotFound,
    OrphanBlockAlreadyRewarded,
    PohVerificationFailed,
    FlyClientVerificationFailed,
    GhostVerificationFailed,
    StakeAlreadyLocked,
    LockPeriodNotFinished,
}

} // verus!
