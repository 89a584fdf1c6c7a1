//! Consensus and monetary-policy core of a proof-of-work ledger.
//!
//! The crate verifies the state machine that accepts mined blocks, pays the
//! block reward under a halving schedule and a hard supply cap, keeps a
//! proof-of-history hash chain, chooses the heaviest chain head over a block
//! DAG, rewards orphan-block attestation, and runs stake-weighted governance.

mod arith;
mod bytes;
mod chain;
pub mod chain_spec;
mod digest;
mod flyclient;
mod fork_choice;
mod governance;
pub mod gateway;
mod poh;
pub mod simple_storage;
mod pow;
mod rewards;
mod state;
mod types;

pub use arith::saturating_mul_u128;
pub use chain::{run_to_block, spec_halving_blocked, spec_on_initialize};
pub use digest::sha_digest_of;
pub use flyclient::{merkle_root_of, spec_block_hashes, spec_merkle_level, spec_merkle_root, spec_node_digest};
pub use fork_choice::{lemma_payout_supply_bounded, spec_block_total_difficulty, spec_child_total_difficulty, spec_ghost_insert, spec_has_block, spec_has_orphan, spec_orphan_index, spec_orphan_share, spec_payout_events, spec_payout_supply, spec_truncated_payment};
pub use governance::{spec_approved, spec_difficulty_after, spec_due, spec_expert_index, spec_finalize_events, spec_finalize_events_of, spec_finalized_proposal, spec_halving_period_after, spec_has_expert, spec_has_lock, spec_has_proposal, spec_has_vote, spec_is_fresh_expert, spec_last_applied, spec_lock_added, spec_lock_index, spec_proposal_index, spec_reward_after, spec_weighted_stake};
pub use poh::spec_poh_step;
pub use pow::{evaluate_nonce, pow_target, retarget_difficulty, spec_meets_target, spec_pow_target, spec_pow_valid, spec_retarget_difficulty, spec_work_digest, verify_pow, lemma_retarget_positive};
pub use rewards::{lemma_halving_schedule, lemma_supply_cap, spec_halved_reward, spec_halving_due, spec_has_active_halving_proposal, spec_mint_amount, spec_mint_events};
pub use state::{
    ChainState, EXPECTED_WINDOW_TIME, FULL_WEIGHT, MERKLE_INTERVAL, MIN_PROPOSAL_STAKE,
    ORPHAN_QUORUM, ORPHAN_REWARD_PERCENT, RETARGET_WINDOW, TARGET_BLOCK_TIME,
};
pub use types::{
    AccountId, Balance, BlockContext, BlockInfo, ChainConfig, Error, Event, HashValue,
    LockedStake, OrphanBlock, Proposal, ProposalStatus, ProposalType, VerifiedExpert, Vote,
};
