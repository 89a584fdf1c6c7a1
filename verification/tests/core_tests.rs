use civicchain::chain_spec::{development_params, genesis_balances, Extensions, ENDOWMENT};
use civicchain::{
    retarget_difficulty, run_to_block, BlockContext, ChainConfig, ChainState, Error, Event,
    LockedStake, ProposalStatus, ProposalType, FULL_WEIGHT, MIN_PROPOSAL_STAKE,
};

const ALICE: u64 = 1;
const BOB: u64 = 2;

fn dev_state() -> ChainState {
    ChainState::new(development_params())
}

/// Searches nonces in order until one meets the target at `difficulty`.
fn find_solution(parent: u64, poh: u64, difficulty: u128) -> (Vec<u8>, u64) {
    let mut n: u64 = 0;
    loop {
        let nonce = n.to_be_bytes().to_vec();
        let (digest, ok) = civicchain::evaluate_nonce(parent, &nonce, poh, difficulty);
        if ok {
            return (nonce, digest);
        }
        n += 1;
    }
}

#[test]
fn mining_reward_scenario() {
    let mut state = dev_state();
    let mut balance: u128 = 0;
    let poh = state.last_poh_hash;
    let (nonce, solution) = find_solution(0, poh, 1_000_000);
    let ctx = BlockContext { parent_hash: 0, block_hash: 11, timestamp: 1 };
    assert_eq!(state.submit_pow_solution(ALICE, nonce, solution, 1_000_000, poh, ctx), Ok(()));

    let mut reward_notices: u32 = 0;
    for event in &state.events {
        if let Event::RewardPaid(who, amount, _) = event {
            assert_eq!(*who, ALICE);
            balance += amount;
            reward_notices += 1;
        }
    }
    assert_eq!(balance, 60);
    assert_eq!(state.total_supply(), 60);
    assert_eq!(reward_notices, 1);

    let before_events = state.events.len();
    let ctx = BlockContext { parent_hash: 0, block_hash: 12, timestamp: 2 };
    assert_eq!(
        state.submit_pow_solution(ALICE, vec![9], 0, 500_000, poh, ctx),
        Err(Error::DifficultyTooLow)
    );
    assert_eq!(state.total_supply(), 60);
    assert_eq!(state.events.len(), before_events);
}

#[test]
fn wrong_poh_and_wrong_solution_are_rejected() {
    let mut state = dev_state();
    let poh = state.last_poh_hash;
    let ctx = BlockContext { parent_hash: 0, block_hash: 11, timestamp: 1 };
    assert_eq!(
        state.submit_pow_solution(ALICE, vec![1], 0, 1_000_000, poh.wrapping_add(1), ctx),
        Err(Error::PohVerificationFailed)
    );
    assert_eq!(
        state.submit_pow_solution(ALICE, vec![1], 0, 1_000_000, poh, ctx),
        Err(Error::PowVerificationFailed)
    );
    assert_eq!(state.total_supply(), 0);
}

#[test]
fn proposal_finalization_scenario() {
    let mut state = dev_state();
    let id = state
        .create_proposal(
            ALICE,
            ProposalType::BlockReward,
            b"raise the reward".to_vec(),
            90,
            100,
            MIN_PROPOSAL_STAKE,
        )
        .unwrap();
    assert_eq!(id, 1);
    assert_eq!(state.proposals[0].voting_ends_at, 100);

    state.proposals[0].votes_for = 5000;
    state.proposals[0].votes_against = 3000;

    state.on_initialize(101, 0);
    assert_eq!(state.proposals[0].status, ProposalStatus::Executed);
    assert_eq!(state.current_block_reward(), 90);
    assert!(state.events.contains(&Event::ProposalApproved(1, 5000, 3000)));
    assert!(state.events.contains(&Event::ProposalExecuted(1, ProposalType::BlockReward, 90)));
}

#[test]
fn rejected_proposal_does_not_change_parameters() {
    let mut state = dev_state();
    state
        .create_proposal(
            ALICE,
            ProposalType::DifficultyAdjustment,
            b"drop difficulty".to_vec(),
            7,
            10,
            MIN_PROPOSAL_STAKE,
        )
        .unwrap();
    state.proposals[0].votes_for = 100;
    state.proposals[0].votes_against = 100;

    state.on_initialize(11, 0);
    assert_eq!(state.proposals[0].status, ProposalStatus::Rejected);
    assert_eq!(state.current_difficulty(), 1_000_000);
    assert!(state.events.contains(&Event::ProposalRejected(1, 100, 100)));
}

#[test]
fn duplicate_vote_is_rejected() {
    let mut state = dev_state();
    state
        .create_proposal(ALICE, ProposalType::ProtocolUpgrade, vec![], 2, 50, MIN_PROPOSAL_STAKE)
        .unwrap();
    assert_eq!(state.vote(BOB, 1, false, 3000, None, 10_000), Ok(()));
    assert_eq!(state.proposals[0].votes_against, 3000);

    let votes_before = state.votes.len();
    assert_eq!(state.vote(BOB, 1, true, 500, None, 10_000), Err(Error::AlreadyVoted));
    assert_eq!(state.proposals[0].votes_against, 3000);
    assert_eq!(state.proposals[0].votes_for, MIN_PROPOSAL_STAKE);
    assert_eq!(state.votes.len(), votes_before);
}

#[test]
fn vote_guards_reject_in_order() {
    let mut state = dev_state();
    assert_eq!(state.vote(BOB, 99, true, 10, None, 100), Err(Error::ProposalNotFound));

    state
        .create_proposal(ALICE, ProposalType::BlockReward, vec![], 90, 10, MIN_PROPOSAL_STAKE)
        .unwrap();
    assert_eq!(state.vote(BOB, 1, true, 1000, None, 10), Err(Error::InsufficientStakeForVoting));
    assert_eq!(state.vote(BOB, 1, true, 10, Some(42), 100), Err(Error::NotVerifiedExpert));

    state.block_number = 11;
    assert_eq!(state.vote(BOB, 1, true, 10, None, 100), Err(Error::VotingPeriodEnded));

    state.on_initialize(12, 0);
    assert_eq!(state.vote(BOB, 1, true, 10, None, 100), Err(Error::ProposalAlreadyFinalized));
}

#[test]
fn delegated_vote_carries_expert_accuracy() {
    let mut state = dev_state();
    state.verify_expert(5, b"monetary policy".to_vec());
    assert_eq!(state.experts[0].accuracy, FULL_WEIGHT);
    assert!(state.events.contains(&Event::ExpertVerified(5, b"monetary policy".to_vec())));

    state
        .create_proposal(ALICE, ProposalType::BlockReward, vec![], 90, 50, MIN_PROPOSAL_STAKE)
        .unwrap();

    state.experts[0].accuracy = FULL_WEIGHT / 2;
    assert_eq!(state.vote(BOB, 1, true, 1000, Some(5), 10_000), Ok(()));
    assert_eq!(state.proposals[0].votes_for, MIN_PROPOSAL_STAKE + 500);
}

#[test]
fn proposal_requires_minimum_stake() {
    let mut state = dev_state();
    assert_eq!(
        state.create_proposal(
            ALICE,
            ProposalType::BlockReward,
            vec![],
            90,
            100,
            MIN_PROPOSAL_STAKE - 1,
        ),
        Err(Error::InsufficientStakeForVoting)
    );
    assert_eq!(state.proposals.len(), 0);
}

#[test]
fn stakes_are_locked_for_the_voting_period() {
    let mut state = dev_state();
    state
        .create_proposal(ALICE, ProposalType::BlockReward, vec![], 90, 100, MIN_PROPOSAL_STAKE)
        .unwrap();
    assert_eq!(
        state.locked_stakes[0],
        LockedStake { account: ALICE, amount: MIN_PROPOSAL_STAKE, release_block: 100 }
    );
    assert_eq!(state.vote(BOB, 1, false, 3000, None, 10_000), Ok(()));
    assert_eq!(
        state.locked_stakes[1],
        LockedStake { account: BOB, amount: 3000, release_block: 100 }
    );
}

#[test]
fn active_halving_proposal_blocks_halving() {
    let config = ChainConfig {
        block_reward: 60,
        blocks_per_year: 2,
        halving_years: 1,
        max_supply: 29_000_000,
        initial_difficulty: 1_000_000,
    };
    let mut state = ChainState::new(config);
    state
        .create_proposal(ALICE, ProposalType::HalvingPeriod, vec![], 1000, 500, MIN_PROPOSAL_STAKE)
        .unwrap();
    run_to_block(&mut state, 5, 12);
    assert_eq!(state.current_block_reward(), 60);
    assert_eq!(state.last_halving_block(), 0);
}

#[test]
fn orphan_reward_threshold() {
    let mut state = dev_state();
    state.update_ghost_tree(10, 0, 1000, ALICE, 1, 0, 0);
    assert_eq!(state.best_block, 10);
    state.update_ghost_tree(20, 0, 500, BOB, 1, 0, 0);
    assert_eq!(state.best_block, 10);
    assert_eq!(state.orphans.len(), 1);

    assert_eq!(state.validate_orphan_block(11, 20), Ok(()));
    assert_eq!(state.validate_orphan_block(11, 20), Ok(()));
    assert_eq!(state.orphans[0].validators.len(), 1);
    assert_eq!(state.validate_orphan_block(12, 20), Ok(()));
    assert!(!state.orphans[0].is_rewarded);

    assert_eq!(state.validate_orphan_block(13, 20), Ok(()));
    assert!(state.orphans[0].is_rewarded);
    let mut paid: u32 = 0;
    for event in &state.events {
        if let Event::OrphanBlockRewardPaid(_, amount, hash) = event {
            assert_eq!(*amount, 4);
            assert_eq!(*hash, 20);
            paid += 1;
        }
    }
    assert_eq!(paid, 3);
    assert_eq!(state.total_supply(), 12);

    assert_eq!(state.validate_orphan_block(14, 20), Err(Error::OrphanBlockAlreadyRewarded));
    assert_eq!(state.validate_orphan_block(11, 99), Err(Error::OrphanBlockNotFound));
}

#[test]
fn ghost_tree_tracks_heaviest_chain() {
    let mut state = dev_state();
    state.update_ghost_tree(10, 0, 1000, ALICE, 1, 0, 0);
    state.update_ghost_tree(20, 10, 600, BOB, 2, 0, 0);
    assert_eq!(state.best_block, 20);
    assert_eq!(state.best_total_difficulty, 1600);

    state.update_ghost_tree(30, 0, 1500, BOB, 2, 0, 0);
    assert_eq!(state.best_block, 20);
    assert_eq!(state.orphans.len(), 1);

    state.update_ghost_tree(40, 30, 200, ALICE, 3, 0, 0);
    assert_eq!(state.best_block, 40);
    assert_eq!(state.best_total_difficulty, 1700);
}

#[test]
fn poh_chain_advances_deterministically() {
    let mut state = dev_state();
    assert_eq!(state.poh_counter, 0);
    state.on_initialize(1, 12);
    let first = state.last_poh_hash;
    assert_ne!(first, 0);
    assert!(state.verify_poh(first));
    assert_eq!(state.poh_counter, 1);

    state.on_initialize(2, 24);
    let second = state.last_poh_hash;
    assert_ne!(second, first);
    assert!(!state.verify_poh(first));
    assert_eq!(state.poh_counter, 2);
}

#[test]
fn merkle_commitment_over_headers() {
    let mut state = dev_state();
    state.update_merkle_tree();
    assert_eq!(state.merkle_root, 0);

    state.update_ghost_tree(42, 0, 1000, ALICE, 1, 0, 0);
    state.update_merkle_tree();
    assert_eq!(state.merkle_root, 42);

    state.update_ghost_tree(43, 42, 1000, ALICE, 2, 0, 0);
    state.update_merkle_tree();
    assert_ne!(state.merkle_root, 42);
}

#[test]
fn retarget_is_clamped_and_positive() {
    assert_eq!(retarget_difficulty(1_000_000, 40_320_000), 250_000);
    assert_eq!(retarget_difficulty(1000, 1), 4000);
    assert_eq!(retarget_difficulty(1, 0), 4);
    assert!(retarget_difficulty(1, u64::MAX) >= 1);
}

#[test]
fn penalty_is_recorded() {
    let mut state = dev_state();
    state.apply_penalty(7, 500, b"double signing".to_vec());
    assert_eq!(
        state.events.last(),
        Some(&Event::PenaltyApplied(7, 500, b"double signing".to_vec()))
    );
}

#[test]
fn solution_evaluation_is_deterministic() {
    let nonce = vec![1, 2, 3];
    let (a, _) = civicchain::evaluate_nonce(5, &nonce, 9, 1);
    let (b, _) = civicchain::evaluate_nonce(5, &nonce, 9, 1);
    assert_eq!(a, b);
    let (c, _) = civicchain::evaluate_nonce(5, &vec![1, 2, 4], 9, 1);
    assert_ne!(a, c);
}

#[test]
fn development_genesis_is_endowed() {
    let accounts = vec![ALICE, BOB];
    let balances = genesis_balances(&accounts);
    assert_eq!(balances, vec![(ALICE, ENDOWMENT), (BOB, ENDOWMENT)]);

    let ext = Extensions::new("rococo-local".to_string(), 2000);
    assert_eq!(ext.relay_chain, "rococo-local");
    assert_eq!(ext.para_id, 2000);
}

#[test]
fn difficulty_proposal_is_clamped_to_stay_positive() {
    let mut state = dev_state();
    state
        .create_proposal(ALICE, ProposalType::DifficultyAdjustment, vec![], 0, 10, MIN_PROPOSAL_STAKE)
        .unwrap();
    state.on_initialize(11, 0);
    assert_eq!(state.proposals[0].status, ProposalStatus::Executed);
    assert_eq!(state.current_difficulty(), 1);

    state
        .create_proposal(ALICE, ProposalType::DifficultyAdjustment, vec![], 2_000_000, 10, MIN_PROPOSAL_STAKE)
        .unwrap();
    state.on_initialize(23, 0);
    assert_eq!(state.current_difficulty(), 2_000_000);
}

#[test]
fn halving_period_proposal_changes_the_schedule() {
    let config = ChainConfig {
        block_reward: 60,
        blocks_per_year: 1000,
        halving_years: 10,
        max_supply: 29_000_000,
        initial_difficulty: 1_000_000,
    };
    let mut state = ChainState::new(config);
    assert_eq!(state.blocks_per_halving, 10_000);
    state
        .create_proposal(ALICE, ProposalType::HalvingPeriod, vec![], 20, 2, MIN_PROPOSAL_STAKE)
        .unwrap();
    run_to_block(&mut state, 3, 12);
    assert_eq!(state.blocks_per_halving, 20);
    assert_eq!(state.current_block_reward(), 60);

    run_to_block(&mut state, 20, 12);
    assert_eq!(state.current_block_reward(), 30);
    assert_eq!(state.last_halving_block(), 20);
}

#[test]
fn resubmitted_block_hash_changes_no_tree_state() {
    let mut state = dev_state();
    state.update_ghost_tree(10, 0, 1000, ALICE, 1, 0, 0);
    let blocks_before = state.blocks.len();
    let best_before = state.best_block;
    state.update_ghost_tree(10, 0, 5000, BOB, 2, 0, 0);
    assert_eq!(state.blocks.len(), blocks_before);
    assert_eq!(state.best_block, best_before);
    assert_eq!(state.best_total_difficulty, 1000);
}
