use civicchain::chain_spec::development_params;
use civicchain::{
    run_to_block, BlockContext, ChainConfig, ChainState, Error, Event,
};

const MINER: u64 = 1;

/// Searches nonces in order until one meets the target at `difficulty`.
fn mine(parent: u64, poh: u64, difficulty: u128) -> (Vec<u8>, u64) {
    let mut n: u64 = 0;
    loop {
        let nonce = n.to_be_bytes().to_vec();
        let (digest, ok) = civicchain::evaluate_nonce(parent, &nonce, poh, difficulty);
        if ok {
            return (nonce, digest);
        }
        n += 1;
    }
}

#[test]
fn initial_state_is_correct() {
    let state = ChainState::new(development_params());
    assert_eq!(state.current_block_reward(), 60);
    assert_eq!(state.total_supply(), 0);
    assert_eq!(state.current_difficulty(), 1_000_000);
    assert_eq!(state.last_halving_block(), 0);
}

#[test]
fn halving_works() {
    let config = ChainConfig {
        block_reward: 60,
        blocks_per_year: 20,
        halving_years: 5,
        max_supply: 29_000_000,
        initial_difficulty: 1_000_000,
    };
    let blocks_per_halving = config.blocks_per_year * config.halving_years;
    let mut state = ChainState::new(config);

    run_to_block(&mut state, blocks_per_halving, 12);
    assert_eq!(state.current_block_reward(), 30);
    assert_eq!(state.last_halving_block(), blocks_per_halving);

    run_to_block(&mut state, blocks_per_halving * 2, 12);
    assert_eq!(state.current_block_reward(), 15);
}

#[test]
fn max_supply_is_respected() {
    let config = development_params();
    let mut state = ChainState::new(config);
    let almost_max = config.max_supply - 30;
    state.total_supply = almost_max;

    let parent = 0;
    let poh = state.last_poh_hash;
    let (nonce, solution) = mine(parent, poh, 1_000_000);
    let ctx = BlockContext { parent_hash: parent, block_hash: 101, timestamp: 1 };
    assert_eq!(
        state.submit_pow_solution(MINER, nonce, solution, 1_000_000, poh, ctx),
        Ok(())
    );
    assert_eq!(state.total_supply(), config.max_supply);

    let mut n: u64 = 1_000_000_000;
    let (nonce, solution) = loop {
        let nonce = n.to_be_bytes().to_vec();
        let (digest, ok) = civicchain::evaluate_nonce(parent, &nonce, poh, 1_000_000);
        if ok {
            break (nonce, digest);
        }
        n += 1;
    };
    let ctx = BlockContext { parent_hash: parent, block_hash: 102, timestamp: 2 };
    assert_eq!(
        state.submit_pow_solution(MINER, nonce, solution, 1_000_000, poh, ctx),
        Ok(())
    );
    assert_eq!(state.total_supply(), config.max_supply);
}

#[test]
fn difficulty_adjustment_works() {
    let mut state = ChainState::new(development_params());
    for b in 1..=2016u64 {
        let ts = if b == 2016 { 384_000 } else { b * 190 };
        state.on_initialize(b, ts);
    }
    assert_eq!(state.current_difficulty(), 1_000_000 * 105 / 100);
}

#[test]
fn reward_payment_works() {
    let mut state = ChainState::new(development_params());
    let mut balance: u128 = 10;
    assert_eq!(balance, 10);

    let parent = 0;
    let poh = state.last_poh_hash;
    let (nonce, solution) = mine(parent, poh, 1_000_000);
    let ctx = BlockContext { parent_hash: parent, block_hash: 7, timestamp: 1 };
    assert_eq!(
        state.submit_pow_solution(MINER, nonce, solution, 1_000_000, poh, ctx),
        Ok(())
    );

    for event in &state.events {
        if let Event::RewardPaid(who, amount, _) = event {
            if *who == MINER {
                balance += amount;
            }
        }
    }
    assert_eq!(balance, 10 + 60);
    assert_eq!(state.total_supply(), 60);
}

#[test]
fn invalid_pow_solution_is_rejected() {
    let mut state = ChainState::new(development_params());
    let ctx = BlockContext { parent_hash: 0, block_hash: 7, timestamp: 1 };
    assert_eq!(
        state.submit_pow_solution(MINER, vec![1, 2, 3, 4], 0, 100, state.last_poh_hash, ctx),
        Err(Error::DifficultyTooLow)
    );
}
