//! Development chain parameters: the genesis configuration, the endowment
//! of the development accounts, and the chain-spec extensions.

use vstd::prelude::*;

use crate::types::{AccountId, Balance, ChainConfig};

verus! {

/// Balance endowed to each development account: one million whole coins
/// of 10^18 units.
pub const ENDOWMENT: Balance = 1_000_000_000_000_000_000_000_000;

/// Extra facts a chain spec carries for relay-chain deployments.
#[derive(Clone, Debug)]
pub struct Extensions {
    /// The relay chain the parachain attaches to.
    pub relay_chain: String,
    /// The id of the parachain.
    pub para_id: u32,
}

impl Extensions {
    /// Builds the extensions record.
    pub fn new(relay_chain: String, para_id: u32) -> (r: Extensions)
        ensures
            r.relay_chain@ == relay_chain@,
            r.para_id == para_id,
    {
        Extensions { relay_chain, para_id }
    }
}

/// The monetary and difficulty parameters the development chain starts
/// with: a reward of 60, a five-year halving schedule, a 29-million cap
/// and a genesis difficulty of one million.
pub fn development_params() -> (r: ChainConfig)
    ensures
        r.block_reward == 60,
        r.blocks_per_year == 2_628_000,
        r.halving_years == 5,
        r.max_supply == 29_000_000,
        r.initial_difficulty == 1_000_000,
{
    ChainConfig {
        block_reward: 60,
        blocks_per_year: 2_628_000,
        halving_years: 5,
        max_supply: 29_000_000,
        initial_difficulty: 1_000_000,
    }
}

/// Endows every listed account with the development balance.
pub fn genesis_balances(accounts: &Vec<AccountId>) -> (r: Vec<(AccountId, Balance)>)
    ensures
        r@.len() == accounts@.len(),
        forall|i: int| 0 <= i < accounts@.len() ==> r@[i] == (accounts@[i], ENDOWMENT),
{
    let mut r: Vec<(AccountId, Balance)> = Vec::new();
    let mut i: usize = 0;
    while i < accounts.len()
        invariant
            i <= accounts@.len(),
            r@.len() == i,
            forall|j: int| 0 <= j < i ==> r@[j] == (accounts@[j], ENDOWMENT),
        decreases accounts@.len() - i,
    {
        r.push((accounts[i], ENDOWMENT));
        i = i + 1;
    }
    r
}

} // verus!
