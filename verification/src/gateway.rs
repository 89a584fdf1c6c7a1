//! The smart-contract gateway: near-zero fees with anti-spam limits.
//!
//! The gateway decides whether a contract deployment or call is admitted
//! in the current block, accounts it against the per-block transaction
//! limit, checks the micro-fee, and derives the new contract's address
//! from the code and the submission context. Executing the bytecode is the
//! sandbox capability's job, outside the core; a failed admission has no
//! side effect.

use vstd::prelude::*;

use crate::bytes::{push_u64_be, u64_be_bytes};
use crate::digest::{sha_digest, sha_digest_of};
use crate::types::{AccountId, Balance, HashValue};

verus! {

/// Configuration of the gateway.
#[derive(Clone, Copy, PartialEq, Eq, Structural, Debug)]
pub struct GatewayConfig {
    /// Smallest fee a contract call must carry.
    pub min_contract_fee: Balance,
    /// Most transactions admitted per block.
    pub max_transactions_per_block: u32,
}

/// Typed rejections of the gateway.
#[derive(Clone, Copy, PartialEq, Eq, Structural, Debug)]
pub enum Error {
    /// The fee is below the minimum.
    FeeTooLow,
    /// The per-block transaction limit is reached.
    TransactionLimitExceeded,
}

/// Notices produced by the gateway.
#[derive(Clone, Copy, PartialEq, Eq, Structural, Debug)]
pub enum Event {
    /// A contract was deployed: (creator, contract address, code hash).
    ContractDeployed(AccountId, HashValue, HashValue),
    /// A contract was called: (caller, contract address, value).
    ContractCalled(AccountId, AccountId, Balance),
    /// A transaction was rejected by the limit: (caller, contract address).
    TransactionRejected(AccountId, AccountId),
}

/// Address and code hash of a freshly admitted deployment.
#[derive(Clone, Copy, PartialEq, Eq, Structural, Debug)]
pub struct DeployedContract {
    pub address: HashValue,
    pub code_hash: HashValue,
}

/// Hash of a contract's code.
pub open spec fn spec_code_hash(code: Seq<u8>) -> HashValue {
    sha_digest_of(code)
}

/// Address of a new contract: digest of the code hash and the submission
/// context (block number, extrinsic index, transaction count, creator).
pub open spec fn spec_contract_address(
    code_hash: HashValue,
    block_number: u64,
    extrinsic_index: u32,
    tx_count: u32,
    who: AccountId,
) -> HashValue {
    sha_digest_of(
        u64_be_bytes(code_hash) + u64_be_bytes(block_number) + u64_be_bytes(
            extrinsic_index as u64,
        ) + u64_be_bytes(tx_count as u64) + u64_be_bytes(who),
    )
}

/// Per-block gateway state.
pub struct ContractGateway {
    /// Configuration; never mutated.
    pub config: GatewayConfig,
    /// Transactions admitted in the current block.
    pub transaction_count: u32,
    /// Notices produced so far, in order.
    pub events: Vec<Event>,
}

impl ContractGateway {
    /// A gateway with an empty ledger of admitted transactions.
    pub fn new(config: GatewayConfig) -> (r: ContractGateway)
        ensures
            r.config == config,
            r.transaction_count == 0,
            r.events@.len() == 0,
    {
        ContractGateway { config, transaction_count: 0, events: Vec::new() }
    }

    /// Transactions admitted in the current block.
    pub fn transaction_count(&self) -> (r: u32)
        ensures
            r == self.transaction_count,
    {
        self.transaction_count
    }

    /// Resets the per-block transaction count; runs at the start of each
    /// block.
    pub fn on_initialize(&mut self)
        ensures
            *final(self) == (ContractGateway { transaction_count: 0, ..*old(self) }),
    {
        self.transaction_count = 0;
    }

    /// Admits a contract deployment: checks the per-block limit, accounts
    /// the transaction, and derives the contract's address from the code
    /// hash and the submission context. The sandbox performs the actual
    /// instantiation with the returned address.
    pub fn deploy_contract(
        &mut self,
        who: AccountId,
        code: &Vec<u8>,
        block_number: u64,
        extrinsic_index: u32,
    ) -> (r: Result<DeployedContract, Error>)
        ensures
            old(self).transaction_count >= old(self).config.max_transactions_per_block ==> r
                == Err::<DeployedContract, Error>(Error::TransactionLimitExceeded) && *final(self)
                == *old(self),
            old(self).transaction_count < old(self).config.max_transactions_per_block ==> {
                let code_hash = spec_code_hash(code@);
                let address = spec_contract_address(
                    code_hash,
                    block_number,
                    extrinsic_index,
                    old(self).transaction_count,
                    who,
                );
                &&& r == Ok::<DeployedContract, Error>(DeployedContract { address, code_hash })
                &&& final(self).transaction_count == old(self).transaction_count + 1
                &&& final(self).events@ == old(self).events@.push(
                    Event::ContractDeployed(who, address, code_hash),
                )
                &&& *final(self) == (ContractGateway {
                    transaction_count: final(self).transaction_count,
                    events: final(self).events,
                    ..*old(self)
                })
            },
    {
        if self.transaction_count >= self.config.max_transactions_per_block {
            return Err(Error::TransactionLimitExceeded);
        }
        let tx_count = self.transaction_count;
        self.transaction_count = tx_count + 1;
        let code_hash = sha_digest(code);
        let mut preimage: Vec<u8> = Vec::new();
        push_u64_be(&mut preimage, code_hash);
        push_u64_be(&mut preimage, block_number);
        push_u64_be(&mut preimage, extrinsic_index as u64);
        push_u64_be(&mut preimage, tx_count as u64);
        push_u64_be(&mut preimage, who);
        proof {
            assert(preimage@ =~= u64_be_bytes(code_hash) + u64_be_bytes(block_number)
                + u64_be_bytes(extrinsic_index as u64) + u64_be_bytes(tx_count as u64)
                + u64_be_bytes(who));
        }
        let address = sha_digest(&preimage);
        self.events.push(Event::ContractDeployed(who, address, code_hash));
        Ok(DeployedContract { address, code_hash })
    }

    /// Admits a call to a deployed contract: checks the per-block limit
    /// and the micro-fee, then accounts the transaction. The sandbox
    /// performs the actual call; a rejected call leaves no trace.
    pub fn call_contract(&mut self, who: AccountId, dest: AccountId, value: Balance) -> (r: Result<
        (),
        Error,
    >)
        ensures
            old(self).transaction_count >= old(self).config.max_transactions_per_block ==> r
                == Err::<(), Error>(Error::TransactionLimitExceeded) && *final(self) == *old(self),
            old(self).transaction_count < old(self).config.max_transactions_per_block && value
                < old(self).config.min_contract_fee ==> r == Err::<(), Error>(Error::FeeTooLow)
                && *final(self) == *old(self),
            old(self).transaction_count < old(self).config.max_transactions_per_block && value
                >= old(self).config.min_contract_fee ==> {
                &&& r == Ok::<(), Error>(())
                &&& final(self).transaction_count == old(self).transaction_count + 1
                &&& final(self).events@ == old(self).events@.push(
                    Event::ContractCalled(who, dest, value),
                )
                &&& *final(self) == (ContractGateway {
                    transaction_count: final(self).transaction_count,
                    events: final(self).events,
                    ..*old(self)
                })
            },
    {
        if self.transaction_count >= self.config.max_transactions_per_block {
            return Err(Error::TransactionLimitExceeded);
        }
        if value < self.config.min_contract_fee {
            return Err(Error::FeeTooLow);
        }
        self.transaction_count = self.transaction_count + 1;
        self.events.push(Event::ContractCalled(who, dest, value));
        Ok(())
    }
}

} // verus!
