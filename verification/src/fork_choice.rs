//! GHOST fork choice and the orphan registry.
//!
//! Every observed block is retained, canonical or not; a block's weight is
//! the cumulative difficulty down its ancestry, and the head is the block
//! of globally maximal weight. Blocks that lose the head race enter the
//! orphan registry, where attestations by distinct validators accumulate
//! until a quorum pays a shared reward, exactly once.

use vstd::prelude::*;

use crate::arith::{
    saturating_add_u128, saturating_mul_u128, spec_saturating_add_u128, spec_saturating_mul_u128,
};
use crate::state::{ChainState, ORPHAN_QUORUM, ORPHAN_REWARD_PERCENT};
use crate::types::{AccountId, Balance, BlockInfo, Error, Event, HashValue, OrphanBlock};

verus! {

/// Whether `blocks` holds a block with hash `h`.
pub open spec fn spec_has_block(blocks: Seq<BlockInfo>, h: HashValue) -> bool {
    exists|i: int| 0 <= i < blocks.len() && (#[trigger] blocks[i]).hash == h
}

/// Total difficulty recorded for the block with hash `h`.
pub open spec fn spec_block_total_difficulty(blocks: Seq<BlockInfo>, h: HashValue) -> Balance {
    let i = choose|i: int| 0 <= i < blocks.len() && (#[trigger] blocks[i]).hash == h;
    blocks[i].total_difficulty
}

/// Weight of a new child of `parent` carrying `difficulty`: the parent's
/// weight plus its own, or its own alone at the root.
pub open spec fn spec_child_total_difficulty(
    blocks: Seq<BlockInfo>,
    parent: HashValue,
    difficulty: Balance,
) -> Balance {
    if spec_has_block(blocks, parent) {
        spec_saturating_add_u128(spec_block_total_difficulty(blocks, parent), difficulty)
    } else {
        difficulty
    }
}

/// Whether `orphans` holds a record with hash `h`.
pub open spec fn spec_has_orphan(orphans: Seq<OrphanBlock>, h: HashValue) -> bool {
    exists|i: int| 0 <= i < orphans.len() && (#[trigger] orphans[i]).info.hash == h
}

/// Index of the orphan record with hash `h`.
pub open spec fn spec_orphan_index(orphans: Seq<OrphanBlock>, h: HashValue) -> int {
    choose|i: int| 0 <= i < orphans.len() && (#[trigger] orphans[i]).info.hash == h
}

/// Per-validator share of an orphan attestation reward: a fifth of the
/// current block reward, split evenly, rounded down.
pub open spec fn spec_orphan_share(reward: Balance, n: nat) -> Balance {
    (spec_saturating_mul_u128(reward, ORPHAN_REWARD_PERCENT) / 100) / n as u128
}

/// One payment under the supply cap: the share, truncated to the headroom.
pub open spec fn spec_truncated_payment(supply: Balance, max: Balance, share: Balance) -> Balance {
    if supply >= max {
        0
    } else if share <= max - supply {
        share
    } else {
        (max - supply) as Balance
    }
}

/// Total supply after `n` truncated payments of `share`.
pub open spec fn spec_payout_supply(start: Balance, max: Balance, share: Balance, n: nat) -> Balance
    decreases n,
{
    if n == 0 {
        start
    } else {
        let s = spec_payout_supply(start, max, share, (n - 1) as nat);
        (s + spec_truncated_payment(s, max, share)) as Balance
    }
}

/// Notices of the payments to `vs`, one per nonzero payment, in order.
pub open spec fn spec_payout_events(
    start: Balance,
    max: Balance,
    share: Balance,
    vs: Seq<AccountId>,
    h: HashValue,
) -> Seq<Event>
    decreases vs.len(),
{
    if vs.len() == 0 {
        Seq::empty()
    } else {
        let done = spec_payout_events(start, max, share, vs.drop_last(), h);
        let s = spec_payout_supply(start, max, share, (vs.len() - 1) as nat);
        let amt = spec_truncated_payment(s, max, share);
        if amt > 0 {
            done.push(Event::OrphanBlockRewardPaid(vs.last(), amt, h))
        } else {
            done
        }
    }
}

/// Truncated payments never push the supply past the cap.
pub proof fn lemma_payout_supply_bounded(start: Balance, max: Balance, share: Balance, n: nat)
    requires
        start <= max,
    ensures
        spec_payout_supply(start, max, share, n) <= max,
    decreases n,
{
    if n > 0 {
        lemma_payout_supply_bounded(start, max, share, (n - 1) as nat);
    }
}

/// How one observed block transforms the fork-choice state, starting from
/// the tree `(pre_blocks, pre_best, pre_best_td, pre_orphans)` and the
/// notice log `events_before`: a known hash changes nothing; a new block is
/// recorded with its cumulative weight, and either takes the head or
/// enters the orphan registry.
pub open spec fn spec_ghost_insert(
    pre_blocks: Seq<BlockInfo>,
    pre_best: HashValue,
    pre_best_td: Balance,
    pre_orphans: Seq<OrphanBlock>,
    events_before: Seq<Event>,
    post: ChainState,
    block_hash: HashValue,
    parent_hash: HashValue,
    difficulty: Balance,
    author: AccountId,
    number: u64,
    timestamp: u64,
    poh_hash: HashValue,
) -> bool {
    if spec_has_block(pre_blocks, block_hash) {
        &&& post.blocks@ == pre_blocks
        &&& post.best_block == pre_best
        &&& post.best_total_difficulty == pre_best_td
        &&& post.orphans@ == pre_orphans
        &&& post.events@ == events_before
    } else {
        let td = spec_child_total_difficulty(pre_blocks, parent_hash, difficulty);
        let b = BlockInfo {
            number,
            hash: block_hash,
            parent_hash,
            timestamp,
            author,
            difficulty,
            total_difficulty: td,
            poh_hash,
        };
        &&& post.blocks@ == pre_blocks.push(b)
        &&& if td > pre_best_td {
            &&& post.best_block == block_hash
            &&& post.best_total_difficulty == td
            &&& post.orphans@ == pre_orphans
            &&& post.events@ == events_before.push(Event::BlockAddedToGhost(block_hash, td))
        } else {
            &&& post.best_block == pre_best
            &&& post.best_total_difficulty == pre_best_td
            &&& post.events@ == events_before
            &&& if spec_has_orphan(pre_orphans, block_hash) {
                post.orphans@ == pre_orphans
            } else {
                &&& post.orphans@.len() == pre_orphans.len() + 1
                &&& post.orphans@.subrange(0, pre_orphans.len() as int) == pre_orphans
                &&& post.orphans@.last().info == b
                &&& post.orphans@.last().validators@.len() == 0
                &&& post.orphans@.last().is_rewarded == false
            }
        }
    }
}

impl ChainState {
    /// Index of the block with hash `h`, if any.
    fn find_block_index(&self, h: HashValue) -> (r: Option<usize>)
        ensures
            match r {
                Some(i) => 0 <= i < self.blocks@.len() && self.blocks@[i as int].hash == h,
                None => forall|i: int|
                    0 <= i < self.blocks@.len() ==> (#[trigger] self.blocks@[i]).hash != h,
            },
    {
        let mut i: usize = 0;
        while i < self.blocks.len()
            invariant
                i <= self.blocks@.len(),
                forall|j: int| 0 <= j < i ==> (#[trigger] self.blocks@[j]).hash != h,
            decreases self.blocks@.len() - i,
        {
            if self.blocks[i].hash == h {
                return Some(i);
            }
            i = i + 1;
        }
        None
    }

    /// Index of the orphan record with hash `h`, if any.
    fn find_orphan_index(&self, h: HashValue) -> (r: Option<usize>)
        ensures
            match r {
                Some(i) => 0 <= i < self.orphans@.len() && self.orphans@[i as int].info.hash == h,
                None => forall|i: int|
                    0 <= i < self.orphans@.len() ==> (#[trigger] self.orphans@[i]).info.hash != h,
            },
    {
        let mut i: usize = 0;
        while i < self.orphans.len()
            invariant
                i <= self.orphans@.len(),
                forall|j: int| 0 <= j < i ==> (#[trigger] self.orphans@[j]).info.hash != h,
            decreases self.orphans@.len() - i,
        {
            if self.orphans[i].info.hash == h {
                return Some(i);
            }
            i = i + 1;
        }
        None
    }

    /// Records one observed block in the fork-choice tree. A new block's
    /// weight is its parent's total difficulty plus its own; the block
    /// takes the chain head exactly when its weight beats the best known,
    /// and otherwise enters the orphan registry with no attestations.
    pub fn update_ghost_tree(
        &mut self,
        block_hash: HashValue,
        parent_hash: HashValue,
        difficulty: Balance,
        author: AccountId,
        number: u64,
        timestamp: u64,
        poh_hash: HashValue,
    )
        requires
            old(self).wf(),
            difficulty >= 1,
        ensures
            final(self).wf(),
            spec_ghost_insert(
                old(self).blocks@,
                old(self).best_block,
                old(self).best_total_difficulty,
                old(self).orphans@,
                old(self).events@,
                *final(self),
                block_hash,
                parent_hash,
                difficulty,
                author,
                number,
                timestamp,
                poh_hash,
            ),
            *final(self) == (ChainState {
                blocks: final(self).blocks,
                best_block: final(self).best_block,
                best_total_difficulty: final(self).best_total_difficulty,
                orphans: final(self).orphans,
                events: final(self).events,
                ..*old(self)
            }),
    {
        if self.find_block_index(block_hash).is_some() {
            return;
        }
        let td = match self.find_block_index(parent_hash) {
            Some(i) => {
                proof {
                    let j = choose|j: int|
                        0 <= j < self.blocks@.len() && (#[trigger] self.blocks@[j]).hash
                            == parent_hash;
                    assert(self.blocks@[j].hash == parent_hash);
                    assert(j == i as int);
                }
                saturating_add_u128(self.blocks[i].total_difficulty, difficulty)
            },
            None => difficulty,
        };
        let b = BlockInfo {
            number,
            hash: block_hash,
            parent_hash,
            timestamp,
            author,
            difficulty,
            total_difficulty: td,
            poh_hash,
        };
        self.blocks.push(b);
        if td > self.best_total_difficulty {
            self.best_block = block_hash;
            self.best_total_difficulty = td;
            self.events.push(Event::BlockAddedToGhost(block_hash, td));
            proof {
                let w = self.blocks@.len() - 1;
                assert(self.blocks@[w].hash == self.best_block && self.blocks@[w].total_difficulty
                    == self.best_total_difficulty);
            }
        } else {
            proof {
                assert(td >= 1);
                assert(old(self).blocks@.len() > 0);
                let w = choose|i: int|
                    0 <= i < old(self).blocks@.len() && (#[trigger] old(self).blocks@[i]).hash
                        == old(self).best_block && old(self).blocks@[i].total_difficulty == old(
                        self,
                    ).best_total_difficulty;
                assert(old(self).blocks@.len() > 0 ==> self.blocks@[w].hash == self.best_block
                    && self.blocks@[w].total_difficulty == self.best_total_difficulty);
            }
            if self.find_orphan_index(block_hash).is_none() {
                self.orphans.push(OrphanBlock { info: b, validators: Vec::new(), is_rewarded: false });
                proof {
                    assert(self.orphans@.subrange(0, old(self).orphans@.len() as int)
                        =~= old(self).orphans@);
                }
            }
        }
    }
}

/// Whether `v` holds `x`.
fn contains_account(v: &Vec<AccountId>, x: AccountId) -> (r: bool)
    ensures
        r == v@.contains(x),
{
    let mut i: usize = 0;
    while i < v.len()
        invariant
            i <= v@.len(),
            forall|j: int| 0 <= j < i ==> v@[j] != x,
        decreases v@.len() - i,
    {
        if v[i] == x {
            return true;
        }
        i = i + 1;
    }
    false
}

/// A fresh vector with the same accounts.
fn copy_accounts(v: &Vec<AccountId>) -> (r: Vec<AccountId>)
    ensures
        r@ == v@,
{
    let mut r: Vec<AccountId> = Vec::new();
    let mut i: usize = 0;
    while i < v.len()
        invariant
            i <= v@.len(),
            r@ == v@.subrange(0, i as int),
        decreases v@.len() - i,
    {
        r.push(v[i]);
        i = i + 1;
        proof {
            assert(r@ =~= v@.subrange(0, i as int));
        }
    }
    proof {
        assert(r@ =~= v@);
    }
    r
}

impl ChainState {
    /// Records one attestation to an orphan block. Fails when the block is
    /// unknown or already rewarded; adding the same validator twice earns
    /// no extra credit. Once the quorum of distinct validators is reached,
    /// each recorded validator is paid an even share of a fifth of the
    /// current block reward, truncated under the supply cap, and the record
    /// is permanently marked rewarded.
    pub fn validate_orphan_block(&mut self, validator: AccountId, block_hash: HashValue) -> (r:
        Result<(), Error>)
        requires
            old(self).wf(),
        ensures
            final(self).wf(),
            !spec_has_orphan(old(self).orphans@, block_hash) ==> r == Err::<(), Error>(
                Error::OrphanBlockNotFound,
            ) && *final(self) == *old(self),
            spec_has_orphan(old(self).orphans@, block_hash) ==> {
                let oi = spec_orphan_index(old(self).orphans@, block_hash);
                let o = old(self).orphans@[oi];
                if o.is_rewarded {
                    &&& r == Err::<(), Error>(Error::OrphanBlockAlreadyRewarded)
                    &&& *final(self) == *old(self)
                } else {
                    let vs = if o.validators@.contains(validator) {
                        o.validators@
                    } else {
                        o.validators@.push(validator)
                    };
                    let pays = vs.len() >= ORPHAN_QUORUM;
                    let share = spec_orphan_share(old(self).block_reward, vs.len());
                    &&& r == Ok::<(), Error>(())
                    &&& final(self).orphans@.len() == old(self).orphans@.len()
                    &&& forall|j: int|
                        0 <= j < old(self).orphans@.len() && j != oi ==> final(self).orphans@[j]
                            == old(self).orphans@[j]
                    &&& final(self).orphans@[oi].info == o.info
                    &&& final(self).orphans@[oi].validators@ == vs
                    &&& final(self).orphans@[oi].is_rewarded == pays
                    &&& *final(self) == (ChainState {
                        orphans: final(self).orphans,
                        total_supply: final(self).total_supply,
                        events: final(self).events,
                        ..*old(self)
                    })
                    &&& if pays {
                        &&& final(self).total_supply == spec_payout_supply(
                            old(self).total_supply,
                            old(self).config.max_supply,
                            share,
                            vs.len(),
                        )
                        &&& final(self).events@ == old(self).events@ + spec_payout_events(
                            old(self).total_supply,
                            old(self).config.max_supply,
                            share,
                            vs,
                            block_hash,
                        )
                    } else {
                        &&& final(self).total_supply == old(self).total_supply
                        &&& final(self).events@ == old(self).events@
                    }
                }
            },
    {
        let oi = match self.find_orphan_index(block_hash) {
            None => {
                return Err(Error::OrphanBlockNotFound);
            },
            Some(i) => i,
        };
        proof {
            let j = spec_orphan_index(old(self).orphans@, block_hash);
            assert(old(self).orphans@[j].info.hash == block_hash);
            assert(j == oi as int);
        }
        if self.orphans[oi].is_rewarded {
            return Err(Error::OrphanBlockAlreadyRewarded);
        }
        let mut o = self.orphans.remove(oi);
        if !contains_account(&o.validators, validator) {
            o.validators.push(validator);
        }
        let n = o.validators.len();
        let pays = n >= ORPHAN_QUORUM;
        if pays {
            o.is_rewarded = true;
        }
        let vs = copy_accounts(&o.validators);
        self.orphans.insert(oi, o);
        proof {
            assert(forall|j: int|
                0 <= j < old(self).orphans@.len() && j != oi as int ==> self.orphans@[j] == old(
                    self,
                ).orphans@[j]);
        }
        if pays {
            let pool = saturating_mul_u128(self.block_reward, ORPHAN_REWARD_PERCENT) / 100;
            let share = pool / (n as u128);
            let ghost pre_loop = *self;
            let ghost start_supply = self.total_supply;
            let ghost start_events = self.events@;
            let ghost max = self.config.max_supply;
            let mut j: usize = 0;
            while j < vs.len()
                invariant
                    j <= vs@.len(),
                    max == self.config.max_supply,
                    self.total_supply == spec_payout_supply(start_supply, max, share, j as nat),
                    self.total_supply <= max,
                    self.events@ == start_events + spec_payout_events(
                        start_supply,
                        max,
                        share,
                        vs@.subrange(0, j as int),
                        block_hash,
                    ),
                    *self == (ChainState {
                        total_supply: self.total_supply,
                        events: self.events,
                        ..pre_loop
                    }),
                decreases vs@.len() - j,
            {
                let supply = self.total_supply;
                let amt = if supply >= self.config.max_supply {
                    0
                } else if share <= self.config.max_supply - supply {
                    share
                } else {
                    self.config.max_supply - supply
                };
                if amt > 0 {
                    self.total_supply = supply + amt;
                    self.events.push(Event::OrphanBlockRewardPaid(vs[j], amt, block_hash));
                }
                j = j + 1;
                proof {
                    assert(vs@.subrange(0, j as int).drop_last() =~= vs@.subrange(
                        0,
                        j as int - 1,
                    ));
                }
            }
            proof {
                assert(vs@.subrange(0, vs@.len() as int) =~= vs@);
            }
        }
        Ok(())
    }
}

} // verus!
