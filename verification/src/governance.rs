//! Stake-weighted governance: proposal lifecycle, delegated voting, and
//! automatic finalization.
//!
//! A proposal is `Active` until its voting period passes; the per-block
//! hook then compares the tallies, rejects or approves it, and applies an
//! approved proposal's value to the parameter it targets. Votes are unique
//! per proposal and voter and immutable; a vote delegated to a registered
//! expert carries that expert's accuracy as its weight.

use vstd::prelude::*;

use crate::arith::{
    saturating_add_u128, saturating_mul_u128, spec_saturating_add_u128, spec_saturating_mul_u128,
};
use crate::bytes::copy_bytes;
use crate::state::{ChainState, FULL_WEIGHT, MIN_PROPOSAL_STAKE};
use crate::types::{
    AccountId, Balance, Error, Event, LockedStake, Proposal, ProposalStatus, ProposalType,
    VerifiedExpert, Vote,
};

verus! {

/// Whether a proposal with id `id` exists.
pub open spec fn spec_has_proposal(s: ChainState, id: u32) -> bool {
    exists|i: int| 0 <= i < s.proposals@.len() && (#[trigger] s.proposals@[i]).id == id
}

/// Index of the proposal with id `id`.
pub open spec fn spec_proposal_index(s: ChainState, id: u32) -> int {
    choose|i: int| 0 <= i < s.proposals@.len() && (#[trigger] s.proposals@[i]).id == id
}

/// Whether `voter` has voted on proposal `id`.
pub open spec fn spec_has_vote(s: ChainState, id: u32, voter: AccountId) -> bool {
    exists|i: int|
        0 <= i < s.votes@.len() && (#[trigger] s.votes@[i]).proposal_id == id
            && s.votes@[i].voter == voter
}

/// Whether `account` is a registered expert.
pub open spec fn spec_has_expert(s: ChainState, account: AccountId) -> bool {
    exists|i: int| 0 <= i < s.experts@.len() && (#[trigger] s.experts@[i]).account_id == account
}

/// Index of the expert record of `account`.
pub open spec fn spec_expert_index(s: ChainState, account: AccountId) -> int {
    choose|i: int| 0 <= i < s.experts@.len() && (#[trigger] s.experts@[i]).account_id == account
}

/// Whether `account` has a stake-lock record.
pub open spec fn spec_has_lock(s: ChainState, account: AccountId) -> bool {
    exists|i: int|
        0 <= i < s.locked_stakes@.len() && (#[trigger] s.locked_stakes@[i]).account == account
}

/// Index of the stake-lock record of `account`.
pub open spec fn spec_lock_index(s: ChainState, account: AccountId) -> int {
    choose|i: int|
        0 <= i < s.locked_stakes@.len() && (#[trigger] s.locked_stakes@[i]).account == account
}

/// The tally contribution of a vote: the stake scaled by the weight in
/// parts per billion, rounded down.
pub open spec fn spec_weighted_stake(stake: Balance, weight: u32) -> Balance {
    spec_saturating_mul_u128(stake, weight as u128) / FULL_WEIGHT as u128
}

/// A proposal is due for finalization when it is still active and its
/// voting period has passed.
pub open spec fn spec_due(p: Proposal, now: u64) -> bool {
    p.status is Active && p.voting_ends_at < now
}

/// A due proposal passes exactly when the tally in favor strictly exceeds
/// the tally against.
pub open spec fn spec_approved(p: Proposal) -> bool {
    p.votes_for > p.votes_against
}

/// The proposal record after finalization at block `now`: a due proposal
/// moves to `Executed` if approved and to `Rejected` otherwise; any other
/// proposal is untouched.
pub open spec fn spec_finalized_proposal(p: Proposal, now: u64) -> Proposal {
    if spec_due(p, now) {
        if spec_approved(p) {
            Proposal { status: ProposalStatus::Executed, ..p }
        } else {
            Proposal { status: ProposalStatus::Rejected, ..p }
        }
    } else {
        p
    }
}

/// The value of the last proposal of `kind` executed by this finalization
/// pass, scanning in storage order.
pub open spec fn spec_last_applied(props: Seq<Proposal>, now: u64, kind: ProposalType) -> Option<
    u128,
>
    decreases props.len(),
{
    if props.len() == 0 {
        None
    } else if spec_due(props.last(), now) && spec_approved(props.last()) && props.last().kind
        == kind {
        Some(props.last().proposed_value)
    } else {
        spec_last_applied(props.drop_last(), now, kind)
    }
}

/// The block reward after a finalization pass.
pub open spec fn spec_reward_after(props: Seq<Proposal>, now: u64, dflt: Balance) -> Balance {
    match spec_last_applied(props, now, ProposalType::BlockReward) {
        Some(v) => v,
        None => dflt,
    }
}

/// The halving period after a finalization pass, clamped to at least one
/// block and to the block-number range.
pub open spec fn spec_halving_period_after(props: Seq<Proposal>, now: u64, dflt: u64) -> u64 {
    match spec_last_applied(props, now, ProposalType::HalvingPeriod) {
        Some(v) => if v == 0 {
            1
        } else if v > u64::MAX {
            u64::MAX
        } else {
            v as u64
        },
        None => dflt,
    }
}

/// The difficulty after a finalization pass, clamped to stay positive.
pub open spec fn spec_difficulty_after(props: Seq<Proposal>, now: u64, dflt: Balance) -> Balance {
    match spec_last_applied(props, now, ProposalType::DifficultyAdjustment) {
        Some(v) => if v == 0 {
            1
        } else {
            v
        },
        None => dflt,
    }
}

/// Notices produced when one proposal is finalized.
pub open spec fn spec_finalize_events_of(p: Proposal, now: u64) -> Seq<Event> {
    if spec_due(p, now) {
        if spec_approved(p) {
            seq![
                Event::ProposalApproved(p.id, p.votes_for, p.votes_against),
                Event::ProposalExecuted(p.id, p.kind, p.proposed_value),
            ]
        } else {
            seq![Event::ProposalRejected(p.id, p.votes_for, p.votes_against)]
        }
    } else {
        Seq::empty()
    }
}

/// Notices produced by a finalization pass, in storage order.
pub open spec fn spec_finalize_events(props: Seq<Proposal>, now: u64) -> Seq<Event>
    decreases props.len(),
{
    if props.len() == 0 {
        Seq::empty()
    } else {
        spec_finalize_events(props.drop_last(), now) + spec_finalize_events_of(props.last(), now)
    }
}

/// The stake-lock records after reserving `amount` for `account` until
/// `release`: an existing record accumulates and keeps the later release
/// block, a missing one is created.
pub open spec fn spec_lock_added(
    pre: Seq<LockedStake>,
    post: Seq<LockedStake>,
    account: AccountId,
    amount: Balance,
    release: u64,
) -> bool {
    if exists|i: int| 0 <= i < pre.len() && (#[trigger] pre[i]).account == account {
        let i = choose|i: int| 0 <= i < pre.len() && (#[trigger] pre[i]).account == account;
        &&& post.len() == pre.len()
        &&& forall|j: int| 0 <= j < pre.len() && j != i ==> post[j] == pre[j]
        &&& post[i] == (LockedStake {
            account,
            amount: spec_saturating_add_u128(pre[i].amount, amount),
            release_block: if release > pre[i].release_block {
                release
            } else {
                pre[i].release_block
            },
        })
    } else {
        post == pre.push(LockedStake { account, amount, release_block: release })
    }
}

impl ChainState {
    /// Index of the proposal with id `id`, if any.
    fn find_proposal_index(&self, id: u32) -> (r: Option<usize>)
        ensures
            match r {
                Some(i) => 0 <= i < self.proposals@.len() && self.proposals@[i as int].id == id,
                None => forall|i: int|
                    0 <= i < self.proposals@.len() ==> (#[trigger] self.proposals@[i]).id != id,
            },
    {
        let mut i: usize = 0;
        while i < self.proposals.len()
            invariant
                i <= self.proposals@.len(),
                forall|j: int| 0 <= j < i ==> (#[trigger] self.proposals@[j]).id != id,
            decreases self.proposals@.len() - i,
        {
            if self.proposals[i].id == id {
                return Some(i);
            }
            i = i + 1;
        }
        None
    }

    /// Index of the expert record of `account`, if any.
    fn find_expert_index(&self, account: AccountId) -> (r: Option<usize>)
        ensures
            match r {
                Some(i) => 0 <= i < self.experts@.len() && self.experts@[i as int].account_id
                    == account,
                None => forall|i: int|
                    0 <= i < self.experts@.len() ==> (#[trigger] self.experts@[i]).account_id
                        != account,
            },
    {
        let mut i: usize = 0;
        while i < self.experts.len()
            invariant
                i <= self.experts@.len(),
                forall|j: int| 0 <= j < i ==> (#[trigger] self.experts@[j]).account_id != account,
            decreases self.experts@.len() - i,
        {
            if self.experts[i].account_id == account {
                return Some(i);
            }
            i = i + 1;
        }
        None
    }

    /// Whether `voter` already voted on proposal `id`.
    fn has_vote_for(&self, id: u32, voter: AccountId) -> (r: bool)
        ensures
            r == spec_has_vote(*self, id, voter),
    {
        let mut i: usize = 0;
        while i < self.votes.len()
            invariant
                i <= self.votes@.len(),
                forall|j: int|
                    0 <= j < i ==> !((#[trigger] self.votes@[j]).proposal_id == id
                        && self.votes@[j].voter == voter),
            decreases self.votes@.len() - i,
        {
            if self.votes[i].proposal_id == id && self.votes[i].voter == voter {
                return true;
            }
            i = i + 1;
        }
        false
    }

    /// Records a stake reservation for `account` until `release`.
    #[verifier::loop_isolation(false)]
    fn add_stake_lock(&mut self, account: AccountId, amount: Balance, release: u64)
        requires
            forall|i: int, j: int|
                0 <= i < j < old(self).locked_stakes@.len() ==> old(
                    self,
                ).locked_stakes@[i].account != old(self).locked_stakes@[j].account,
        ensures
            spec_lock_added(
                old(self).locked_stakes@,
                final(self).locked_stakes@,
                account,
                amount,
                release,
            ),
            *final(self) == (ChainState { locked_stakes: final(self).locked_stakes, ..*old(self) }),
            forall|i: int, j: int|
                0 <= i < j < final(self).locked_stakes@.len()
                    ==> final(self).locked_stakes@[i].account
                    != final(self).locked_stakes@[j].account,
    {
        let mut i: usize = 0;
        while i < self.locked_stakes.len()
            invariant
                *self == *old(self),
                i <= self.locked_stakes@.len(),
                forall|j: int|
                    0 <= j < i ==> (#[trigger] self.locked_stakes@[j]).account != account,
            decreases self.locked_stakes@.len() - i,
        {
            if self.locked_stakes[i].account == account {
                let prev = self.locked_stakes[i];
                let merged = LockedStake {
                    account,
                    amount: saturating_add_u128(prev.amount, amount),
                    release_block: if release > prev.release_block {
                        release
                    } else {
                        prev.release_block
                    },
                };
                let _ = self.locked_stakes.remove(i);
                self.locked_stakes.insert(i, merged);
                proof {
                    let k = choose|k: int|
                        0 <= k < old(self).locked_stakes@.len() && (#[trigger] old(
                            self,
                        ).locked_stakes@[k]).account == account;
                    assert(k == i as int);
                }
                return;
            }
            i = i + 1;
        }
        self.locked_stakes.push(LockedStake { account, amount, release_block: release });
    }

    /// Creates a governance proposal. The proposer must hold the minimum
    /// stake, which is reserved for the length of the voting period; the
    /// proposer's own full-weight affirmative vote is recorded at once, and
    /// the new proposal id is returned.
    pub fn create_proposal(
        &mut self,
        proposer: AccountId,
        kind: ProposalType,
        description: Vec<u8>,
        proposed_value: u128,
        voting_period: u64,
        free_balance: Balance,
    ) -> (r: Result<u32, Error>)
        requires
            old(self).wf(),
            old(self).next_proposal_id < u32::MAX,
        ensures
            final(self).wf(),
            free_balance < MIN_PROPOSAL_STAKE ==> r == Err::<u32, Error>(
                Error::InsufficientStakeForVoting,
            ) && *final(self) == *old(self),
            free_balance >= MIN_PROPOSAL_STAKE ==> {
                let id = old(self).next_proposal_id;
                let ends = if old(self).block_number + voting_period > u64::MAX {
                    u64::MAX
                } else {
                    (old(self).block_number + voting_period) as u64
                };
                &&& r == Ok::<u32, Error>(id)
                &&& final(self).proposals@ == old(self).proposals@.push(
                    Proposal {
                        id,
                        proposer,
                        kind,
                        description: final(self).proposals@.last().description,
                        proposed_value,
                        voting_ends_at: ends,
                        votes_for: MIN_PROPOSAL_STAKE,
                        votes_against: 0,
                        status: ProposalStatus::Active,
                    },
                )
                &&& final(self).proposals@.last().description@ == description@
                &&& final(self).votes@ == old(self).votes@.push(
                    Vote {
                        voter: proposer,
                        proposal_id: id,
                        in_favor: true,
                        stake: MIN_PROPOSAL_STAKE,
                        delegated_to: None,
                        weight: FULL_WEIGHT,
                    },
                )
                &&& final(self).next_proposal_id == id + 1
                &&& spec_lock_added(
                    old(self).locked_stakes@,
                    final(self).locked_stakes@,
                    proposer,
                    MIN_PROPOSAL_STAKE,
                    ends,
                )
                &&& final(self).events@ == old(self).events@.push(
                    Event::ProposalCreated(id, proposer, kind),
                )
                &&& *final(self) == (ChainState {
                    proposals: final(self).proposals,
                    votes: final(self).votes,
                    next_proposal_id: final(self).next_proposal_id,
                    locked_stakes: final(self).locked_stakes,
                    events: final(self).events,
                    ..*old(self)
                })
            },
    {
        if free_balance < MIN_PROPOSAL_STAKE {
            return Err(Error::InsufficientStakeForVoting);
        }
        let id = self.next_proposal_id;
        let ends = self.block_number.saturating_add(voting_period);
        self.proposals.push(
            Proposal {
                id,
                proposer,
                kind,
                description,
                proposed_value,
                voting_ends_at: ends,
                votes_for: MIN_PROPOSAL_STAKE,
                votes_against: 0,
                status: ProposalStatus::Active,
            },
        );
        self.votes.push(
            Vote {
                voter: proposer,
                proposal_id: id,
                in_favor: true,
                stake: MIN_PROPOSAL_STAKE,
                delegated_to: None,
                weight: FULL_WEIGHT,
            },
        );
        self.next_proposal_id = id + 1;
        self.add_stake_lock(proposer, MIN_PROPOSAL_STAKE, ends);
        self.events.push(Event::ProposalCreated(id, proposer, kind));
        Ok(id)
    }

    /// Registers or overwrites an expert with full initial accuracy. The
    /// caller is the administrative authority; recalibration of accuracy is
    /// applied offline through the same call.
    pub fn verify_expert(&mut self, expert: AccountId, expertise: Vec<u8>)
        requires
            old(self).wf(),
        ensures
            final(self).wf(),
            spec_has_expert(*final(self), expert),
            final(self).events@.len() == old(self).events@.len() + 1,
            final(self).events@.subrange(0, old(self).events@.len() as int) == old(self).events@,
            final(self).events@.last() matches Event::ExpertVerified(a, e) && a == expert && e@
                == expertise@,
            !spec_has_expert(*old(self), expert) ==> {
                &&& final(self).experts@.len() == old(self).experts@.len() + 1
                &&& final(self).experts@.subrange(0, old(self).experts@.len() as int) == old(
                    self,
                ).experts@
                &&& spec_is_fresh_expert(final(self).experts@.last(), expert, expertise@)
            },
            spec_has_expert(*old(self), expert) ==> {
                let i = spec_expert_index(*old(self), expert);
                &&& final(self).experts@.len() == old(self).experts@.len()
                &&& forall|j: int|
                    0 <= j < old(self).experts@.len() && j != i ==> final(self).experts@[j] == old(
                        self,
                    ).experts@[j]
                &&& spec_is_fresh_expert(final(self).experts@[i], expert, expertise@)
            },
            *final(self) == (ChainState {
                experts: final(self).experts,
                events: final(self).events,
                ..*old(self)
            }),
    {
        let note = copy_bytes(&expertise);
        let record = VerifiedExpert {
            account_id: expert,
            expertise,
            accuracy: FULL_WEIGHT,
            total_votes: 0,
            correct_votes: 0,
        };
        match self.find_expert_index(expert) {
            Some(i) => {
                proof {
                    let k = spec_expert_index(*old(self), expert);
                    assert(old(self).experts@[k].account_id == expert);
                    assert(k == i as int);
                }
                let _ = self.experts.remove(i);
                self.experts.insert(i, record);
                proof {
                    assert(self.experts@[i as int].account_id == expert);
                }
            },
            None => {
                self.experts.push(record);
                proof {
                    assert(self.experts@.subrange(0, old(self).experts@.len() as int)
                        =~= old(self).experts@);
                    assert(self.experts@[self.experts@.len() - 1].account_id == expert);
                }
            },
        }
        self.events.push(Event::ExpertVerified(expert, note));
        proof {
            assert(self.events@.subrange(0, old(self).events@.len() as int) =~= old(self).events@);
        }
    }

    /// Records a penalty notice for `account`. The stake confiscation
    /// itself is carried out by the ledger's slash capability outside the
    /// core; the notice always records the requested amount and reason.
    pub fn apply_penalty(&mut self, account: AccountId, amount: Balance, reason: Vec<u8>)
        requires
            old(self).wf(),
        ensures
            final(self).wf(),
            final(self).events@.len() == old(self).events@.len() + 1,
            final(self).events@.subrange(0, old(self).events@.len() as int) == old(self).events@,
            final(self).events@.last() matches Event::PenaltyApplied(a, m, re) && a == account && m
                == amount && re@ == reason@,
            *final(self) == (ChainState { events: final(self).events, ..*old(self) }),
    {
        self.events.push(Event::PenaltyApplied(account, amount, reason));
        proof {
            assert(self.events@.subrange(0, old(self).events@.len() as int) =~= old(self).events@);
        }
    }
}

impl ChainState {
    /// Casts a vote on an active proposal. The guards run in order:
    /// unknown id, finalized proposal, expired period, insufficient free
    /// balance, duplicate vote, unknown delegate. A vote delegated to an
    /// expert weighs the stake by that expert's accuracy, otherwise it
    /// counts in full; the weighted stake enters the chosen tally, the
    /// stake is reserved until the voting period ends, and the vote record
    /// is immutable thereafter.
    pub fn vote(
        &mut self,
        voter: AccountId,
        proposal_id: u32,
        in_favor: bool,
        stake: Balance,
        delegated_to: Option<AccountId>,
        free_balance: Balance,
    ) -> (r: Result<(), Error>)
        requires
            old(self).wf(),
        ensures
            final(self).wf(),
            !spec_has_proposal(*old(self), proposal_id) ==> r == Err::<(), Error>(
                Error::ProposalNotFound,
            ) && *final(self) == *old(self),
            spec_has_proposal(*old(self), proposal_id) ==> {
                let pi = spec_proposal_index(*old(self), proposal_id);
                let p = old(self).proposals@[pi];
                if !(p.status is Active) {
                    &&& r == Err::<(), Error>(Error::ProposalAlreadyFinalized)
                    &&& *final(self) == *old(self)
                } else if old(self).block_number > p.voting_ends_at {
                    &&& r == Err::<(), Error>(Error::VotingPeriodEnded)
                    &&& *final(self) == *old(self)
                } else if free_balance < stake {
                    &&& r == Err::<(), Error>(Error::InsufficientStakeForVoting)
                    &&& *final(self) == *old(self)
                } else if spec_has_vote(*old(self), proposal_id, voter) {
                    &&& r == Err::<(), Error>(Error::AlreadyVoted)
                    &&& *final(self) == *old(self)
                } else if delegated_to matches Some(d) && !spec_has_expert(*old(self), d) {
                    &&& r == Err::<(), Error>(Error::NotVerifiedExpert)
                    &&& *final(self) == *old(self)
                } else {
                    let weight = match delegated_to {
                        Some(d) => old(self).experts@[spec_expert_index(*old(self), d)].accuracy,
                        None => FULL_WEIGHT,
                    };
                    let contribution = spec_weighted_stake(stake, weight);
                    &&& r == Ok::<(), Error>(())
                    &&& final(self).votes@ == old(self).votes@.push(
                        Vote { voter, proposal_id, in_favor, stake, delegated_to, weight },
                    )
                    &&& final(self).proposals@.len() == old(self).proposals@.len()
                    &&& forall|j: int|
                        0 <= j < old(self).proposals@.len() && j != pi ==> final(self).proposals@[j] == old(self).proposals@[j]
                    &&& final(self).proposals@[pi] == (Proposal {
                        votes_for: if in_favor {
                            spec_saturating_add_u128(p.votes_for, contribution)
                        } else {
                            p.votes_for
                        },
                        votes_against: if in_favor {
                            p.votes_against
                        } else {
                            spec_saturating_add_u128(p.votes_against, contribution)
                        },
                        ..p
                    })
                    &&& spec_lock_added(
                        old(self).locked_stakes@,
                        final(self).locked_stakes@,
                        voter,
                        stake,
                        p.voting_ends_at,
                    )
                    &&& final(self).events@ == old(self).events@.push(
                        Event::VoteRegistered(proposal_id, voter, in_favor, stake),
                    )
                    &&& *final(self) == (ChainState {
                        proposals: final(self).proposals,
                        votes: final(self).votes,
                        locked_stakes: final(self).locked_stakes,
                        events: final(self).events,
                        ..*old(self)
                    })
                }
            },
    {
        let pi = match self.find_proposal_index(proposal_id) {
            None => {
                return Err(Error::ProposalNotFound);
            },
            Some(i) => i,
        };
        proof {
            let k = spec_proposal_index(*old(self), proposal_id);
            assert(old(self).proposals@[k].id == proposal_id);
            assert(k == pi as int);
        }
        let active = matches!(self.proposals[pi].status, ProposalStatus::Active);
        if !active {
            return Err(Error::ProposalAlreadyFinalized);
        }
        if self.block_number > self.proposals[pi].voting_ends_at {
            return Err(Error::VotingPeriodEnded);
        }
        if free_balance < stake {
            return Err(Error::InsufficientStakeForVoting);
        }
        if self.has_vote_for(proposal_id, voter) {
            return Err(Error::AlreadyVoted);
        }
        let weight: u32 = match delegated_to {
            Some(d) => {
                match self.find_expert_index(d) {
                    None => {
                        return Err(Error::NotVerifiedExpert);
                    },
                    Some(ei) => {
                        proof {
                            let k = spec_expert_index(*old(self), d);
                            assert(old(self).experts@[k].account_id == d);
                            assert(k == ei as int);
                        }
                        self.experts[ei].accuracy
                    },
                }
            },
            None => FULL_WEIGHT,
        };
        let contribution = saturating_mul_u128(stake, weight as u128) / (FULL_WEIGHT as u128);
        let mut p = self.proposals.remove(pi);
        let ends = p.voting_ends_at;
        if in_favor {
            p.votes_for = saturating_add_u128(p.votes_for, contribution);
        } else {
            p.votes_against = saturating_add_u128(p.votes_against, contribution);
        }
        self.proposals.insert(pi, p);
        proof {
            assert(forall|j: int|
                0 <= j < old(self).proposals@.len() && j != pi as int ==> self.proposals@[j]
                    == old(self).proposals@[j]);
        }
        self.votes.push(Vote { voter, proposal_id, in_favor, stake, delegated_to, weight });
        self.add_stake_lock(voter, stake, ends);
        self.events.push(Event::VoteRegistered(proposal_id, voter, in_favor, stake));
        Ok(())
    }

    /// Finalizes every proposal whose voting period has passed, in storage
    /// order: a passing tally moves the proposal to `Executed` and applies
    /// its value to the targeted parameter; a failing tally moves it to
    /// `Rejected`. Both outcomes are terminal. This is the only way the
    /// reward, halving period or difficulty change outside their own
    /// periodic rules.
    #[verifier::loop_isolation(false)]
    pub fn finalize_proposals(&mut self, now: u64)
        requires
            old(self).wf(),
        ensures
            final(self).wf(),
            final(self).proposals@.len() == old(self).proposals@.len(),
            forall|i: int|
                0 <= i < old(self).proposals@.len() ==> final(self).proposals@[i]
                    == spec_finalized_proposal(old(self).proposals@[i], now),
            final(self).block_reward == spec_reward_after(
                old(self).proposals@,
                now,
                old(self).block_reward,
            ),
            final(self).blocks_per_halving == spec_halving_period_after(
                old(self).proposals@,
                now,
                old(self).blocks_per_halving,
            ),
            final(self).difficulty == spec_difficulty_after(
                old(self).proposals@,
                now,
                old(self).difficulty,
            ),
            final(self).events@ == old(self).events@ + spec_finalize_events(
                old(self).proposals@,
                now,
            ),
            *final(self) == (ChainState {
                proposals: final(self).proposals,
                block_reward: final(self).block_reward,
                blocks_per_halving: final(self).blocks_per_halving,
                difficulty: final(self).difficulty,
                events: final(self).events,
                ..*old(self)
            }),
    {
        let n = self.proposals.len();
        proof {
            assert(old(self).proposals@.subrange(0, 0) =~= Seq::<Proposal>::empty());
        }
        let mut i: usize = 0;
        while i < n
            invariant
                i <= n,
                n == self.proposals@.len(),
                forall|j: int|
                    0 <= j < i ==> self.proposals@[j] == spec_finalized_proposal(
                        old(self).proposals@[j],
                        now,
                    ),
                forall|j: int| i <= j < n ==> self.proposals@[j] == old(self).proposals@[j],
                self.block_reward == spec_reward_after(
                    old(self).proposals@.subrange(0, i as int),
                    now,
                    old(self).block_reward,
                ),
                self.blocks_per_halving == spec_halving_period_after(
                    old(self).proposals@.subrange(0, i as int),
                    now,
                    old(self).blocks_per_halving,
                ),
                self.difficulty == spec_difficulty_after(
                    old(self).proposals@.subrange(0, i as int),
                    now,
                    old(self).difficulty,
                ),
                self.events@ == old(self).events@ + spec_finalize_events(
                    old(self).proposals@.subrange(0, i as int),
                    now,
                ),
                *self == (ChainState {
                    proposals: self.proposals,
                    block_reward: self.block_reward,
                    blocks_per_halving: self.blocks_per_halving,
                    difficulty: self.difficulty,
                    events: self.events,
                    ..*old(self)
                }),
            decreases n - i,
        {
            let ghost pre_props = self.proposals@;
            let due = matches!(self.proposals[i].status, ProposalStatus::Active)
                && self.proposals[i].voting_ends_at < now;
            if due {
                let mut p = self.proposals.remove(i);
                let approved = p.votes_for > p.votes_against;
                if approved {
                    p.status = ProposalStatus::Executed;
                    self.events.push(Event::ProposalApproved(p.id, p.votes_for, p.votes_against));
                    self.events.push(
                        Event::ProposalExecuted(p.id, p.kind, p.proposed_value),
                    );
                    match p.kind {
                        ProposalType::BlockReward => {
                            self.block_reward = p.proposed_value;
                        },
                        ProposalType::HalvingPeriod => {
                            self.blocks_per_halving = if p.proposed_value == 0 {
                                1
                            } else if p.proposed_value > u64::MAX as u128 {
                                u64::MAX
                            } else {
                                p.proposed_value as u64
                            };
                        },
                        ProposalType::DifficultyAdjustment => {
                            self.difficulty = if p.proposed_value == 0 {
                                1
                            } else {
                                p.proposed_value
                            };
                        },
                        ProposalType::ProtocolUpgrade => {},
                    }
                } else {
                    p.status = ProposalStatus::Rejected;
                    self.events.push(Event::ProposalRejected(p.id, p.votes_for, p.votes_against));
                }
                self.proposals.insert(i, p);
                proof {
                    assert(self.proposals@ =~= pre_props.update(
                        i as int,
                        self.proposals@[i as int],
                    ));
                }
            }
            i = i + 1;
            proof {
                let prefix = old(self).proposals@.subrange(0, i as int);
                assert(prefix.drop_last() =~= old(self).proposals@.subrange(0, i as int - 1));
                assert(prefix.last() == old(self).proposals@[i as int - 1]);
                assert(self.events@ =~= old(self).events@ + spec_finalize_events(prefix, now));
            }
        }
        proof {
            assert(old(self).proposals@.subrange(0, n as int) =~= old(self).proposals@);
        }
    }
}

/// A just-written expert record: full accuracy and no graded votes yet.
pub open spec fn spec_is_fresh_expert(e: VerifiedExpert, account: AccountId, note: Seq<u8>) -> bool {
    &&& e.account_id == account
    &&& e.expertise@ == note
    &&& e.accuracy == FULL_WEIGHT
    &&& e.total_votes == 0
    &&& e.correct_votes == 0
}

} // verus!
