//! A small storage contract: one shared value, per-account values, an
//! owner-only emergency pause, and per-account time locks.
//!
//! The contract reads its environment — caller, caller balance, block
//! number — as plain arguments; the host passes whatever its execution
//! environment reports there.

use vstd::prelude::*;

use crate::types::{AccountId, Balance};

verus! {

/// Largest value the contract accepts.
pub const MAX_STORED_VALUE: u32 = 1_000_000;

/// Typed rejections of the contract.
#[derive(Clone, Copy, PartialEq, Eq, Structural, Debug)]
pub enum Error {
    /// The value exceeds the limit.
    ValueTooLarge,
    /// The caller is not the owner.
    NotOwner,
    /// The contract is paused, or the caller is time-locked.
    ContractPaused,
    /// The caller's balance is too small.
    InsufficientBalance,
}

/// The stored value changed.
#[derive(Clone, Copy, PartialEq, Eq, Structural, Debug)]
pub struct ValueChanged {
    pub by: AccountId,
    pub old_value: u32,
    pub new_value: u32,
}

/// The contract was paused.
#[derive(Clone, Copy, PartialEq, Eq, Structural, Debug)]
pub struct ContractPaused {
    pub by: AccountId,
}

/// The contract was unpaused.
#[derive(Clone, Copy, PartialEq, Eq, Structural, Debug)]
pub struct ContractUnpaused {
    pub by: AccountId,
}

/// A time lock was set for an account.
#[derive(Clone, Copy, PartialEq, Eq, Structural, Debug)]
pub struct TimeLockSet {
    pub account: AccountId,
    pub unlock_at: u64,
}

/// Notices produced by the contract.
#[derive(Clone, Copy, PartialEq, Eq, Structural, Debug)]
pub enum ContractEvent {
    Changed(ValueChanged),
    Paused(ContractPaused),
    Unpaused(ContractUnpaused),
    Locked(TimeLockSet),
}

/// Whether the association list holds key `k`.
pub open spec fn spec_assoc_has<V>(m: Seq<(AccountId, V)>, k: AccountId) -> bool {
    exists|i: int| 0 <= i < m.len() && (#[trigger] m[i]).0 == k
}

/// The value bound to key `k`.
pub open spec fn spec_assoc_get<V>(m: Seq<(AccountId, V)>, k: AccountId) -> V {
    m[choose|i: int| 0 <= i < m.len() && (#[trigger] m[i]).0 == k].1
}

/// The association list after binding `k` to `v`: an existing entry is
/// replaced, a missing one is appended.
pub open spec fn spec_assoc_set<V>(
    pre: Seq<(AccountId, V)>,
    post: Seq<(AccountId, V)>,
    k: AccountId,
    v: V,
) -> bool {
    if exists|i: int| 0 <= i < pre.len() && (#[trigger] pre[i]).0 == k {
        let i = choose|i: int| 0 <= i < pre.len() && (#[trigger] pre[i]).0 == k;
        &&& post.len() == pre.len()
        &&& forall|j: int| 0 <= j < pre.len() && j != i ==> post[j] == pre[j]
        &&& post[i] == (k, v)
    } else {
        post == pre.push((k, v))
    }
}

/// The storage contract's state.
pub struct SimpleStorage {
    /// The shared stored value.
    pub value: u32,
    /// The account that instantiated the contract.
    pub owner: AccountId,
    /// Whether the emergency pause is on.
    pub paused: bool,
    /// The last value each account stored.
    pub values_by_account: Vec<(AccountId, u32)>,
    /// Block until which each account is locked out.
    pub time_locks: Vec<(AccountId, u64)>,
    /// Notices produced so far, in order.
    pub events: Vec<ContractEvent>,
}

impl SimpleStorage {
    /// Both association lists have pairwise distinct keys.
    pub open spec fn wf(self) -> bool {
        &&& forall|i: int, j: int|
            0 <= i < j < self.values_by_account@.len() ==> self.values_by_account@[i].0
                != self.values_by_account@[j].0
        &&& forall|i: int, j: int|
            0 <= i < j < self.time_locks@.len() ==> self.time_locks@[i].0
                != self.time_locks@[j].0
    }

    /// A contract owned by `caller`, holding zero.
    pub fn new(caller: AccountId) -> (r: SimpleStorage)
        ensures
            r.wf(),
            r.value == 0,
            r.owner == caller,
            !r.paused,
            r.values_by_account@.len() == 0,
            r.time_locks@.len() == 0,
            r.events@.len() == 0,
    {
        SimpleStorage {
            value: 0,
            owner: caller,
            paused: false,
            values_by_account: Vec::new(),
            time_locks: Vec::new(),
            events: Vec::new(),
        }
    }

    /// A contract owned by `caller`, holding `init_value`.
    pub fn with_value(caller: AccountId, init_value: u32) -> (r: SimpleStorage)
        ensures
            r.wf(),
            r.value == init_value,
            r.owner == caller,
            !r.paused,
            r.values_by_account@.len() == 0,
            r.time_locks@.len() == 0,
            r.events@.len() == 0,
    {
        SimpleStorage {
            value: init_value,
            owner: caller,
            paused: false,
            values_by_account: Vec::new(),
            time_locks: Vec::new(),
            events: Vec::new(),
        }
    }

    /// The shared stored value.
    pub fn get(&self) -> (r: u32)
        ensures
            r == self.value,
    {
        self.value
    }

    /// The block until which `account` is locked out, if a lock exists.
    #[verifier::loop_isolation(false)]
    fn locked_until(&self, account: AccountId) -> (r: Option<u64>)
        requires
            self.wf(),
        ensures
            match r {
                Some(u) => spec_assoc_has(self.time_locks@, account) && u == spec_assoc_get(
                    self.time_locks@,
                    account,
                ),
                None => !spec_assoc_has(self.time_locks@, account),
            },
    {
        let mut i: usize = 0;
        while i < self.time_locks.len()
            invariant
                i <= self.time_locks@.len(),
                forall|j: int| 0 <= j < i ==> (#[trigger] self.time_locks@[j]).0 != account,
            decreases self.time_locks@.len() - i,
        {
            if self.time_locks[i].0 == account {
                proof {
                    let k = choose|k: int|
                        0 <= k < self.time_locks@.len() && (#[trigger] self.time_locks@[k]).0
                            == account;
                    assert(k == i as int);
                }
                return Some(self.time_locks[i].1);
            }
            i = i + 1;
        }
        None
    }

    /// Stores a new value. Rejected while paused, above the limit, with a
    /// caller balance below one unit, or while the caller's time lock has
    /// not expired; otherwise the shared value and the caller's own entry
    /// are updated and the change is recorded.
    #[verifier::loop_isolation(false)]
    pub fn set(
        &mut self,
        caller: AccountId,
        caller_balance: Balance,
        block_number: u64,
        new_value: u32,
    ) -> (r: Result<(), Error>)
        requires
            old(self).wf(),
        ensures
            final(self).wf(),
            old(self).paused ==> r == Err::<(), Error>(Error::ContractPaused) && *final(self)
                == *old(self),
            !old(self).paused && new_value > MAX_STORED_VALUE ==> r == Err::<(), Error>(
                Error::ValueTooLarge,
            ) && *final(self) == *old(self),
            !old(self).paused && new_value <= MAX_STORED_VALUE && caller_balance < 1 ==> r
                == Err::<(), Error>(Error::InsufficientBalance) && *final(self) == *old(self),
            !old(self).paused && new_value <= MAX_STORED_VALUE && caller_balance >= 1
                && spec_assoc_has(old(self).time_locks@, caller) && block_number < spec_assoc_get(
                old(self).time_locks@,
                caller,
            ) ==> r == Err::<(), Error>(Error::ContractPaused) && *final(self) == *old(self),
            !old(self).paused && new_value <= MAX_STORED_VALUE && caller_balance >= 1 && !(
            spec_assoc_has(old(self).time_locks@, caller) && block_number < spec_assoc_get(
                old(self).time_locks@,
                caller,
            )) ==> {
                &&& r == Ok::<(), Error>(())
                &&& final(self).value == new_value
                &&& spec_assoc_set(
                    old(self).values_by_account@,
                    final(self).values_by_account@,
                    caller,
                    new_value,
                )
                &&& final(self).events@ == old(self).events@.push(
                    ContractEvent::Changed(
                        ValueChanged { by: caller, old_value: old(self).value, new_value },
                    ),
                )
                &&& *final(self) == (SimpleStorage {
                    value: new_value,
                    values_by_account: final(self).values_by_account,
                    events: final(self).events,
                    ..*old(self)
                })
            },
    {
        if self.paused {
            return Err(Error::ContractPaused);
        }
        if new_value > MAX_STORED_VALUE {
            return Err(Error::ValueTooLarge);
        }
        if caller_balance < 1 {
            return Err(Error::InsufficientBalance);
        }
        match self.locked_until(caller) {
            Some(unlock_at) => {
                if block_number < unlock_at {
                    return Err(Error::ContractPaused);
                }
            },
            None => {},
        }
        let old_value = self.value;
        self.value = new_value;
        let mut k: usize = 0;
        while k < self.values_by_account.len()
            invariant
                old(self).wf(),
                *self == (SimpleStorage { value: new_value, ..*old(self) }),
                k <= self.values_by_account@.len(),
                forall|j: int|
                    0 <= j < k ==> (#[trigger] self.values_by_account@[j]).0 != caller,
            decreases self.values_by_account@.len() - k,
        {
            if self.values_by_account[k].0 == caller {
                let _ = self.values_by_account.remove(k);
                self.values_by_account.insert(k, (caller, new_value));
                proof {
                    let w = choose|w: int|
                        0 <= w < old(self).values_by_account@.len() && (#[trigger] old(
                            self,
                        ).values_by_account@[w]).0 == caller;
                    assert(w == k as int);
                }
                self.events.push(
                    ContractEvent::Changed(ValueChanged { by: caller, old_value, new_value }),
                );
                return Ok(());
            }
            k = k + 1;
        }
        self.values_by_account.push((caller, new_value));
        self.events.push(ContractEvent::Changed(ValueChanged { by: caller, old_value, new_value }));
        Ok(())
    }

    /// The last value `account` stored, or zero.
    #[verifier::loop_isolation(false)]
    pub fn get_for_account(&self, account: AccountId) -> (r: u32)
        requires
            self.wf(),
        ensures
            r == if spec_assoc_has(self.values_by_account@, account) {
                spec_assoc_get(self.values_by_account@, account)
            } else {
                0u32
            },
    {
        let mut i: usize = 0;
        while i < self.values_by_account.len()
            invariant
                self.wf(),
                i <= self.values_by_account@.len(),
                forall|j: int|
                    0 <= j < i ==> (#[trigger] self.values_by_account@[j]).0 != account,
            decreases self.values_by_account@.len() - i,
        {
            if self.values_by_account[i].0 == account {
                proof {
                    let k = choose|k: int|
                        0 <= k < self.values_by_account@.len()
                            && (#[trigger] self.values_by_account@[k]).0 == account;
                    assert(k == i as int);
                }
                return self.values_by_account[i].1;
            }
            i = i + 1;
        }
        0
    }

    /// Pauses the contract; only the owner may.
    pub fn pause(&mut self, caller: AccountId) -> (r: Result<(), Error>)
        requires
            old(self).wf(),
        ensures
            final(self).wf(),
            caller != old(self).owner ==> r == Err::<(), Error>(Error::NotOwner) && *final(self)
                == *old(self),
            caller == old(self).owner ==> {
                &&& r == Ok::<(), Error>(())
                &&& final(self).events@ == old(self).events@.push(
                    ContractEvent::Paused(ContractPaused { by: caller }),
                )
                &&& *final(self) == (SimpleStorage {
                    paused: true,
                    events: final(self).events,
                    ..*old(self)
                })
            },
    {
        if caller != self.owner {
            return Err(Error::NotOwner);
        }
        self.paused = true;
        self.events.push(ContractEvent::Paused(ContractPaused { by: caller }));
        Ok(())
    }

    /// Unpauses the contract; only the owner may.
    pub fn unpause(&mut self, caller: AccountId) -> (r: Result<(), Error>)
        requires
            old(self).wf(),
        ensures
            final(self).wf(),
            caller != old(self).owner ==> r == Err::<(), Error>(Error::NotOwner) && *final(self)
                == *old(self),
            caller == old(self).owner ==> {
                &&& r == Ok::<(), Error>(())
                &&& final(self).events@ == old(self).events@.push(
                    ContractEvent::Unpaused(ContractUnpaused { by: caller }),
                )
                &&& *final(self) == (SimpleStorage {
                    paused: false,
                    events: final(self).events,
                    ..*old(self)
                })
            },
    {
        if caller != self.owner {
            return Err(Error::NotOwner);
        }
        self.paused = false;
        self.events.push(ContractEvent::Unpaused(ContractUnpaused { by: caller }));
        Ok(())
    }

    /// Locks `account` out of `set` until `blocks` more blocks have
    /// passed; only the owner may.
    #[verifier::loop_isolation(false)]
    pub fn set_timelock(
        &mut self,
        caller: AccountId,
        block_number: u64,
        account: AccountId,
        blocks: u64,
    ) -> (r: Result<(), Error>)
        requires
            old(self).wf(),
            block_number + blocks <= u64::MAX,
        ensures
            final(self).wf(),
            caller != old(self).owner ==> r == Err::<(), Error>(Error::NotOwner) && *final(self)
                == *old(self),
            caller == old(self).owner ==> {
                &&& r == Ok::<(), Error>(())
                &&& spec_assoc_set(
                    old(self).time_locks@,
                    final(self).time_locks@,
                    account,
                    (block_number + blocks) as u64,
                )
                &&& final(self).events@ == old(self).events@.push(
                    ContractEvent::Locked(
                        TimeLockSet { account, unlock_at: (block_number + blocks) as u64 },
                    ),
                )
                &&& *final(self) == (SimpleStorage {
                    time_locks: final(self).time_locks,
                    events: final(self).events,
                    ..*old(self)
                })
            },
    {
        if caller != self.owner {
            return Err(Error::NotOwner);
        }
        let unlock_at = block_number + blocks;
        let mut i: usize = 0;
        while i < self.time_locks.len()
            invariant
                old(self).wf(),
                *self == *old(self),
                i <= self.time_locks@.len(),
                forall|j: int| 0 <= j < i ==> (#[trigger] self.time_locks@[j]).0 != account,
            decreases self.time_locks@.len() - i,
        {
            if self.time_locks[i].0 == account {
                let _ = self.time_locks.remove(i);
                self.time_locks.insert(i, (account, unlock_at));
                proof {
                    let w = choose|w: int|
                        0 <= w < old(self).time_locks@.len() && (#[trigger] old(
                            self,
                        ).time_locks@[w]).0 == account;
                    assert(w == i as int);
                }
                self.events.push(
                    ContractEvent::Locked(TimeLockSet { account, unlock_at }),
                );
                return Ok(());
            }
            i = i + 1;
        }
        self.time_locks.push((account, unlock_at));
        self.events.push(ContractEvent::Locked(TimeLockSet { account, unlock_at }));
        Ok(())
    }

    /// Whether the emergency pause is on.
    pub fn is_paused(&self) -> (r: bool)
        ensures
            r == self.paused,
    {
        self.paused
    }

    /// The account that owns the contract.
    pub fn get_owner(&self) -> (r: AccountId)
        ensures
            r == self.owner,
    {
        self.owner
    }
}

} // verus!
