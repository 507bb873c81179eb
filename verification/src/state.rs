//! The two kinds of record that the ledger keeps.

use vstd::prelude::*;
use crate::account::Identity;

verus! {

/// The pool's record: its configuration and the sum of all stakes.
#[derive(Clone, Copy, Debug, PartialEq, Eq)]
pub struct StakingPool {
    /// Who may change the lock period. Set once, when the pool is set up.
    pub authority: Identity,
    /// For how many seconds a stake stays locked after its latest deposit.
    pub staking_period: i64,
    /// The sum of what all users have staked at the moment.
    pub total_staked: u64,
}

/// One depositor's record.
#[derive(Clone, Copy, Debug, PartialEq, Eq, Structural)]
pub struct User {
    /// What the user has staked at the moment; zero when nothing is staked.
    pub staked_amount: u64,
    /// When the latest deposit was recorded, in seconds since the epoch;
    /// zero after a withdrawal.
    pub stake_timestamp: i64,
}

impl StakingPool {
    /// The record of a pool that `authority` has just set up.
    pub open spec fn opened(authority: Identity, staking_period: i64) -> StakingPool {
        StakingPool { authority, staking_period, total_staked: 0 }
    }

    /// This record with another lock period.
    pub open spec fn with_period(self, staking_period: i64) -> StakingPool {
        StakingPool { authority: self.authority, staking_period, total_staked: self.total_staked }
    }

    /// This record with another sum of stakes.
    pub open spec fn with_total(self, total_staked: u64) -> StakingPool {
        StakingPool {
            authority: self.authority,
            staking_period: self.staking_period,
            total_staked,
        }
    }

    /// A new pool record with nothing staked.
    pub fn new(authority: Identity, staking_period: i64) -> (pool: StakingPool)
        ensures
            pool == StakingPool::opened(authority, staking_period),
    {
        StakingPool { authority, staking_period, total_staked: 0 }
    }

    /// Whether `caller` is the pool's authority.
    pub fn is_authority(&self, caller: &Identity) -> (r: bool)
        ensures
            r == (*caller == self.authority),
    {
        *caller == self.authority
    }
}

impl User {
    /// The record of a user with nothing staked.
    pub open spec fn empty() -> User {
        User { staked_amount: 0, stake_timestamp: 0 }
    }

    /// Whether the user has something staked.
    pub open spec fn is_active(self) -> bool {
        self.staked_amount > 0
    }

    /// Amount and timestamp are set and cleared together.
    pub open spec fn clock_agrees(self) -> bool {
        (self.staked_amount == 0) <==> (self.stake_timestamp == 0)
    }

    /// The first moment at which the stake may be withdrawn, for a pool
    /// with the given lock period.
    pub open spec fn unlocks_at(self, staking_period: i64) -> int {
        self.stake_timestamp + staking_period
    }

    /// Whether the lock has run out at time `now`.
    pub open spec fn is_unlocked(self, staking_period: i64, now: i64) -> bool {
        now >= self.unlocks_at(staking_period)
    }

    /// A fresh record with nothing staked.
    pub fn new() -> (user: User)
        ensures
            user == User::empty(),
    {
        User { staked_amount: 0, stake_timestamp: 0 }
    }

    /// Whether the user has something staked.
    pub fn has_stake(&self) -> (r: bool)
        ensures
            r == self.is_active(),
    {
        self.staked_amount > 0
    }

    /// Whether the user's stake may be withdrawn at time `now` from a pool
    /// with the given lock period. The sum of timestamp and period is taken
    /// over the integers, so it never wraps.
    pub fn lock_elapsed(&self, staking_period: i64, now: i64) -> (r: bool)
        ensures
            r == self.is_unlocked(staking_period, now),
    {
        let unlock: i128 = self.stake_timestamp as i128 + staking_period as i128;
        now as i128 >= unlock
    }
}

} // verus!
