//! The four operations, each on the records and balances that the host has
//! loaded for it.
//!
//! An operation takes its accounts by `&mut`. When it succeeds, the accounts
//! hold what the host has to store; when it fails, they are untouched.

use vstd::prelude::*;
use crate::account::{Identity, Wallet};
use crate::error::StakingError;
use crate::state::{StakingPool, User};

verus! {

/// The accounts of the pool's set-up.
#[derive(Clone, Copy, Debug, PartialEq, Eq)]
pub struct Initialize {
    /// What the host holds at the pool's address: nothing before the set-up.
    pub staking_pool: Option<StakingPool>,
    /// The caller, who becomes the pool's authority.
    pub authority: Identity,
}

/// The accounts of a change of the lock period.
#[derive(Clone, Copy, Debug, PartialEq, Eq)]
pub struct AdjustStakingPeriod {
    /// The pool's record.
    pub staking_pool: StakingPool,
    /// The caller, who has to be the pool's authority.
    pub authority: Identity,
}

/// The accounts of a deposit.
#[derive(Clone, Copy, Debug, PartialEq, Eq)]
pub struct Stake {
    /// The pool's record.
    pub staking_pool: StakingPool,
    /// The depositor's record; one with nothing staked on a first deposit.
    pub user: User,
    /// The depositor's own account, which pays.
    pub user_account: Wallet,
    /// The account that holds the pool's currency.
    pub staking_pool_account: Wallet,
}

/// The accounts of a withdrawal.
#[derive(Clone, Copy, Debug, PartialEq, Eq)]
pub struct Unstake {
    /// The pool's record.
    pub staking_pool: StakingPool,
    /// The depositor's record, if the host holds one.
    pub user: Option<User>,
    /// The depositor's own account, which is paid.
    pub user_account: Wallet,
    /// The account that holds the pool's currency.
    pub staking_pool_account: Wallet,
}

impl Stake {
    /// The user's stake is part of the pool's total, and the pool's account
    /// holds at least that total.
    pub open spec fn consistent(self) -> bool {
        &&& self.user.staked_amount <= self.staking_pool.total_staked
        &&& self.staking_pool.total_staked <= self.staking_pool_account.lamports
    }

    /// Why a deposit of `amount` is turned down, if it is. `transferred`
    /// says whether the host has moved the amount into the pool's account.
    pub open spec fn refusal(self, amount: u64, transferred: bool) -> Option<StakingError> {
        if amount > self.user_account.lamports {
            Some(StakingError::InsufficientFunds)
        } else if !transferred || self.staking_pool_account.lamports + amount > u64::MAX {
            Some(StakingError::TransferFailed)
        } else {
            None
        }
    }

    /// The accounts after a deposit of `amount` at time `now`: the amount
    /// has gone from the depositor's account to the pool's, both counters
    /// have grown by it, and the lock starts anew for the whole stake.
    pub open spec fn settled(self, amount: u64, now: i64) -> Stake {
        Stake {
            staking_pool: self.staking_pool.with_total(
                (self.staking_pool.total_staked + amount) as u64,
            ),
            user: User {
                staked_amount: (self.user.staked_amount + amount) as u64,
                stake_timestamp: now,
            },
            user_account: self.user_account.debited(amount),
            staking_pool_account: self.staking_pool_account.credited(amount),
        }
    }

    /// Whether the accounts are consistent.
    pub fn is_consistent(&self) -> (r: bool)
        ensures
            r == self.consistent(),
    {
        self.user.staked_amount <= self.staking_pool.total_staked
            && self.staking_pool.total_staked <= self.staking_pool_account.lamports
    }
}

impl Unstake {
    /// The user's stake, if there is one, is part of the pool's total.
    pub open spec fn consistent(self) -> bool {
        self.user matches Some(user) ==> user.staked_amount <= self.staking_pool.total_staked
    }

    /// What the user has staked: nothing where there is no record.
    pub open spec fn staked(self) -> u64 {
        match self.user {
            Some(user) => user.staked_amount,
            None => 0,
        }
    }

    /// Why a withdrawal at time `now` is turned down, if it is.
    pub open spec fn refusal(self, now: i64) -> Option<StakingError> {
        match self.user {
            None => Some(StakingError::NoActiveStake),
            Some(user) => if user.staked_amount == 0 {
                Some(StakingError::NoActiveStake)
            } else if !user.is_unlocked(self.staking_pool.staking_period, now) {
                Some(StakingError::StakingPeriodNotComplete)
            } else if self.staking_pool_account.lamports < user.staked_amount
                || self.user_account.lamports + user.staked_amount > u64::MAX {
                Some(StakingError::TransferFailed)
            } else {
                None
            },
        }
    }

    /// The accounts after a withdrawal: the whole stake has gone from the
    /// pool's account to the depositor's, the pool's total has shrunk by it,
    /// and the user's record is cleared.
    pub open spec fn settled(self) -> Unstake {
        Unstake {
            staking_pool: self.staking_pool.with_total(
                (self.staking_pool.total_staked - self.staked()) as u64,
            ),
            user: Some(User::empty()),
            user_account: self.user_account.credited(self.staked()),
            staking_pool_account: self.staking_pool_account.debited(self.staked()),
        }
    }

    /// Whether the accounts are consistent.
    pub fn is_consistent(&self) -> (r: bool)
        ensures
            r == self.consistent(),
    {
        match self.user {
            Some(user) => user.staked_amount <= self.staking_pool.total_staked,
            None => true,
        }
    }
}

/// Sets the pool up, with the caller as its authority and nothing staked.
///
/// Any lock period is taken, a zero or negative one too: stakes of such a
/// pool can be withdrawn at once. The set-up is turned down with
/// `AlreadyInitialized` when the pool has a record already.
pub fn initialize(ctx: &mut Initialize, staking_period: i64) -> (r: Result<(), StakingError>)
    ensures
        old(ctx).staking_pool is Some ==> r == Err::<(), StakingError>(
            StakingError::AlreadyInitialized,
        ) && *final(ctx) == *old(ctx),
        old(ctx).staking_pool is None ==> r is Ok && final(ctx).authority == old(ctx).authority
            && final(ctx).staking_pool == Some(
            StakingPool::opened(old(ctx).authority, staking_period),
        ),
{
    if ctx.staking_pool.is_some() {
        return Err(StakingError::AlreadyInitialized);
    }
    ctx.staking_pool = Some(StakingPool::new(ctx.authority, staking_period));
    Ok(())
}

/// Replaces the pool's lock period.
///
/// Only the pool's authority may do so: for any other caller the change is
/// turned down with `Unauthorized`. The new period counts for every stake
/// from now on, those made before the change too.
pub fn adjust_staking_period(ctx: &mut AdjustStakingPeriod, new_staking_period: i64) -> (r: Result<
    (),
    StakingError,
>)
    ensures
        old(ctx).authority != old(ctx).staking_pool.authority ==> r == Err::<(), StakingError>(
            StakingError::Unauthorized,
        ) && *final(ctx) == *old(ctx),
        old(ctx).authority == old(ctx).staking_pool.authority ==> r is Ok && final(ctx).authority
            == old(ctx).authority && final(ctx).staking_pool == old(ctx).staking_pool.with_period(
            new_staking_period,
        ),
{
    if !ctx.staking_pool.is_authority(&ctx.authority) {
        return Err(StakingError::Unauthorized);
    }
    ctx.staking_pool.staking_period = new_staking_period;
    Ok(())
}

/// Deposits `amount` for the user at time `now`.
///
/// The host moves the currency and reports in `transferred` whether it did.
/// The deposit is turned down with `InsufficientFunds` when the depositor
/// holds less than `amount`; otherwise with `TransferFailed` when the host
/// did not move the amount, or the pool's account cannot take it. Otherwise
/// it succeeds and the accounts are as `Stake::settled` says.
pub fn stake(ctx: &mut Stake, amount: u64, now: i64, transferred: bool) -> (r: Result<
    (),
    StakingError,
>)
    requires
        old(ctx).consistent(),
    ensures
        match old(ctx).refusal(amount, transferred) {
            Some(e) => r == Err::<(), StakingError>(e) && *final(ctx) == *old(ctx),
            None => r is Ok && *final(ctx) == old(ctx).settled(amount, now),
        },
        r is Ok ==> {
            &&& final(ctx).staking_pool.total_staked == old(ctx).staking_pool.total_staked + amount
            &&& final(ctx).user.staked_amount == old(ctx).user.staked_amount + amount
            &&& final(ctx).user.stake_timestamp == now
            &&& final(ctx).user_account.lamports == old(ctx).user_account.lamports - amount
            &&& final(ctx).staking_pool_account.lamports == old(ctx).staking_pool_account.lamports
                + amount
        },
        final(ctx).consistent(),
{
    if amount > ctx.user_account.lamports {
        return Err(StakingError::InsufficientFunds);
    }
    if !transferred {
        return Err(StakingError::TransferFailed);
    }
    let pool_balance: u64 = match ctx.staking_pool_account.lamports.checked_add(amount) {
        Some(balance) => balance,
        None => {
            return Err(StakingError::TransferFailed);
        },
    };
    ctx.user_account.lamports = ctx.user_account.lamports - amount;
    ctx.staking_pool_account.lamports = pool_balance;

    ctx.staking_pool.total_staked = ctx.staking_pool.total_staked + amount;
    ctx.user.staked_amount = ctx.user.staked_amount + amount;
    ctx.user.stake_timestamp = now;
    Ok(())
}

/// Withdraws the user's whole stake at time `now`.
///
/// The withdrawal is turned down with `NoActiveStake` when the user has no
/// record or nothing staked; otherwise with `StakingPeriodNotComplete` when
/// `now` lies before the latest deposit plus the pool's lock period;
/// otherwise with `TransferFailed` when the pool's account holds less than
/// the stake, or the user's account cannot take it. Otherwise it succeeds
/// and the accounts are as `Unstake::settled` says.
pub fn unstake(ctx: &mut Unstake, now: i64) -> (r: Result<(), StakingError>)
    requires
        old(ctx).consistent(),
    ensures
        match old(ctx).refusal(now) {
            Some(e) => r == Err::<(), StakingError>(e) && *final(ctx) == *old(ctx),
            None => r is Ok && *final(ctx) == old(ctx).settled(),
        },
        r is Ok ==> {
            &&& final(ctx).staking_pool.total_staked == old(ctx).staking_pool.total_staked - old(
                ctx,
            ).staked()
            &&& final(ctx).user == Some(User::empty())
            &&& final(ctx).user_account.lamports == old(ctx).user_account.lamports + old(
                ctx,
            ).staked()
            &&& final(ctx).staking_pool_account.lamports == old(ctx).staking_pool_account.lamports
                - old(ctx).staked()
        },
        final(ctx).consistent(),
{
    let user: User = match ctx.user {
        Some(user) => user,
        None => {
            return Err(StakingError::NoActiveStake);
        },
    };
    if !user.has_stake() {
        return Err(StakingError::NoActiveStake);
    }
    if !user.lock_elapsed(ctx.staking_pool.staking_period, now) {
        return Err(StakingError::StakingPeriodNotComplete);
    }
    let amount: u64 = user.staked_amount;

    if ctx.staking_pool_account.lamports < amount {
        return Err(StakingError::TransferFailed);
    }
    let user_balance: u64 = match ctx.user_account.lamports.checked_add(amount) {
        Some(balance) => balance,
        None => {
            return Err(StakingError::TransferFailed);
        },
    };
    ctx.staking_pool_account.lamports = ctx.staking_pool_account.lamports - amount;
    ctx.user_account.lamports = user_balance;

    ctx.staking_pool.total_staked = ctx.staking_pool.total_staked - amount;
    ctx.user = Some(User { staked_amount: 0, stake_timestamp: 0 });
    Ok(())
}

} // verus!
