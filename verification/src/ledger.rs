//! The ledger: the pool's record, the pool's account and every user's
//! record, found by identity.

use vstd::prelude::*;
use crate::account::{Identity, Wallet};
use crate::error::StakingError;
use crate::instructions::{AdjustStakingPeriod, Initialize, Stake, Unstake};
use crate::model::{
    lemma_adjusted_wf, lemma_initialized_wf, lemma_slot_found, lemma_stake_accounts_consistent,
    lemma_staked_wf, lemma_unstake_accounts_consistent, lemma_unstaked_wf, LedgerState, Operation,
    UserEntry,
};
use crate::state::{StakingPool, User};

verus! {

/// The pool and its users. Every operation either goes through, and then
/// changes the pool's record and the user's record together, or is turned
/// down and changes nothing.
#[derive(Debug)]
pub struct Ledger {
    pool: Option<StakingPool>,
    vault: Wallet,
    users: Vec<UserEntry>,
}

impl View for Ledger {
    type V = LedgerState;

    closed spec fn view(&self) -> LedgerState {
        LedgerState { pool: self.pool, vault: self.vault, users: self.users@ }
    }
}

impl Ledger {
    /// Every ledger is well formed: no identity has two records, the pool's
    /// total is the sum of the users' stakes, and the pool's account holds
    /// at least that total.
    #[verifier::type_invariant]
    pub open spec fn well_formed(&self) -> bool {
        self@.wf()
    }

    /// A ledger whose pool is not set up yet and keeps its currency in
    /// `vault`.
    pub fn new(vault: Wallet) -> (ledger: Ledger)
        ensures
            ledger@ == LedgerState::empty(vault),
            ledger@.wf(),
            ledger@.clocks_agree(),
    {
        Ledger { pool: None, vault, users: Vec::new() }
    }

    /// The pool's record, once the pool is set up.
    pub fn pool(&self) -> (pool: Option<StakingPool>)
        ensures
            pool == self@.pool,
    {
        self.pool
    }

    /// The account that holds the pool's currency.
    pub fn vault(&self) -> (vault: Wallet)
        ensures
            vault == self@.vault,
    {
        self.vault
    }

    /// The sum of all stakes: zero before the pool is set up.
    pub fn total_staked(&self) -> (total: u64)
        ensures
            total == self@.total_staked(),
    {
        match self.pool {
            Some(pool) => pool.total_staked,
            None => 0,
        }
    }

    /// How many users have a record.
    pub fn user_count(&self) -> (count: usize)
        ensures
            count == self@.users.len(),
    {
        self.users.len()
    }

    /// Hands out the users' records to be rewritten, and leaves in their
    /// place a ledger that is well formed in the meantime: one without
    /// pool and users.
    fn take_users(&mut self) -> (users: Vec<UserEntry>)
        ensures
            users@ == old(self)@.users,
            final(self)@ == LedgerState::empty(old(self)@.vault),
    {
        let mut taken = Ledger { pool: None, vault: self.vault, users: Vec::new() };
        core::mem::swap(self, &mut taken);
        taken.users
    }

    /// Where the record of `owner` stands, if there is one.
    fn find(&self, owner: &Identity) -> (slot: Option<usize>)
        ensures
            match slot {
                Some(i) => i < self@.users.len() && self@.users[i as int].owner == *owner,
                None => !self@.holds(*owner),
            },
    {
        let mut i: usize = 0;
        while i < self.users.len()
            invariant
                i <= self.users.len(),
                forall|j: int| 0 <= j < i ==> self.users@[j].owner != *owner,
            decreases self.users.len() - i,
        {
            if self.users[i].owner == *owner {
                return Some(i);
            }
            i += 1;
        }
        None
    }

    /// The record of `owner`, if there is one.
    pub fn user(&self, owner: &Identity) -> (record: Option<User>)
        ensures
            record == self@.record_of(*owner),
    {
        proof {
            use_type_invariant(self);
        }
        match self.find(owner) {
            Some(i) => {
                proof {
                    lemma_slot_found(self@, *owner, i as int);
                }
                Some(self.users[i].record)
            },
            None => None,
        }
    }

    /// Sets the pool up, with `caller` as its authority, the given lock
    /// period and nothing staked. Turned down with `AlreadyInitialized`
    /// when the pool is set up already.
    pub fn initialize_pool(&mut self, caller: Identity, staking_period: i64) -> (r: Result<
        (),
        StakingError,
    >)
        ensures
            final(self)@.wf(),
            match old(self)@.initialize_refusal() {
                Some(e) => r == Err::<(), StakingError>(e) && final(self)@ == old(self)@,
                None => r is Ok && final(self)@ == old(self)@.initialized(caller, staking_period),
            },
            final(self)@ == old(self)@.step(Operation::InitializePool { caller, staking_period }),
    {
        proof {
            use_type_invariant(&*self);
        }
        let mut ctx = Initialize { staking_pool: self.pool, authority: caller };
        match crate::instructions::initialize(&mut ctx, staking_period) {
            Err(e) => Err(e),
            Ok(()) => {
                proof {
                    lemma_initialized_wf(self@, caller, staking_period);
                }
                self.pool = ctx.staking_pool;
                Ok(())
            },
        }
    }

    /// Replaces the pool's lock period. Turned down with `Unauthorized`
    /// unless `caller` is the authority of a pool that is set up.
    pub fn adjust_period(&mut self, caller: Identity, new_period: i64) -> (r: Result<
        (),
        StakingError,
    >)
        ensures
            final(self)@.wf(),
            match old(self)@.adjust_refusal(caller) {
                Some(e) => r == Err::<(), StakingError>(e) && final(self)@ == old(self)@,
                None => r is Ok && final(self)@ == old(self)@.adjusted(new_period),
            },
            old(self)@.pool matches Some(pool) && caller != pool.authority ==> r == Err::<
                (),
                StakingError,
            >(StakingError::Unauthorized) && final(self)@.pool == old(self)@.pool,
            final(self)@ == old(self)@.step(Operation::AdjustPeriod { caller, new_period }),
    {
        proof {
            use_type_invariant(&*self);
        }
        let pool: StakingPool = match self.pool {
            Some(pool) => pool,
            None => {
                return Err(StakingError::Unauthorized);
            },
        };
        let mut ctx = AdjustStakingPeriod { staking_pool: pool, authority: caller };
        match crate::instructions::adjust_staking_period(&mut ctx, new_period) {
            Err(e) => Err(e),
            Ok(()) => {
                proof {
                    lemma_adjusted_wf(self@, caller, new_period);
                }
                self.pool = Some(ctx.staking_pool);
                Ok(())
            },
        }
    }

    /// Deposits `amount` for `caller` at time `now`.
    ///
    /// `caller` is the depositor's account before the host moved anything,
    /// and `transferred` says whether the host has moved `amount` from it to
    /// the pool's account. A first deposit allocates the caller's record; a
    /// later one adds to it and starts the lock anew for the whole stake.
    /// When the deposit goes through, `caller` holds `amount` less.
    pub fn stake(&mut self, caller: &mut Wallet, amount: u64, now: i64, transferred: bool) -> (r:
        Result<(), StakingError>)
        requires
            old(self)@.pool is Some,
        ensures
            final(self)@.wf(),
            match old(self)@.stake_refusal(*old(caller), amount, transferred) {
                Some(e) => r == Err::<(), StakingError>(e) && final(self)@ == old(self)@
                    && *final(caller) == *old(caller),
                None => r is Ok && final(self)@ == old(self)@.staked(*old(caller), amount, now)
                    && *final(caller) == old(caller).debited(amount),
            },
            final(self)@ == old(self)@.step(
                Operation::Stake { account: *old(caller), amount, now, transferred },
            ),
    {
        proof {
            use_type_invariant(&*self);
        }
        let slot = self.find(&caller.key);
        let user: User = match slot {
            Some(i) => {
                proof {
                    lemma_slot_found(self@, caller.key, i as int);
                }
                self.users[i].record
            },
            None => User::new(),
        };
        let mut ctx = Stake {
            staking_pool: self.pool.unwrap(),
            user,
            user_account: *caller,
            staking_pool_account: self.vault,
        };
        proof {
            lemma_stake_accounts_consistent(self@, *caller);
        }
        match crate::instructions::stake(&mut ctx, amount, now, transferred) {
            Err(e) => Err(e),
            Ok(()) => {
                proof {
                    lemma_staked_wf(self@, *caller, amount, now, transferred);
                }
                let entry = UserEntry { owner: caller.key, record: ctx.user };
                let mut users = self.take_users();
                match slot {
                    Some(i) => {
                        users[i] = entry;
                    },
                    None => {
                        users.push(entry);
                    },
                }
                *self = Ledger {
                    pool: Some(ctx.staking_pool),
                    vault: ctx.staking_pool_account,
                    users,
                };
                *caller = ctx.user_account;
                Ok(())
            },
        }
    }

    /// Withdraws the whole stake of `caller` at time `now` and returns its
    /// amount.
    ///
    /// Turned down with `NoActiveStake` when the caller has no record or
    /// nothing staked, and with `StakingPeriodNotComplete` when `now` lies
    /// before the latest deposit plus the lock period. When the withdrawal
    /// goes through, `caller` holds the amount more, and the caller's record
    /// stays where it is, cleared.
    pub fn unstake(&mut self, caller: &mut Wallet, now: i64) -> (r: Result<u64, StakingError>)
        ensures
            final(self)@.wf(),
            match old(self)@.unstake_refusal(*old(caller), now) {
                Some(e) => r == Err::<u64, StakingError>(e) && final(self)@ == old(self)@
                    && *final(caller) == *old(caller),
                None => r == Ok::<u64, StakingError>(old(self)@.staked_by(old(caller).key))
                    && final(self)@ == old(self)@.unstaked(*old(caller)) && *final(caller) == old(
                    caller,
                ).credited(old(self)@.staked_by(old(caller).key)),
            },
            final(self)@ == old(self)@.step(Operation::Unstake { account: *old(caller), now }),
    {
        proof {
            use_type_invariant(&*self);
        }
        let pool: StakingPool = match self.pool {
            Some(pool) => pool,
            None => {
                return Err(StakingError::NoActiveStake);
            },
        };
        let slot = self.find(&caller.key);
        let i: usize = match slot {
            Some(i) => i,
            None => {
                return Err(StakingError::NoActiveStake);
            },
        };
        proof {
            lemma_slot_found(self@, caller.key, i as int);
            lemma_unstake_accounts_consistent(self@, *caller);
        }
        let amount: u64 = self.users[i].record.staked_amount;
        let mut ctx = Unstake {
            staking_pool: pool,
            user: Some(self.users[i].record),
            user_account: *caller,
            staking_pool_account: self.vault,
        };
        match crate::instructions::unstake(&mut ctx, now) {
            Err(e) => Err(e),
            Ok(()) => {
                proof {
                    lemma_unstaked_wf(self@, *caller, now);
                }
                let mut users = self.take_users();
                users[i] = UserEntry { owner: caller.key, record: User::new() };
                *self = Ledger {
                    pool: Some(ctx.staking_pool),
                    vault: ctx.staking_pool_account,
                    users,
                };
                *caller = ctx.user_account;
                Ok(amount)
            },
        }
    }
}

} // verus!
