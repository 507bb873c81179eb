//! The ledger as a mathematical value, and the four operations as
//! functions on it.

use vstd::prelude::*;
use crate::account::{Identity, Wallet};
use crate::error::StakingError;
use crate::instructions::{Stake, Unstake};
use crate::state::{StakingPool, User};

verus! {

/// A user's record together with the identity it belongs to.
#[derive(Clone, Copy, Debug, PartialEq, Eq)]
pub struct UserEntry {
    /// The depositor.
    pub owner: Identity,
    /// The depositor's record.
    pub record: User,
}

/// Everything the ledger holds: the pool's record once the pool is set up,
/// the account with the pool's currency, and the users' records in the
/// order in which they were first allocated.
pub struct LedgerState {
    /// The pool's record; none before the pool is set up.
    pub pool: Option<StakingPool>,
    /// The account that holds the pool's currency.
    pub vault: Wallet,
    /// One entry for every identity that ever deposited.
    pub users: Seq<UserEntry>,
}

/// The sum of what the given users have staked. A user without an active
/// stake adds nothing to it.
pub open spec fn staked_sum(users: Seq<UserEntry>) -> nat
    decreases users.len(),
{
    if users.len() == 0 {
        0
    } else {
        staked_sum(users.drop_last()) + users.last().record.staked_amount as nat
    }
}

impl LedgerState {
    /// No identity has two records.
    pub open spec fn distinct_owners(self) -> bool {
        forall|i: int, j: int|
            0 <= i < j < self.users.len() ==> self.users[i].owner != self.users[j].owner
    }

    /// The pool's total: zero as long as the pool is not set up.
    pub open spec fn total_staked(self) -> nat {
        match self.pool {
            Some(pool) => pool.total_staked as nat,
            None => 0,
        }
    }

    /// The pool's total is the sum of the users' stakes.
    pub open spec fn totals_agree(self) -> bool {
        self.total_staked() == staked_sum(self.users)
    }

    /// The pool's account holds at least the pool's total.
    pub open spec fn backed(self) -> bool {
        self.total_staked() <= self.vault.lamports
    }

    /// What holds of every ledger that the operations can reach.
    pub open spec fn wf(self) -> bool {
        &&& self.distinct_owners()
        &&& self.totals_agree()
        &&& self.backed()
    }

    /// In every record, amount and timestamp are zero together.
    pub open spec fn clocks_agree(self) -> bool {
        forall|i: int| 0 <= i < self.users.len() ==> (#[trigger] self.users[i]).record.clock_agrees()
    }

    /// Whether `owner` has a record.
    pub open spec fn holds(self, owner: Identity) -> bool {
        exists|i: int| 0 <= i < self.users.len() && (#[trigger] self.users[i]).owner == owner
    }

    /// Where the record of `owner` stands, if there is one.
    pub open spec fn slot(self, owner: Identity) -> int {
        choose|i: int| 0 <= i < self.users.len() && (#[trigger] self.users[i]).owner == owner
    }

    /// The record of `owner`, if there is one.
    pub open spec fn record_of(self, owner: Identity) -> Option<User> {
        if self.holds(owner) {
            Some(self.users[self.slot(owner)].record)
        } else {
            None
        }
    }

    /// What `owner` has staked: nothing where there is no record.
    pub open spec fn staked_by(self, owner: Identity) -> u64 {
        match self.record_of(owner) {
            Some(record) => record.staked_amount,
            None => 0,
        }
    }

    /// The users' records with that of `owner` set to `record`: written in
    /// place where `owner` has one, allocated behind the others where not.
    pub open spec fn with_record(self, owner: Identity, record: User) -> Seq<UserEntry> {
        if self.holds(owner) {
            self.users.update(self.slot(owner), UserEntry { owner, record })
        } else {
            self.users.push(UserEntry { owner, record })
        }
    }

    /// Why the set-up of the pool is turned down, if it is.
    pub open spec fn initialize_refusal(self) -> Option<StakingError> {
        if self.pool is Some {
            Some(StakingError::AlreadyInitialized)
        } else {
            None
        }
    }

    /// The ledger after `caller` has set the pool up.
    pub open spec fn initialized(self, caller: Identity, staking_period: i64) -> LedgerState {
        LedgerState {
            pool: Some(StakingPool::opened(caller, staking_period)),
            vault: self.vault,
            users: self.users,
        }
    }

    /// Why a change of the lock period by `caller` is turned down, if it is.
    pub open spec fn adjust_refusal(self, caller: Identity) -> Option<StakingError> {
        match self.pool {
            Some(pool) => if caller == pool.authority {
                None
            } else {
                Some(StakingError::Unauthorized)
            },
            None => Some(StakingError::Unauthorized),
        }
    }

    /// The ledger after the lock period was changed.
    pub open spec fn adjusted(self, staking_period: i64) -> LedgerState
        recommends
            self.pool is Some,
    {
        LedgerState {
            pool: Some(self.pool->0.with_period(staking_period)),
            vault: self.vault,
            users: self.users,
        }
    }

    /// The accounts that a deposit by `caller` works on.
    pub open spec fn stake_accounts(self, caller: Wallet) -> Stake
        recommends
            self.pool is Some,
    {
        Stake {
            staking_pool: self.pool->0,
            user: match self.record_of(caller.key) {
                Some(record) => record,
                None => User::empty(),
            },
            user_account: caller,
            staking_pool_account: self.vault,
        }
    }

    /// Why a deposit of `amount` by `caller` is turned down, if it is.
    pub open spec fn stake_refusal(self, caller: Wallet, amount: u64, transferred: bool) -> Option<
        StakingError,
    >
        recommends
            self.pool is Some,
    {
        self.stake_accounts(caller).refusal(amount, transferred)
    }

    /// The ledger after `caller` has deposited `amount` at time `now`.
    pub open spec fn staked(self, caller: Wallet, amount: u64, now: i64) -> LedgerState
        recommends
            self.pool is Some,
    {
        let done = self.stake_accounts(caller).settled(amount, now);
        LedgerState {
            pool: Some(done.staking_pool),
            vault: done.staking_pool_account,
            users: self.with_record(caller.key, done.user),
        }
    }

    /// The accounts that a withdrawal by `caller` works on.
    pub open spec fn unstake_accounts(self, caller: Wallet) -> Unstake
        recommends
            self.pool is Some,
    {
        Unstake {
            staking_pool: self.pool->0,
            user: self.record_of(caller.key),
            user_account: caller,
            staking_pool_account: self.vault,
        }
    }

    /// Why a withdrawal by `caller` at time `now` is turned down, if it is.
    /// Before the pool is set up nobody has a stake.
    pub open spec fn unstake_refusal(self, caller: Wallet, now: i64) -> Option<StakingError> {
        if self.pool is Some {
            self.unstake_accounts(caller).refusal(now)
        } else {
            Some(StakingError::NoActiveStake)
        }
    }

    /// The ledger after `caller` has withdrawn the whole stake.
    pub open spec fn unstaked(self, caller: Wallet) -> LedgerState
        recommends
            self.pool is Some,
            self.holds(caller.key),
    {
        let done = self.unstake_accounts(caller).settled();
        LedgerState {
            pool: Some(done.staking_pool),
            vault: done.staking_pool_account,
            users: self.with_record(caller.key, User::empty()),
        }
    }
}

/// One call of one of the four operations, with its arguments.
pub enum Operation {
    /// The caller sets the pool up.
    InitializePool { caller: Identity, staking_period: i64 },
    /// The caller changes the lock period.
    AdjustPeriod { caller: Identity, new_period: i64 },
    /// The owner of `account` deposits `amount` at time `now`.
    Stake { account: Wallet, amount: u64, now: i64, transferred: bool },
    /// The owner of `account` withdraws the whole stake at time `now`.
    Unstake { account: Wallet, now: i64 },
}

impl LedgerState {
    /// The ledger before anything was done with it.
    pub open spec fn empty(vault: Wallet) -> LedgerState {
        LedgerState { pool: None, vault, users: Seq::empty() }
    }

    /// The ledger after one operation: changed as the operation says where
    /// it goes through, unchanged where it is turned down. A deposit needs
    /// the pool to be set up.
    pub open spec fn step(self, op: Operation) -> LedgerState {
        match op {
            Operation::InitializePool { caller, staking_period } => {
                if self.initialize_refusal() is None {
                    self.initialized(caller, staking_period)
                } else {
                    self
                }
            },
            Operation::AdjustPeriod { caller, new_period } => {
                if self.adjust_refusal(caller) is None {
                    self.adjusted(new_period)
                } else {
                    self
                }
            },
            Operation::Stake { account, amount, now, transferred } => {
                if self.pool is Some && self.stake_refusal(account, amount, transferred) is None {
                    self.staked(account, amount, now)
                } else {
                    self
                }
            },
            Operation::Unstake { account, now } => {
                if self.unstake_refusal(account, now) is None {
                    self.unstaked(account)
                } else {
                    self
                }
            },
        }
    }

    /// The ledger after a sequence of operations.
    pub open spec fn run(self, ops: Seq<Operation>) -> LedgerState
        decreases ops.len(),
    {
        if ops.len() == 0 {
            self
        } else {
            self.run(ops.drop_last()).step(ops.last())
        }
    }

    /// Whether the operation leaves amount and timestamp of the record it
    /// writes zero together. Only a deposit can fail to: one that goes
    /// through and leaves a stake at time zero, or no stake at another time.
    pub open spec fn keeps_clock(self, op: Operation) -> bool {
        match op {
            Operation::Stake { account, amount, now, transferred } => {
                self.pool is Some && self.stake_refusal(account, amount, transferred) is None
                    ==> ((self.staked_by(account.key) + amount == 0) <==> (now == 0))
            },
            _ => true,
        }
    }
}

/// A record allocated behind the others adds its stake to the sum.
pub proof fn lemma_sum_push(users: Seq<UserEntry>, entry: UserEntry)
    ensures
        staked_sum(users.push(entry)) == staked_sum(users) + entry.record.staked_amount,
{
    assert(users.push(entry).drop_last() =~= users);
}

/// A record written in place changes the sum by the difference of the two
/// stakes, and no stake is larger than the sum.
pub proof fn lemma_sum_update(users: Seq<UserEntry>, i: int, entry: UserEntry)
    requires
        0 <= i < users.len(),
    ensures
        users[i].record.staked_amount <= staked_sum(users),
        staked_sum(users.update(i, entry)) == staked_sum(users) - users[i].record.staked_amount
            + entry.record.staked_amount,
    decreases users.len(),
{
    if i == users.len() - 1 {
        assert(users.update(i, entry).drop_last() =~= users.drop_last());
    } else {
        lemma_sum_update(users.drop_last(), i, entry);
        assert(users.update(i, entry).drop_last() =~= users.drop_last().update(i, entry));
    }
}

/// Where an owner's record stands is fixed by the owner alone.
pub proof fn lemma_slot_found(state: LedgerState, owner: Identity, i: int)
    requires
        state.distinct_owners(),
        0 <= i < state.users.len(),
        state.users[i].owner == owner,
    ensures
        state.holds(owner),
        state.slot(owner) == i,
        state.record_of(owner) == Some(state.users[i].record),
{
    let j = state.slot(owner);
    assert(0 <= j < state.users.len() && state.users[j].owner == owner);
    if i < j {
        assert(state.users[i].owner != state.users[j].owner);
    } else if j < i {
        assert(state.users[j].owner != state.users[i].owner);
    }
}

/// Setting the pool up keeps the ledger well formed.
pub proof fn lemma_initialized_wf(state: LedgerState, caller: Identity, staking_period: i64)
    requires
        state.wf(),
        state.initialize_refusal() is None,
    ensures
        state.initialized(caller, staking_period).wf(),
{
}

/// Changing the lock period keeps the ledger well formed.
pub proof fn lemma_adjusted_wf(state: LedgerState, caller: Identity, staking_period: i64)
    requires
        state.wf(),
        state.adjust_refusal(caller) is None,
    ensures
        state.adjusted(staking_period).wf(),
{
}

/// In a well-formed ledger the accounts of a deposit are consistent.
pub proof fn lemma_stake_accounts_consistent(state: LedgerState, caller: Wallet)
    requires
        state.wf(),
        state.pool is Some,
    ensures
        state.stake_accounts(caller).consistent(),
{
    if state.holds(caller.key) {
        lemma_sum_update(state.users, state.slot(caller.key), state.users[state.slot(caller.key)]);
    }
}

/// In a well-formed ledger the accounts of a withdrawal are consistent, and
/// the pool's account holds at least what the caller has staked.
pub proof fn lemma_unstake_accounts_consistent(state: LedgerState, caller: Wallet)
    requires
        state.wf(),
        state.pool is Some,
    ensures
        state.unstake_accounts(caller).consistent(),
        state.unstake_accounts(caller).staked() <= state.vault.lamports,
{
    if state.holds(caller.key) {
        lemma_sum_update(state.users, state.slot(caller.key), state.users[state.slot(caller.key)]);
    }
}

/// A deposit that goes through keeps the ledger well formed.
pub proof fn lemma_staked_wf(
    state: LedgerState,
    caller: Wallet,
    amount: u64,
    now: i64,
    transferred: bool,
)
    requires
        state.wf(),
        state.pool is Some,
        state.stake_refusal(caller, amount, transferred) is None,
    ensures
        state.staked(caller, amount, now).wf(),
{
    lemma_stake_accounts_consistent(state, caller);
    let done = state.stake_accounts(caller).settled(amount, now);
    let entry = UserEntry { owner: caller.key, record: done.user };
    let after = state.staked(caller, amount, now);
    if state.holds(caller.key) {
        let i = state.slot(caller.key);
        lemma_sum_update(state.users, i, entry);
        assert(after.users =~= state.users.update(i, entry));
        assert forall|a: int, b: int| 0 <= a < b < after.users.len() implies after.users[a].owner
            != after.users[b].owner by {
            assert(after.users[a].owner == state.users[a].owner);
            assert(after.users[b].owner == state.users[b].owner);
        }
    } else {
        lemma_sum_push(state.users, entry);
        assert forall|a: int, b: int| 0 <= a < b < after.users.len() implies after.users[a].owner
            != after.users[b].owner by {
            if b == state.users.len() {
                assert(state.users[a].owner != caller.key);
            }
        }
    }
}

/// A withdrawal that goes through keeps the ledger well formed.
pub proof fn lemma_unstaked_wf(state: LedgerState, caller: Wallet, now: i64)
    requires
        state.wf(),
        state.unstake_refusal(caller, now) is None,
    ensures
        state.unstaked(caller).wf(),
{
    lemma_unstake_accounts_consistent(state, caller);
    let entry = UserEntry { owner: caller.key, record: User::empty() };
    let after = state.unstaked(caller);
    let i = state.slot(caller.key);
    assert(state.holds(caller.key));
    lemma_sum_update(state.users, i, entry);
    assert(after.users =~= state.users.update(i, entry));
    assert forall|a: int, b: int| 0 <= a < b < after.users.len() implies after.users[a].owner
        != after.users[b].owner by {
        assert(after.users[a].owner == state.users[a].owner);
        assert(after.users[b].owner == state.users[b].owner);
    }
}

} // verus!
