//! What holds of the ledger whatever is done with it.

use vstd::prelude::*;
use crate::account::{Identity, Wallet};
use crate::error::StakingError;
use crate::model::{
    lemma_adjusted_wf, lemma_initialized_wf, lemma_slot_found, lemma_stake_accounts_consistent,
    lemma_staked_wf, lemma_unstake_accounts_consistent, lemma_unstaked_wf, staked_sum,
    LedgerState, Operation, UserEntry,
};
use crate::state::User;

verus! {

/// Every operation keeps the ledger well formed.
pub proof fn lemma_step_wf(state: LedgerState, op: Operation)
    requires
        state.wf(),
    ensures
        state.step(op).wf(),
{
    match op {
        Operation::InitializePool { caller, staking_period } => {
            if state.initialize_refusal() is None {
                lemma_initialized_wf(state, caller, staking_period);
            }
        },
        Operation::AdjustPeriod { caller, new_period } => {
            if state.adjust_refusal(caller) is None {
                lemma_adjusted_wf(state, caller, new_period);
            }
        },
        Operation::Stake { account, amount, now, transferred } => {
            if state.pool is Some && state.stake_refusal(account, amount, transferred) is None {
                lemma_staked_wf(state, account, amount, now, transferred);
            }
        },
        Operation::Unstake { account, now } => {
            if state.unstake_refusal(account, now) is None {
                lemma_unstaked_wf(state, account, now);
            }
        },
    }
}

/// In every ledger that the operations can reach from an empty one, the
/// pool's total is the sum of what the users have staked, and the pool's
/// account holds at least that total.
pub proof fn lemma_total_is_sum_of_stakes(vault: Wallet, ops: Seq<Operation>)
    ensures
        LedgerState::empty(vault).run(ops).wf(),
        LedgerState::empty(vault).run(ops).total_staked() == staked_sum(
            LedgerState::empty(vault).run(ops).users,
        ),
        LedgerState::empty(vault).run(ops).total_staked() <= LedgerState::empty(vault).run(
            ops,
        ).vault.lamports,
    decreases ops.len(),
{
    if ops.len() > 0 {
        lemma_total_is_sum_of_stakes(vault, ops.drop_last());
        lemma_step_wf(LedgerState::empty(vault).run(ops.drop_last()), ops.last());
    }
}

/// An operation on a well-formed ledger in which amount and timestamp of
/// every record are zero together leaves them so exactly when it keeps the
/// clock of the record it writes.
pub proof fn lemma_step_clocks(state: LedgerState, op: Operation)
    requires
        state.wf(),
        state.clocks_agree(),
    ensures
        state.step(op).clocks_agree() <==> state.keeps_clock(op),
{
    let after = state.step(op);
    match op {
        Operation::Stake { account, amount, now, transferred } => {
            if state.pool is Some && state.stake_refusal(account, amount, transferred) is None {
                let record = state.stake_accounts(account).settled(amount, now).user;
                let entry = UserEntry { owner: account.key, record };
                assert(record.staked_amount == state.staked_by(account.key) + amount) by {
                    lemma_staked_wf(state, account, amount, now, transferred);
                    lemma_stake_accounts_consistent(state, account);
                }
                if state.holds(account.key) {
                    let i = state.slot(account.key);
                    assert(after.users[i] == entry);
                    assert forall|j: int| 0 <= j < after.users.len() && j != i implies (
                    #[trigger] after.users[j]).record.clock_agrees() by {
                        assert(after.users[j] == state.users[j]);
                    }
                } else {
                    let i = state.users.len() as int;
                    assert(after.users[i] == entry);
                    assert forall|j: int| 0 <= j < after.users.len() && j != i implies (
                    #[trigger] after.users[j]).record.clock_agrees() by {
                        assert(after.users[j] == state.users[j]);
                    }
                }
            }
        },
        Operation::Unstake { account, now } => {
            if state.unstake_refusal(account, now) is None {
                let i = state.slot(account.key);
                assert(state.holds(account.key));
                assert forall|j: int| 0 <= j < after.users.len() implies (
                #[trigger] after.users[j]).record.clock_agrees() by {
                    if j != i {
                        assert(after.users[j] == state.users[j]);
                    }
                }
            }
        },
        _ => {},
    }
}

/// In every ledger reached from an empty one by operations that each keep
/// the clock of the record they write, amount and timestamp of every record
/// are zero together.
pub proof fn lemma_amount_and_timestamp_zero_together(vault: Wallet, ops: Seq<Operation>)
    requires
        forall|n: int|
            0 <= n < ops.len() ==> #[trigger] LedgerState::empty(vault).run(
                ops.take(n),
            ).keeps_clock(ops[n]),
    ensures
        LedgerState::empty(vault).run(ops).clocks_agree(),
    decreases ops.len(),
{
    if ops.len() > 0 {
        let before = ops.drop_last();
        assert forall|n: int| 0 <= n < before.len() implies #[trigger] LedgerState::empty(
            vault,
        ).run(before.take(n)).keeps_clock(before[n]) by {
            assert(before.take(n) =~= ops.take(n));
            assert(LedgerState::empty(vault).run(ops.take(n)).keeps_clock(ops[n]));
        }
        lemma_amount_and_timestamp_zero_together(vault, before);
        lemma_total_is_sum_of_stakes(vault, before);
        assert(ops.take(ops.len() - 1) =~= before);
        assert(LedgerState::empty(vault).run(ops.take(ops.len() - 1)).keeps_clock(
            ops[ops.len() - 1],
        ));
        lemma_step_clocks(LedgerState::empty(vault).run(before), ops.last());
    }
}

/// Nobody but the pool's authority changes the lock period: for any other
/// caller the change is turned down with `Unauthorized` and the ledger
/// stays as it was.
pub proof fn lemma_only_authority_adjusts(state: LedgerState, caller: Identity, new_period: i64)
    requires
        state.pool matches Some(pool) ==> caller != pool.authority,
    ensures
        state.adjust_refusal(caller) == Some(StakingError::Unauthorized),
        state.step(Operation::AdjustPeriod { caller, new_period }) == state,
{
}

/// A stake can be withdrawn from the moment that lies one lock period after
/// its latest deposit, and not before: up to then the withdrawal is turned
/// down with `StakingPeriodNotComplete`, from then on it goes through
/// whenever the caller's account can take the amount.
pub proof fn lemma_unstake_waits_for_lock(state: LedgerState, caller: Wallet, now: i64)
    requires
        state.wf(),
        state.pool is Some,
        state.record_of(caller.key) matches Some(record) && record.staked_amount > 0,
        caller.lamports + state.staked_by(caller.key) <= u64::MAX,
    ensures
        now < state.record_of(caller.key)->0.stake_timestamp + state.pool->0.staking_period
            ==> state.unstake_refusal(caller, now) == Some(StakingError::StakingPeriodNotComplete),
        now >= state.record_of(caller.key)->0.stake_timestamp + state.pool->0.staking_period
            ==> state.unstake_refusal(caller, now) is None,
{
    lemma_unstake_accounts_consistent(state, caller);
}

/// After a withdrawal that went through, or one that found no stake, the
/// next withdrawal by the same caller finds no stake, whenever it is made
/// and whatever the caller's account holds by then.
pub proof fn lemma_second_unstake_finds_no_stake(
    state: LedgerState,
    caller: Wallet,
    now: i64,
    again: Wallet,
    later: i64,
)
    requires
        state.wf(),
        again.key == caller.key,
        state.unstake_refusal(caller, now) is None || state.unstake_refusal(caller, now) == Some(
            StakingError::NoActiveStake,
        ),
    ensures
        state.step(Operation::Unstake { account: caller, now }).unstake_refusal(again, later)
            == Some(
            StakingError::NoActiveStake,
        ),
{
    if state.unstake_refusal(caller, now) is None {
        let after = state.unstaked(caller);
        let i = state.slot(caller.key);
        assert(state.holds(caller.key));
        lemma_unstaked_wf(state, caller, now);
        lemma_slot_found(after, caller.key, i);
    }
}

/// A deposit after a full withdrawal is written into the record that the
/// withdrawal cleared, and ends as the first deposit of a user who never
/// had a record: turned down for the same reason, or leaving the same
/// record, pool and balances.
pub proof fn lemma_restake_is_fresh_stake(
    state: LedgerState,
    leaver: Wallet,
    left_at: i64,
    fresh: LedgerState,
    caller: Wallet,
    amount: u64,
    now: i64,
    transferred: bool,
)
    requires
        state.wf(),
        state.unstake_refusal(leaver, left_at) is None,
        caller.key == leaver.key,
        fresh.wf(),
        !fresh.holds(caller.key),
        fresh.pool == state.unstaked(leaver).pool,
        fresh.vault == state.unstaked(leaver).vault,
    ensures
        state.unstaked(leaver).stake_refusal(caller, amount, transferred) == fresh.stake_refusal(
            caller,
            amount,
            transferred,
        ),
        fresh.stake_refusal(caller, amount, transferred) is None ==> {
            let restaked = state.unstaked(leaver).staked(caller, amount, now);
            let first = fresh.staked(caller, amount, now);
            &&& restaked.record_of(caller.key) == Some(
                User { staked_amount: amount, stake_timestamp: now },
            )
            &&& first.record_of(caller.key) == restaked.record_of(caller.key)
            &&& first.pool == restaked.pool
            &&& first.vault == restaked.vault
            &&& restaked.users.len() == state.users.len()
            &&& restaked.slot(caller.key) == state.slot(caller.key)
            &&& first.users.len() == fresh.users.len() + 1
        },
{
    let after = state.unstaked(leaver);
    let i = state.slot(caller.key);
    assert(state.holds(caller.key));
    lemma_unstaked_wf(state, leaver, left_at);
    lemma_slot_found(after, caller.key, i);
    if fresh.stake_refusal(caller, amount, transferred) is None {
        let restaked = after.staked(caller, amount, now);
        let first = fresh.staked(caller, amount, now);
        lemma_staked_wf(after, caller, amount, now, transferred);
        lemma_staked_wf(fresh, caller, amount, now, transferred);
        lemma_slot_found(restaked, caller.key, i);
        lemma_slot_found(first, caller.key, fresh.users.len() as int);
    }
}

/// In a well-formed ledger the pool's account covers every stake: a
/// withdrawal whose lock has run out is turned down only when the caller's
/// account cannot take the amount.
pub proof fn lemma_unstake_is_backed(state: LedgerState, caller: Wallet, now: i64)
    requires
        state.wf(),
        state.unstake_refusal(caller, now) == Some(StakingError::TransferFailed),
    ensures
        caller.lamports + state.staked_by(caller.key) > u64::MAX,
{
    lemma_unstake_accounts_consistent(state, caller);
}

/// A deposit or a withdrawal that goes through moves currency between the
/// caller's account and the pool's account: what the two hold together
/// stays the same.
pub proof fn lemma_value_is_conserved(state: LedgerState, op: Operation)
    requires
        state.wf(),
    ensures
        match op {
            Operation::Stake { account, amount, now, transferred } => state.pool is Some
                && state.stake_refusal(account, amount, transferred) is None ==> account.debited(
                amount,
            ).lamports + state.step(op).vault.lamports == account.lamports
                + state.vault.lamports,
            Operation::Unstake { account, now } => state.unstake_refusal(account, now) is None
                ==> account.credited(state.staked_by(account.key)).lamports + state.step(
                op,
            ).vault.lamports == account.lamports + state.vault.lamports,
            _ => state.step(op).vault == state.vault,
        },
{
    match op {
        Operation::Unstake { account, now } => {
            if state.unstake_refusal(account, now) is None {
                lemma_unstake_accounts_consistent(state, account);
            }
        },
        _ => {},
    }
}

} // verus!
