use token_staking::ledger::Ledger;
use token_staking::{Identity, StakingError, StakingPool, User, Wallet};

fn id(tag: u8) -> Identity {
    Identity::new([tag; 32])
}

fn vault() -> Wallet {
    Wallet::new(id(200), 0)
}

fn open_ledger(authority: Identity, period: i64) -> Ledger {
    let mut ledger = Ledger::new(vault());
    assert_eq!(ledger.initialize_pool(authority, period), Ok(()));
    ledger
}

#[test]
fn new_ledger_is_empty() {
    let ledger = Ledger::new(Wallet::new(id(200), 17));
    assert_eq!(ledger.pool(), None);
    assert_eq!(ledger.vault(), Wallet::new(id(200), 17));
    assert_eq!(ledger.total_staked(), 0);
    assert_eq!(ledger.user_count(), 0);
    assert_eq!(ledger.user(&id(1)), None);
}

#[test]
fn initialize_sets_authority_period_and_zero_total() {
    let ledger = open_ledger(id(1), 3600);
    assert_eq!(
        ledger.pool(),
        Some(StakingPool { authority: id(1), staking_period: 3600, total_staked: 0 })
    );
}

#[test]
fn second_initialize_is_turned_down() {
    let mut ledger = open_ledger(id(1), 3600);
    assert_eq!(ledger.initialize_pool(id(2), 10), Err(StakingError::AlreadyInitialized));
    assert_eq!(
        ledger.pool(),
        Some(StakingPool { authority: id(1), staking_period: 3600, total_staked: 0 })
    );
}

#[test]
fn initialize_takes_zero_and_negative_periods() {
    let zero = open_ledger(id(1), 0);
    assert_eq!(zero.pool().unwrap().staking_period, 0);
    let negative = open_ledger(id(1), -5);
    assert_eq!(negative.pool().unwrap().staking_period, -5);
}

#[test]
fn authority_adjusts_period() {
    let mut ledger = open_ledger(id(1), 100);
    assert_eq!(ledger.adjust_period(id(1), 250), Ok(()));
    assert_eq!(
        ledger.pool(),
        Some(StakingPool { authority: id(1), staking_period: 250, total_staked: 0 })
    );
}

#[test]
fn stranger_cannot_adjust_period() {
    let mut ledger = open_ledger(id(1), 100);
    assert_eq!(ledger.adjust_period(id(2), 250), Err(StakingError::Unauthorized));
    assert_eq!(ledger.pool().unwrap().staking_period, 100);
    assert_eq!(ledger.pool().unwrap().authority, id(1));
}

#[test]
fn adjust_without_pool_is_unauthorized() {
    let mut ledger = Ledger::new(vault());
    assert_eq!(ledger.adjust_period(id(1), 250), Err(StakingError::Unauthorized));
    assert_eq!(ledger.pool(), None);
}

#[test]
fn identities_differing_in_last_byte_are_distinct() {
    let mut other = [1u8; 32];
    other[31] = 2;
    let mut ledger = open_ledger(id(1), 100);
    assert_eq!(ledger.adjust_period(Identity::new(other), 5), Err(StakingError::Unauthorized));
    assert!(Identity::new(other) != id(1));
    assert!(Identity::new([1u8; 32]) == id(1));
    assert_eq!(Identity::new(other).to_bytes(), other);
}

#[test]
fn time_lock_boundary() {
    let mut ledger = open_ledger(id(1), 100);
    let mut a = Wallet::new(id(10), 1_000);
    assert_eq!(ledger.stake(&mut a, 400, 0, true), Ok(()));
    assert_eq!(ledger.unstake(&mut a, 99), Err(StakingError::StakingPeriodNotComplete));
    assert_eq!(ledger.user(&id(10)), Some(User { staked_amount: 400, stake_timestamp: 0 }));
    assert_eq!(a.lamports, 600);
    assert_eq!(ledger.unstake(&mut a, 100), Ok(400));
    assert_eq!(a.lamports, 1_000);
}

#[test]
fn stake_then_unstake_after_period() {
    let t: i64 = 1_700_000_000;
    let mut ledger = open_ledger(id(1), 3600);
    let mut a = Wallet::new(id(10), 2_000);
    assert_eq!(ledger.stake(&mut a, 500, t, true), Ok(()));
    assert_eq!(ledger.total_staked(), 500);
    assert_eq!(ledger.vault().lamports, 500);
    assert_eq!(a.lamports, 1_500);
    assert_eq!(ledger.unstake(&mut a, t + 1800), Err(StakingError::StakingPeriodNotComplete));
    assert_eq!(ledger.total_staked(), 500);
    assert_eq!(a.lamports, 1_500);
    assert_eq!(ledger.unstake(&mut a, t + 3600), Ok(500));
    assert_eq!(ledger.total_staked(), 0);
    assert_eq!(ledger.vault().lamports, 0);
    assert_eq!(a.lamports, 2_000);
    assert_eq!(ledger.user(&id(10)), Some(User { staked_amount: 0, stake_timestamp: 0 }));
}

#[test]
fn top_up_resets_lock_for_whole_stake() {
    let mut ledger = open_ledger(id(1), 100);
    let mut a = Wallet::new(id(10), 1_000);
    assert_eq!(ledger.stake(&mut a, 100, 0, true), Ok(()));
    assert_eq!(ledger.stake(&mut a, 50, 50, true), Ok(()));
    assert_eq!(ledger.user(&id(10)), Some(User { staked_amount: 150, stake_timestamp: 50 }));
    assert_eq!(ledger.total_staked(), 150);
    assert_eq!(ledger.user_count(), 1);
    assert_eq!(ledger.unstake(&mut a, 100), Err(StakingError::StakingPeriodNotComplete));
    assert_eq!(ledger.unstake(&mut a, 149), Err(StakingError::StakingPeriodNotComplete));
    assert_eq!(ledger.unstake(&mut a, 150), Ok(150));
    assert_eq!(a.lamports, 1_000);
}

#[test]
fn second_unstake_finds_no_stake() {
    let mut ledger = open_ledger(id(1), 10);
    let mut a = Wallet::new(id(10), 1_000);
    assert_eq!(ledger.stake(&mut a, 300, 5, true), Ok(()));
    assert_eq!(ledger.unstake(&mut a, 15), Ok(300));
    assert_eq!(ledger.unstake(&mut a, 15), Err(StakingError::NoActiveStake));
    assert_eq!(ledger.unstake(&mut a, 1_000_000), Err(StakingError::NoActiveStake));
    assert_eq!(a.lamports, 1_000);
    assert_eq!(ledger.total_staked(), 0);
}

#[test]
fn unstake_without_record_finds_no_stake() {
    let mut ledger = open_ledger(id(1), 10);
    let mut a = Wallet::new(id(10), 1_000);
    assert_eq!(ledger.unstake(&mut a, 15), Err(StakingError::NoActiveStake));
    assert_eq!(ledger.user(&id(10)), None);
    assert_eq!(ledger.user_count(), 0);
}

#[test]
fn unstake_without_pool_finds_no_stake() {
    let mut ledger = Ledger::new(vault());
    let mut a = Wallet::new(id(10), 1_000);
    assert_eq!(ledger.unstake(&mut a, 15), Err(StakingError::NoActiveStake));
    assert_eq!(a.lamports, 1_000);
}

#[test]
fn restake_reuses_record_like_fresh_stake() {
    let mut ledger = open_ledger(id(1), 10);
    let mut a = Wallet::new(id(10), 1_000);
    let mut b = Wallet::new(id(11), 1_000);
    assert_eq!(ledger.stake(&mut a, 300, 5, true), Ok(()));
    assert_eq!(ledger.stake(&mut b, 70, 6, true), Ok(()));
    assert_eq!(ledger.unstake(&mut a, 15), Ok(300));
    assert_eq!(ledger.user_count(), 2);
    assert_eq!(ledger.stake(&mut a, 40, 20, true), Ok(()));
    assert_eq!(ledger.user_count(), 2);
    assert_eq!(ledger.user(&id(10)), Some(User { staked_amount: 40, stake_timestamp: 20 }));

    let mut fresh = open_ledger(id(1), 10);
    let mut c = Wallet::new(id(10), 1_000);
    assert_eq!(fresh.stake(&mut c, 40, 20, true), Ok(()));
    assert_eq!(fresh.user(&id(10)), ledger.user(&id(10)));
    assert_eq!(c.lamports, 960);
    assert_eq!(a.lamports, 960);
    assert_eq!(ledger.unstake(&mut a, 29), Err(StakingError::StakingPeriodNotComplete));
    assert_eq!(fresh.unstake(&mut c, 29), Err(StakingError::StakingPeriodNotComplete));
    assert_eq!(ledger.unstake(&mut a, 30), Ok(40));
    assert_eq!(fresh.unstake(&mut c, 30), Ok(40));
}

#[test]
fn total_is_sum_of_user_stakes() {
    let mut ledger = open_ledger(id(1), 10);
    let mut a = Wallet::new(id(10), 1_000);
    let mut b = Wallet::new(id(11), 1_000);
    let mut c = Wallet::new(id(12), 1_000);
    assert_eq!(ledger.stake(&mut a, 100, 1, true), Ok(()));
    assert_eq!(ledger.stake(&mut b, 200, 2, true), Ok(()));
    assert_eq!(ledger.stake(&mut c, 300, 3, true), Ok(()));
    assert_eq!(ledger.stake(&mut a, 11, 4, true), Ok(()));
    let sum = |l: &Ledger| {
        l.user(&id(10)).unwrap().staked_amount
            + l.user(&id(11)).unwrap().staked_amount
            + l.user(&id(12)).unwrap().staked_amount
    };
    assert_eq!(ledger.total_staked(), 611);
    assert_eq!(sum(&ledger), 611);
    assert_eq!(ledger.unstake(&mut b, 12), Ok(200));
    assert_eq!(ledger.total_staked(), 411);
    assert_eq!(sum(&ledger), 411);
    assert_eq!(ledger.unstake(&mut c, 12), Err(StakingError::StakingPeriodNotComplete));
    assert_eq!(ledger.total_staked(), 411);
    assert_eq!(sum(&ledger), 411);
    assert_eq!(ledger.vault().lamports, 411);
}

#[test]
fn amount_and_timestamp_are_zero_together() {
    let mut ledger = open_ledger(id(1), 10);
    let mut a = Wallet::new(id(10), 1_000);
    assert_eq!(ledger.stake(&mut a, 100, 7, true), Ok(()));
    let staked = ledger.user(&id(10)).unwrap();
    assert!(staked.staked_amount != 0 && staked.stake_timestamp != 0);
    assert_eq!(ledger.unstake(&mut a, 17), Ok(100));
    let cleared = ledger.user(&id(10)).unwrap();
    assert!(cleared.staked_amount == 0 && cleared.stake_timestamp == 0);
}

#[test]
fn empty_deposit_sets_timestamp_only() {
    let mut ledger = open_ledger(id(1), 10);
    let mut a = Wallet::new(id(10), 1_000);
    assert_eq!(ledger.stake(&mut a, 0, 5, true), Ok(()));
    assert_eq!(ledger.user(&id(10)), Some(User { staked_amount: 0, stake_timestamp: 5 }));
    assert_eq!(ledger.unstake(&mut a, 100), Err(StakingError::NoActiveStake));
}

#[test]
fn stake_beyond_balance_is_insufficient_funds() {
    let mut ledger = open_ledger(id(1), 10);
    let mut a = Wallet::new(id(10), 99);
    assert_eq!(ledger.stake(&mut a, 100, 5, false), Err(StakingError::InsufficientFunds));
    assert_eq!(ledger.stake(&mut a, 100, 5, true), Err(StakingError::InsufficientFunds));
    assert_eq!(a.lamports, 99);
    assert_eq!(ledger.user(&id(10)), None);
    assert_eq!(ledger.total_staked(), 0);
}

#[test]
fn stake_with_refused_transfer_fails() {
    let mut ledger = open_ledger(id(1), 10);
    let mut a = Wallet::new(id(10), 100);
    assert_eq!(ledger.stake(&mut a, 100, 5, false), Err(StakingError::TransferFailed));
    assert_eq!(a.lamports, 100);
    assert_eq!(ledger.user(&id(10)), None);
    assert_eq!(ledger.user_count(), 0);
    assert_eq!(ledger.total_staked(), 0);
    assert_eq!(ledger.vault().lamports, 0);
}

#[test]
fn stake_into_full_vault_fails() {
    let mut ledger = Ledger::new(Wallet::new(id(200), u64::MAX - 5));
    assert_eq!(ledger.initialize_pool(id(1), 10), Ok(()));
    let mut a = Wallet::new(id(10), 100);
    assert_eq!(ledger.stake(&mut a, 6, 5, true), Err(StakingError::TransferFailed));
    assert_eq!(ledger.stake(&mut a, 5, 5, true), Ok(()));
    assert_eq!(ledger.vault().lamports, u64::MAX);
    assert_eq!(a.lamports, 95);
}

#[test]
fn unstake_into_full_account_fails() {
    let mut ledger = open_ledger(id(1), 10);
    let mut a = Wallet::new(id(10), 100);
    assert_eq!(ledger.stake(&mut a, 100, 5, true), Ok(()));
    let mut rich = Wallet::new(id(10), u64::MAX - 99);
    assert_eq!(ledger.unstake(&mut rich, 15), Err(StakingError::TransferFailed));
    assert_eq!(ledger.total_staked(), 100);
    let mut fits = Wallet::new(id(10), u64::MAX - 100);
    assert_eq!(ledger.unstake(&mut fits, 15), Ok(100));
    assert_eq!(fits.lamports, u64::MAX);
}

#[test]
fn adjusted_period_counts_for_earlier_stakes() {
    let mut ledger = open_ledger(id(1), 100);
    let mut a = Wallet::new(id(10), 1_000);
    assert_eq!(ledger.stake(&mut a, 10, 1_000, true), Ok(()));
    assert_eq!(ledger.adjust_period(id(1), 20), Ok(()));
    assert_eq!(ledger.unstake(&mut a, 1_019), Err(StakingError::StakingPeriodNotComplete));
    assert_eq!(ledger.unstake(&mut a, 1_020), Ok(10));
}

#[test]
fn non_positive_period_unlocks_at_once() {
    let mut ledger = open_ledger(id(1), -50);
    let mut a = Wallet::new(id(10), 1_000);
    assert_eq!(ledger.stake(&mut a, 10, 1_000, true), Ok(()));
    assert_eq!(ledger.unstake(&mut a, 949), Err(StakingError::StakingPeriodNotComplete));
    assert_eq!(ledger.unstake(&mut a, 950), Ok(10));
}

#[test]
fn lock_sum_does_not_wrap() {
    let mut ledger = open_ledger(id(1), i64::MAX);
    let mut a = Wallet::new(id(10), 1_000);
    assert_eq!(ledger.stake(&mut a, 10, 1, true), Ok(()));
    assert_eq!(ledger.unstake(&mut a, i64::MAX), Err(StakingError::StakingPeriodNotComplete));
    assert_eq!(ledger.unstake(&mut a, i64::MIN), Err(StakingError::StakingPeriodNotComplete));
    assert_eq!(ledger.adjust_period(id(1), i64::MAX - 1), Ok(()));
    assert_eq!(ledger.unstake(&mut a, i64::MAX), Ok(10));
}
