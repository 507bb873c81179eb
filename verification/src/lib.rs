//! A time-locked staking ledger.
//!
//! Participants deposit native currency into a shared pool and may withdraw
//! it only once a configurable lock period has passed since their latest
//! deposit. The host that stores the records, reads the clock and moves the
//! currency stays outside: this crate holds the records as plain values and
//! decides, for each operation, whether it goes through and what the records
//! and balances are afterwards.

pub mod account;
pub mod error;
pub mod instructions;
pub mod laws;
pub mod ledger;
pub mod model;
pub mod state;

pub use account::{Identity, Wallet};
pub use error::StakingError;
pub use instructions::{
    adjust_staking_period, initialize, stake, unstake, AdjustStakingPeriod, Initialize, Stake,
    Unstake,
};
pub use ledger::Ledger;
pub use model::{LedgerState, Operation, UserEntry};
pub use state::{StakingPool, User};
