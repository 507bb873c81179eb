//! The ways in which an operation can be turned down.

use vstd::prelude::*;

verus! {

/// Why an operation was turned down. Every failure leaves the records and
/// the balances as they were.
#[derive(Clone, Copy, Debug, PartialEq, Eq, Structural)]
pub enum StakingError {
    /// The pool has been set up before.
    AlreadyInitialized,
    /// The caller is not the pool's authority.
    Unauthorized,
    /// The caller holds less than the amount to be staked.
    InsufficientFunds,
    /// The currency could not be moved.
    TransferFailed,
    /// The caller has nothing staked.
    NoActiveStake,
    /// The lock period of the caller's stake has not run out yet.
    StakingPeriodNotComplete,
}

impl StakingError {
    /// The text that describes each error.
    pub open spec fn message_text(self) -> Seq<char> {
        match self {
            StakingError::AlreadyInitialized => "Staking pool is already initialized"@,
            StakingError::Unauthorized => "Caller is not the pool authority"@,
            StakingError::InsufficientFunds => "Insufficient funds to stake"@,
            StakingError::TransferFailed => "Transfer failed"@,
            StakingError::NoActiveStake => "No active stake"@,
            StakingError::StakingPeriodNotComplete => "Staking period is not complete"@,
        }
    }

    /// A short description of the error, for the caller to show.
    pub fn message(&self) -> (text: &'static str)
        ensures
            text@ == self.message_text(),
    {
        match self {
            StakingError::AlreadyInitialized => "Staking pool is already initialized",
            StakingError::Unauthorized => "Caller is not the pool authority",
            StakingError::InsufficientFunds => "Insufficient funds to stake",
            StakingError::TransferFailed => "Transfer failed",
            StakingError::NoActiveStake => "No active stake",
            StakingError::StakingPeriodNotComplete => "Staking period is not complete",
        }
    }
}

} // verus!
