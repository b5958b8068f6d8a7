use vstd::prelude::*;

verus! {

/// Why an operation was refused. Every error leaves the records unchanged.
#[derive(Debug, Clone, Copy, PartialEq, Eq, Structural)]
pub enum ErrorCode {
    /// An addition, multiplication or subtraction left the fixed-width range.
    CalculationError,
    /// A withdrawal asked for more than is staked.
    InsufficientStake,
    /// A trade-reward claim came before the epoch duration had elapsed.
    EpochNotEnded,
    /// A trade-reward claim found nothing pending.
    NoPendingRewards,
    /// A stake-reward claim came before the vesting period had elapsed.
    VestingPeriodNotCompleted,
    /// The global state was created already.
    AlreadyInitialized,
}

impl ErrorCode {
    /// The human-readable message shown with this error.
    pub fn message(&self) -> (r: &'static str)
        ensures
            *self == ErrorCode::CalculationError ==> r@ == "Calculation overflow error."@,
            *self == ErrorCode::InsufficientStake ==> r@ == "Insufficient staked amount."@,
            *self == ErrorCode::EpochNotEnded ==> r@ == "Epoch duration has not ended for claiming trade rewards."@,
            *self == ErrorCode::NoPendingRewards ==> r@ == "No pending rewards to claim."@,
            *self == ErrorCode::VestingPeriodNotCompleted ==> r@ == "Vesting period of 7 days has not been completed."@,
            *self == ErrorCode::AlreadyInitialized ==> r@ == "The program state is already initialized."@,
    {
        match self {
            ErrorCode::CalculationError => "Calculation overflow error.",
            ErrorCode::InsufficientStake => "Insufficient staked amount.",
            ErrorCode::EpochNotEnded => "Epoch duration has not ended for claiming trade rewards.",
            ErrorCode::NoPendingRewards => "No pending rewards to claim.",
            ErrorCode::VestingPeriodNotCompleted => "Vesting period of 7 days has not been completed.",
            ErrorCode::AlreadyInitialized => "The program state is already initialized.",
        }
    }
}

} // verus!
