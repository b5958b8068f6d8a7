//! Reward accounting for a liquidity program: trade and stake ledgers,
//! reward formulas, and the epoch and vesting gates that release rewards.
//!
//! Each operation takes the records it reads and the current clock time,
//! updates the records in place, and returns the amount of reward tokens to
//! mint or of staked tokens to move. On any error the records are left as
//! they were, so a caller can abort the surrounding transaction.
pub mod engine;
pub mod error;
pub mod laws;
pub mod rates;
pub mod records;

pub use engine::{
    claim_stake_rewards, claim_trade_rewards, initialize, record_trade, stake_lat, withdraw_stake,
    ClaimRewards, ClaimTradeRewards, Initialize, RecordTrade, StakeLat, WithdrawStake,
};
pub use error::ErrorCode;
pub use rates::{
    effective_stake_rate, trade_multiplier, BASE_MULTIPLIER, HIGH_REWARD_MULTIPLIER, VESTING_PERIOD,
};
pub use records::{Key, ProgramState, Stake, TraderStats};
