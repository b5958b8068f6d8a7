use vstd::prelude::*;

verus! {

/// An account identity, as the 32 bytes of its public key.
pub type Key = [u8; 32];

/// Global configuration and aggregate counters, created once.
#[derive(Debug, Clone, Copy, PartialEq, Eq)]
pub struct ProgramState {
    /// The configuring authority; fixed at creation.
    pub admin: Key,
    /// The reward token the program mints.
    pub lat_mint: Key,
    /// Reward units per unit of trade volume.
    pub trade_reward_rate: u64,
    /// Reward units per staked unit per second.
    pub stake_reward_rate: u64,
    /// Number of trades recorded so far.
    pub total_trades: u64,
    /// Derivation bump of the mint authority.
    pub mint_auth_bump: u8,
    /// Derivation bump of the staking-vault authority.
    pub vault_auth_bump: u8,
    /// Trade volume accumulated in the current epoch (never reset).
    pub epoch_trade_volume: u64,
    /// Seconds that must pass between two trade-reward claims of a trader.
    pub trade_epoch_duration: i64,
    /// Trade volume accumulated over all traders.
    pub pool_trading_volume: u64,
    /// Volume at which the multipliers change behaviour.
    pub pool_volume_threshold: u64,
    /// Percentage applied to the stake reward rate above the threshold.
    pub pool_boost_multiplier: u64,
}

/// One trader's trade ledger.
#[derive(Debug, Clone, Copy, PartialEq, Eq)]
pub struct TraderStats {
    pub trade_count: u64,
    pub total_volume: u64,
    /// Accrued reward not yet minted.
    pub pending_trade_rewards: u64,
    /// Time of the first trade or of the last successful claim; 0 before any trade.
    pub last_claim: i64,
}

/// One trader's staking ledger.
#[derive(Debug, Clone, Copy, PartialEq, Eq)]
pub struct Stake {
    /// Tokens currently held in the staking vault for this trader.
    pub amount: u64,
    /// Time of the last reward computation or stake.
    pub last_updated: i64,
    /// Time of the first stake; 0 before it, fixed after it.
    pub stake_start: i64,
}

impl TraderStats {
    /// A ledger for a trader who has not traded yet.
    pub fn new() -> (r: TraderStats)
        ensures
            r.trade_count == 0,
            r.total_volume == 0,
            r.pending_trade_rewards == 0,
            r.last_claim == 0,
    {
        TraderStats { trade_count: 0, total_volume: 0, pending_trade_rewards: 0, last_claim: 0 }
    }
}

impl Stake {
    /// A ledger for a trader who has not staked yet.
    pub fn new() -> (r: Stake)
        ensures
            r.amount == 0,
            r.last_updated == 0,
            r.stake_start == 0,
    {
        Stake { amount: 0, last_updated: 0, stake_start: 0 }
    }
}

} // verus!
