use vstd::prelude::*;

use crate::error::ErrorCode;
use crate::rates::{
    effective_stake_rate, effective_stake_rate_spec, trade_multiplier, trade_multiplier_spec,
    trade_reward_spec, VESTING_PERIOD,
};
use crate::records::{Key, ProgramState, Stake, TraderStats};

verus! {

/// The records and signer identities that creating the global state needs.
/// `state` is `None` until the global state has been created.
pub struct Initialize {
    pub state: Option<ProgramState>,
    pub admin: Key,
    pub lat_mint: Key,
    pub mint_auth_bump: u8,
    pub vault_auth_bump: u8,
}

/// The records that recording a trade reads and changes.
pub struct RecordTrade {
    pub state: ProgramState,
    pub trader_stats: TraderStats,
}

/// The records that a trade-reward claim reads and changes.
pub struct ClaimTradeRewards {
    pub state: ProgramState,
    pub trader_stats: TraderStats,
}

/// The records that staking reads and changes.
pub struct StakeLat {
    pub state: ProgramState,
    pub stake: Stake,
}

/// The records that a stake-reward claim reads and changes.
pub struct ClaimRewards {
    pub state: ProgramState,
    pub stake: Stake,
}

/// The records that a withdrawal reads and changes.
pub struct WithdrawStake {
    pub state: ProgramState,
    pub stake: Stake,
}

/// Creates the global state with zeroed counters and the given configuration.
/// Fails with `AlreadyInitialized`, changing nothing, where it exists already.
pub fn initialize(
    ctx: &mut Initialize,
    trade_reward_rate: u64,
    stake_reward_rate: u64,
    trade_epoch_duration: i64,
    pool_volume_threshold: u64,
    pool_boost_multiplier: u64,
) -> (r: Result<(), ErrorCode>)
    ensures
        old(ctx).state is Some ==> r == Err::<(), ErrorCode>(ErrorCode::AlreadyInitialized) && *final(ctx) == *old(ctx),
        old(ctx).state is None ==> r is Ok && final(ctx).admin == old(ctx).admin && final(ctx).lat_mint == old(ctx).lat_mint
            && final(ctx).mint_auth_bump == old(ctx).mint_auth_bump
            && final(ctx).vault_auth_bump == old(ctx).vault_auth_bump
            && final(ctx).state == Some(
            ProgramState {
                admin: old(ctx).admin,
                lat_mint: old(ctx).lat_mint,
                trade_reward_rate,
                stake_reward_rate,
                total_trades: 0,
                mint_auth_bump: old(ctx).mint_auth_bump,
                vault_auth_bump: old(ctx).vault_auth_bump,
                epoch_trade_volume: 0,
                trade_epoch_duration,
                pool_trading_volume: 0,
                pool_volume_threshold,
                pool_boost_multiplier,
            },
        ),
{
    if ctx.state.is_some() {
        return Err(ErrorCode::AlreadyInitialized);
    }
    ctx.state = Some(
        ProgramState {
            admin: ctx.admin,
            lat_mint: ctx.lat_mint,
            trade_reward_rate,
            stake_reward_rate,
            total_trades: 0,
            mint_auth_bump: ctx.mint_auth_bump,
            vault_auth_bump: ctx.vault_auth_bump,
            epoch_trade_volume: 0,
            trade_epoch_duration,
            pool_trading_volume: 0,
            pool_volume_threshold,
            pool_boost_multiplier,
        },
    );
    Ok(())
}


/// The multiplier that a trade of `volume` gets: it is decided on the epoch
/// volume after the trade is added.
pub open spec fn multiplier_after(s: ProgramState, volume: u64) -> int {
    trade_multiplier_spec(s.epoch_trade_volume + volume, s.pool_volume_threshold as int)
}

/// The reward that a trade of `volume` accrues.
pub open spec fn reward_of_trade(s: ProgramState, volume: u64) -> int {
    trade_reward_spec(volume as int, s.trade_reward_rate as int, multiplier_after(s, volume))
}

/// Whether every counter and product of recording a trade fits in 64 bits.
pub open spec fn trade_fits(s: ProgramState, t: TraderStats, volume: u64) -> bool {
    &&& s.total_trades + 1 <= u64::MAX
    &&& s.epoch_trade_volume + volume <= u64::MAX
    &&& s.pool_trading_volume + volume <= u64::MAX
    &&& t.trade_count + 1 <= u64::MAX
    &&& t.total_volume + volume <= u64::MAX
    &&& volume * s.trade_reward_rate <= u64::MAX
    &&& volume * s.trade_reward_rate * multiplier_after(s, volume) <= u64::MAX
    &&& t.pending_trade_rewards + reward_of_trade(s, volume) <= u64::MAX
}

/// The global state after a trade of `volume`: one more trade, and the
/// volume added to the epoch and pool volumes.
pub open spec fn state_after_trade(s: ProgramState, volume: u64) -> ProgramState {
    ProgramState {
        total_trades: (s.total_trades + 1) as u64,
        epoch_trade_volume: (s.epoch_trade_volume + volume) as u64,
        pool_trading_volume: (s.pool_trading_volume + volume) as u64,
        ..s
    }
}

/// A trader's ledger after a trade of `volume` at time `now`. The first trade
/// starts the epoch clock.
pub open spec fn stats_after_trade(s: ProgramState, t: TraderStats, volume: u64, now: i64) -> TraderStats {
    TraderStats {
        trade_count: (t.trade_count + 1) as u64,
        total_volume: (t.total_volume + volume) as u64,
        pending_trade_rewards: (t.pending_trade_rewards + reward_of_trade(s, volume)) as u64,
        last_claim: if t.last_claim == 0 {
            now
        } else {
            t.last_claim
        },
    }
}

/// Records a trade of `trade_volume` at time `now`: counts it in the global
/// and the trader's counters and accrues its reward as pending. Nothing is
/// minted. Fails with `CalculationError`, changing nothing, where a counter
/// or the reward would leave 64 bits.
pub fn record_trade(ctx: &mut RecordTrade, trade_volume: u64, now: i64) -> (r: Result<(), ErrorCode>)
    ensures
        r is Ok <==> trade_fits(old(ctx).state, old(ctx).trader_stats, trade_volume),
        r is Ok ==> final(ctx).state == state_after_trade(old(ctx).state, trade_volume),
        r is Ok ==> final(ctx).trader_stats == stats_after_trade(
            old(ctx).state,
            old(ctx).trader_stats,
            trade_volume,
            now,
        ),
        r is Err ==> r == Err::<(), ErrorCode>(ErrorCode::CalculationError) && *final(ctx) == *old(ctx),
{
    let s = ctx.state;
    let t = ctx.trader_stats;
    if s.total_trades == u64::MAX || s.epoch_trade_volume > u64::MAX - trade_volume
        || s.pool_trading_volume > u64::MAX - trade_volume || t.trade_count == u64::MAX
        || t.total_volume > u64::MAX - trade_volume {
        return Err(ErrorCode::CalculationError);
    }
    let epoch_trade_volume = s.epoch_trade_volume + trade_volume;
    let multiplier = trade_multiplier(epoch_trade_volume, s.pool_volume_threshold);
    let reward = match trade_volume.checked_mul(s.trade_reward_rate) {
        Some(p) => match p.checked_mul(multiplier) {
            Some(q) => q / 100,
            None => return Err(ErrorCode::CalculationError),
        },
        None => return Err(ErrorCode::CalculationError),
    };
    if t.pending_trade_rewards > u64::MAX - reward {
        return Err(ErrorCode::CalculationError);
    }
    ctx.state.total_trades = s.total_trades + 1;
    ctx.state.epoch_trade_volume = epoch_trade_volume;
    ctx.state.pool_trading_volume = s.pool_trading_volume + trade_volume;
    ctx.trader_stats.trade_count = t.trade_count + 1;
    ctx.trader_stats.total_volume = t.total_volume + trade_volume;
    ctx.trader_stats.pending_trade_rewards = t.pending_trade_rewards + reward;
    if t.last_claim == 0 {
        ctx.trader_stats.last_claim = now;
    }
    Ok(())
}

/// Why a trade-reward claim at time `now` is refused, if it is: the time
/// since the last claim must fit in 64 bits and reach the epoch duration,
/// and some reward must be pending.
pub open spec fn trade_claim_error(s: ProgramState, t: TraderStats, now: i64) -> Option<ErrorCode> {
    let elapsed = now - t.last_claim;
    if elapsed < i64::MIN || elapsed > i64::MAX {
        Some(ErrorCode::CalculationError)
    } else if elapsed < s.trade_epoch_duration {
        Some(ErrorCode::EpochNotEnded)
    } else if t.pending_trade_rewards == 0 {
        Some(ErrorCode::NoPendingRewards)
    } else {
        None
    }
}

/// A trader's ledger after a successful trade-reward claim at time `now`.
pub open spec fn stats_after_claim(t: TraderStats, now: i64) -> TraderStats {
    TraderStats { pending_trade_rewards: 0, last_claim: now, ..t }
}

/// Claims the trader's pending trade rewards at time `now`. On success the
/// pending balance is zeroed, the epoch clock restarts at `now`, and the
/// result is the amount to mint: the whole balance pending before the call.
/// On failure nothing changes.
pub fn claim_trade_rewards(ctx: &mut ClaimTradeRewards, now: i64) -> (r: Result<u64, ErrorCode>)
    ensures
        final(ctx).state == old(ctx).state,
        r is Err <==> trade_claim_error(old(ctx).state, old(ctx).trader_stats, now) is Some,
        r matches Err(e) ==> trade_claim_error(old(ctx).state, old(ctx).trader_stats, now) == Some(e)
            && final(ctx).trader_stats == old(ctx).trader_stats,
        r matches Ok(amount) ==> amount == old(ctx).trader_stats.pending_trade_rewards
            && final(ctx).trader_stats == stats_after_claim(old(ctx).trader_stats, now),
{
    let last_claim = ctx.trader_stats.last_claim;
    let elapsed = match now.checked_sub(last_claim) {
        Some(e) => e,
        None => return Err(ErrorCode::CalculationError),
    };
    if elapsed < ctx.state.trade_epoch_duration {
        return Err(ErrorCode::EpochNotEnded);
    }
    let reward = ctx.trader_stats.pending_trade_rewards;
    if reward == 0 {
        return Err(ErrorCode::NoPendingRewards);
    }
    ctx.trader_stats.pending_trade_rewards = 0;
    ctx.trader_stats.last_claim = now;
    Ok(reward)
}

/// A staking ledger after staking `amount` more at time `now`: the first
/// stake fixes the vesting anchor, and every stake restarts reward accrual.
pub open spec fn stake_after_deposit(k: Stake, amount: u64, now: i64) -> Stake {
    Stake {
        amount: (k.amount + amount) as u64,
        last_updated: now,
        stake_start: if k.stake_start == 0 {
            now
        } else {
            k.stake_start
        },
    }
}

/// Stakes `amount` tokens at time `now`. The result is the amount to move
/// from the trader's token account into the staking vault. Fails with
/// `CalculationError`, changing nothing, where the staked balance would
/// leave 64 bits.
pub fn stake_lat(ctx: &mut StakeLat, amount: u64, now: i64) -> (r: Result<u64, ErrorCode>)
    ensures
        final(ctx).state == old(ctx).state,
        r is Ok <==> old(ctx).stake.amount + amount <= u64::MAX,
        r is Ok ==> r == Ok::<u64, ErrorCode>(amount) && final(ctx).stake == stake_after_deposit(
            old(ctx).stake,
            amount,
            now,
        ),
        r is Err ==> r == Err::<u64, ErrorCode>(ErrorCode::CalculationError) && final(ctx).stake == old(ctx).stake,
{
    if ctx.stake.amount > u64::MAX - amount {
        return Err(ErrorCode::CalculationError);
    }
    if ctx.stake.stake_start == 0 {
        ctx.stake.stake_start = now;
    }
    ctx.stake.amount = ctx.stake.amount + amount;
    ctx.stake.last_updated = now;
    Ok(amount)
}

/// The stake reward rate in force under the global state `s`.
pub open spec fn stake_rate_of(s: ProgramState) -> int {
    effective_stake_rate_spec(
        s.stake_reward_rate as int,
        s.pool_trading_volume as int,
        s.pool_volume_threshold as int,
        s.pool_boost_multiplier as int,
    )
}

/// The stake reward owed at time `now`: staked amount times rate times the
/// seconds since the last update.
pub open spec fn stake_reward(s: ProgramState, k: Stake, now: i64) -> int {
    k.amount * stake_rate_of(s) * (now - k.last_updated)
}

/// Why a stake-reward claim at time `now` is refused, if it is: the vesting
/// period after the first stake must have passed, and every intermediate
/// quantity must fit in its 64-bit type (the elapsed time as an unsigned
/// number of seconds).
pub open spec fn stake_claim_error(s: ProgramState, k: Stake, now: i64) -> Option<ErrorCode> {
    let elapsed = now - k.last_updated;
    if k.stake_start + VESTING_PERIOD > i64::MAX {
        Some(ErrorCode::CalculationError)
    } else if now < k.stake_start + VESTING_PERIOD {
        Some(ErrorCode::VestingPeriodNotCompleted)
    } else if elapsed < 0 || elapsed > i64::MAX {
        Some(ErrorCode::CalculationError)
    } else if s.pool_trading_volume > s.pool_volume_threshold
        && s.stake_reward_rate * s.pool_boost_multiplier > u64::MAX {
        Some(ErrorCode::CalculationError)
    } else if k.amount * stake_rate_of(s) > u64::MAX || stake_reward(s, k, now) > u64::MAX {
        Some(ErrorCode::CalculationError)
    } else {
        None
    }
}

/// Claims staking rewards at time `now`. On success the result is the
/// amount to mint, `stake_reward`, and reward accrual restarts at `now`.
/// On failure nothing changes.
pub fn claim_stake_rewards(ctx: &mut ClaimRewards, now: i64) -> (r: Result<u64, ErrorCode>)
    ensures
        final(ctx).state == old(ctx).state,
        r is Err <==> stake_claim_error(old(ctx).state, old(ctx).stake, now) is Some,
        r matches Err(e) ==> stake_claim_error(old(ctx).state, old(ctx).stake, now) == Some(e)
            && final(ctx).stake == old(ctx).stake,
        r matches Ok(reward) ==> reward == stake_reward(old(ctx).state, old(ctx).stake, now)
            && final(ctx).stake == (Stake { last_updated: now, ..old(ctx).stake }),
{
    let k = ctx.stake;
    let s = ctx.state;
    if k.stake_start > i64::MAX - VESTING_PERIOD {
        return Err(ErrorCode::CalculationError);
    }
    if now < k.stake_start + VESTING_PERIOD {
        return Err(ErrorCode::VestingPeriodNotCompleted);
    }
    let elapsed = match now.checked_sub(k.last_updated) {
        Some(e) => e,
        None => return Err(ErrorCode::CalculationError),
    };
    if elapsed < 0 {
        return Err(ErrorCode::CalculationError);
    }
    let duration = elapsed as u64;
    let rate = match effective_stake_rate(
        s.stake_reward_rate,
        s.pool_trading_volume,
        s.pool_volume_threshold,
        s.pool_boost_multiplier,
    ) {
        Some(v) => v,
        None => return Err(ErrorCode::CalculationError),
    };
    let reward = match k.amount.checked_mul(rate) {
        Some(p) => match p.checked_mul(duration) {
            Some(q) => q,
            None => return Err(ErrorCode::CalculationError),
        },
        None => return Err(ErrorCode::CalculationError),
    };
    ctx.stake.last_updated = now;
    Ok(reward)
}

/// A staking ledger after withdrawing `amount`: only the balance changes.
pub open spec fn stake_after_withdrawal(k: Stake, amount: u64) -> Stake {
    Stake { amount: (k.amount - amount) as u64, ..k }
}

/// Withdraws `amount` staked tokens. The result is the amount to move from
/// the staking vault back to the trader. The vesting anchor and the accrual
/// time are kept. Fails with `InsufficientStake`, changing nothing, where
/// `amount` exceeds the staked balance.
pub fn withdraw_stake(ctx: &mut WithdrawStake, amount: u64) -> (r: Result<u64, ErrorCode>)
    ensures
        final(ctx).state == old(ctx).state,
        r is Ok <==> amount <= old(ctx).stake.amount,
        r is Ok ==> r == Ok::<u64, ErrorCode>(amount) && final(ctx).stake == stake_after_withdrawal(
            old(ctx).stake,
            amount,
        ),
        r is Err ==> r == Err::<u64, ErrorCode>(ErrorCode::InsufficientStake) && final(ctx).stake == old(ctx).stake,
{
    if amount > ctx.stake.amount {
        return Err(ErrorCode::InsufficientStake);
    }
    ctx.stake.amount = ctx.stake.amount - amount;
    Ok(amount)
}

} // verus!
