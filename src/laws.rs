use vstd::prelude::*;

use crate::engine::{
    multiplier_after, stake_after_deposit, stake_after_withdrawal, stake_claim_error,
    stats_after_claim, trade_claim_error, trade_fits,
};
use crate::error::ErrorCode;
use crate::rates::VESTING_PERIOD;
use crate::records::{ProgramState, Stake, TraderStats};

verus! {

/// A trade-reward claim made before the epoch duration has elapsed since the
/// last claim is refused with `EpochNotEnded` (and so changes nothing).
pub proof fn lemma_epoch_not_ended(s: ProgramState, t: TraderStats, now: i64)
    requires
        i64::MIN <= now - t.last_claim < s.trade_epoch_duration,
    ensures
        trade_claim_error(s, t, now) == Some(ErrorCode::EpochNotEnded),
{
}

/// Once the epoch has ended, a trade-reward claim with nothing pending is
/// refused with `NoPendingRewards`.
pub proof fn lemma_no_pending_rewards(s: ProgramState, t: TraderStats, now: i64)
    requires
        t.pending_trade_rewards == 0,
        s.trade_epoch_duration <= now - t.last_claim <= i64::MAX,
    ensures
        trade_claim_error(s, t, now) == Some(ErrorCode::NoPendingRewards),
{
}

/// After a successful trade-reward claim, a second claim at the same moment
/// is refused: with `NoPendingRewards` where the epoch duration is not
/// positive, and with `EpochNotEnded` otherwise.
pub proof fn lemma_claim_trade_rewards_repeat(s: ProgramState, t: TraderStats, now: i64)
    requires
        trade_claim_error(s, t, now) is None,
    ensures
        stats_after_claim(t, now).pending_trade_rewards == 0,
        stats_after_claim(t, now).last_claim == now,
        trade_claim_error(s, stats_after_claim(t, now), now) == Some(
            if s.trade_epoch_duration <= 0 {
                ErrorCode::NoPendingRewards
            } else {
                ErrorCode::EpochNotEnded
            },
        ),
{
}

/// A stake-reward claim before the vesting period has passed since the first
/// stake is refused with `VestingPeriodNotCompleted`, whatever the staked
/// amount and the global state.
pub proof fn lemma_vesting_gate(s: ProgramState, k: Stake, now: i64)
    requires
        k.stake_start + VESTING_PERIOD <= i64::MAX,
        now < k.stake_start + VESTING_PERIOD,
    ensures
        stake_claim_error(s, k, now) == Some(ErrorCode::VestingPeriodNotCompleted),
{
}

/// Staking `x` and then withdrawing `x` gives the staked balance back as it
/// was (zero for a fresh ledger), and the withdrawal keeps the vesting anchor
/// that the stake left.
pub proof fn lemma_stake_then_withdraw(k: Stake, x: u64, now: i64)
    requires
        k.amount + x <= u64::MAX,
    ensures
        x <= stake_after_deposit(k, x, now).amount,
        stake_after_withdrawal(stake_after_deposit(k, x, now), x).amount == k.amount,
        stake_after_withdrawal(stake_after_deposit(k, x, now), x).stake_start == stake_after_deposit(
            k,
            x,
            now,
        ).stake_start,
        k.stake_start != 0 ==> stake_after_withdrawal(stake_after_deposit(k, x, now), x).stake_start
            == k.stake_start,
{
}

/// A trade whose volume times reward rate, or times rate and multiplier,
/// leaves 64 bits cannot be recorded (so `record_trade` fails with
/// `CalculationError` and changes nothing).
pub proof fn lemma_trade_product_overflow(s: ProgramState, t: TraderStats, volume: u64)
    requires
        volume * s.trade_reward_rate > u64::MAX || volume * s.trade_reward_rate * multiplier_after(s, volume)
            > u64::MAX,
    ensures
        !trade_fits(s, t, volume),
{
}

} // verus!
