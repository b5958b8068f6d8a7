use vstd::prelude::*;

verus! {

/// Trade multiplier, in percent, while the epoch volume is under the threshold.
pub const HIGH_REWARD_MULTIPLIER: u64 = 150;

/// Trade multiplier, in percent, once the epoch volume reaches the threshold.
pub const BASE_MULTIPLIER: u64 = 100;

/// Seconds after the first stake before stake rewards can be claimed (7 days).
pub const VESTING_PERIOD: i64 = 604800;

/// The trade multiplier, in percent, for a given epoch volume.
pub open spec fn trade_multiplier_spec(epoch_volume: int, threshold: int) -> int {
    if epoch_volume < threshold {
        150
    } else {
        100
    }
}

/// The reward for one trade: volume times rate times multiplier percent,
/// rounded down.
pub open spec fn trade_reward_spec(volume: int, rate: int, multiplier: int) -> int {
    volume * rate * multiplier / 100
}

/// The stake reward rate, boosted by `boost` percent (rounded down) once the
/// pool volume is strictly above the threshold.
pub open spec fn effective_stake_rate_spec(base: int, pool_volume: int, threshold: int, boost: int) -> int {
    if pool_volume > threshold {
        base * boost / 100
    } else {
        base
    }
}

/// The trade multiplier, in percent: 150 below the threshold, 100 at or above it.
pub fn trade_multiplier(epoch_volume: u64, threshold: u64) -> (r: u64)
    ensures
        r == trade_multiplier_spec(epoch_volume as int, threshold as int),
{
    if epoch_volume < threshold {
        HIGH_REWARD_MULTIPLIER
    } else {
        BASE_MULTIPLIER
    }
}

/// The stake reward rate after the pool boost; `None` where `base * boost`
/// does not fit in 64 bits (it is only computed when the boost applies).
pub fn effective_stake_rate(base: u64, pool_volume: u64, threshold: u64, boost: u64) -> (r: Option<u64>)
    ensures
        r is None <==> (pool_volume > threshold && base * boost > u64::MAX),
        r matches Some(v) ==> v == effective_stake_rate_spec(
            base as int,
            pool_volume as int,
            threshold as int,
            boost as int,
        ),
{
    if pool_volume > threshold {
        match base.checked_mul(boost) {
            Some(p) => Some(p / 100),
            None => None,
        }
    } else {
        Some(base)
    }
}

} // verus!
