//! The reward-rate policies.

use vstd::prelude::*;
use crate::error::ErrorCode;
use crate::halving::HalvingSchedule;
use crate::halving::SECONDS_PER_DAY;

verus! {

/// Floor of the standard greed-decay policy: 1,000 yield tokens of six
/// decimals per cow per day.
pub const MIN_REWARD_PER_DAY: u64 = 1_000_000_000;

/// How the yield per cow per day is set. A system picks one policy when it
/// is created and keeps it.
#[derive(Clone, Copy, Debug)]
pub enum RewardPolicy {
    /// The rate falls as the pool's value per cow rises, and early cows earn
    /// a bonus that decays as more are sold. The curve itself is evaluated
    /// outside this crate, in real arithmetic; the crate is handed its
    /// value. The rate is recomputed when a farm buys, compounds, imports or
    /// withdraws, and is kept on the farm until it does so again.
    GreedDecay {
        /// Rate while no cow has been sold.
        min_reward_per_day: u64,
    },
    /// The rate depends on time alone and halves at fixed intervals.
    Halving(HalvingSchedule),
}

/// The state of the system at which the greed-decay curve is to be read.
#[derive(Clone, Copy, Debug, PartialEq, Eq, Structural)]
pub struct RatePoint {
    /// Cows ever sold.
    pub global_cows: u64,
    /// Balance of the pool.
    pub tvl: u64,
}

impl RewardPolicy {
    /// Whether the policy's parameters are usable.
    pub open spec fn valid(&self) -> bool {
        match self {
            RewardPolicy::GreedDecay { .. } => true,
            RewardPolicy::Halving(schedule) => schedule.valid(),
        }
    }

    /// The rate per cow per day that a farm caches at instant `now`.
    ///
    /// Under the greed-decay policy it is the floor while no cow has been
    /// sold, and else the value `curve_rate` of the curve, which is `None`
    /// where that value is beyond 64 bits. Under the halving policy it is
    /// the schedule's rate at `now`.
    pub open spec fn rate(&self, start: int, global_cows: u64, now: int, curve_rate: Option<u64>) -> Result<u64, ErrorCode> {
        match self {
            RewardPolicy::GreedDecay { min_reward_per_day } => {
                if global_cows == 0 {
                    Ok(*min_reward_per_day)
                } else {
                    match curve_rate {
                        Some(rate) => Ok(rate),
                        None => Err(ErrorCode::MathOverflow),
                    }
                }
            },
            RewardPolicy::Halving(schedule) => Ok(schedule.rate_at(start, now) as u64),
        }
    }

    /// Yield that `units` cows earn from `from` to `to`.
    ///
    /// Under the greed-decay policy the farm's cached rate, divided by the
    /// seconds of a day and rounded down, applies to every second. Under the
    /// halving policy each second counts at the schedule's rate at that
    /// second, and the cached rate is not looked at.
    pub open spec fn accrued(&self, start: int, units: int, cached_rate: int, from: int, to: int) -> int {
        match self {
            RewardPolicy::GreedDecay { .. } => {
                if to <= from {
                    0
                } else {
                    units * (cached_rate / 86400) * (to - from)
                }
            },
            RewardPolicy::Halving(schedule) => schedule.accrued(start, units, from, to),
        }
    }

    /// Cows earn no negative yield.
    pub proof fn lemma_accrued_nonnegative(
        &self,
        start: int,
        units: int,
        cached_rate: int,
        from: int,
        to: int,
    )
        requires
            units >= 0,
            cached_rate >= 0,
        ensures
            self.accrued(start, units, cached_rate, from, to) >= 0,
    {
        match self {
            RewardPolicy::GreedDecay { .. } => {
                let per_second = cached_rate / 86400;
                let elapsed = to - from;
                assert(to > from ==> units * per_second * elapsed >= 0) by (nonlinear_arith)
                    requires
                        units >= 0,
                        per_second >= 0,
                        elapsed == to - from,
                ;
            },
            RewardPolicy::Halving(schedule) => {
                schedule.lemma_accrued_nonnegative(start, units, from, to);
            },
        }
    }

    /// Computes the yield of `units` cows from `from` to `to`. Returns
    /// `None` exactly when it does not fit in 64 bits.
    pub fn accrue(&self, start_time: i64, units: u64, cached_rate: u64, from: i64, to: i64) -> (r: Option<u64>)
        ensures
            match r {
                Some(v) => v == self.accrued(
                    start_time as int,
                    units as int,
                    cached_rate as int,
                    from as int,
                    to as int,
                ),
                None => self.accrued(
                    start_time as int,
                    units as int,
                    cached_rate as int,
                    from as int,
                    to as int,
                ) > u64::MAX,
            },
    {
        match self {
            RewardPolicy::GreedDecay { .. } => {
                if to <= from {
                    return Some(0);
                }
                let elapsed: u64 = (to as i128 - from as i128) as u64;
                let per_second: u64 = cached_rate / SECONDS_PER_DAY;
                proof {
                    let each = units as int * per_second as int;
                    assert(0 <= each <= each * elapsed) by (nonlinear_arith)
                        requires
                            each == units as int * per_second as int,
                            units >= 0,
                            per_second >= 0,
                            elapsed >= 1,
                    ;
                }
                match units.checked_mul(per_second) {
                    Some(per_unit) => per_unit.checked_mul(elapsed),
                    None => None,
                }
            },
            RewardPolicy::Halving(schedule) => schedule.accrue(start_time, units, from, to),
        }
    }

    /// Computes the rate per cow per day that a farm caches at `now`: see
    /// `rate`. Under the greed-decay policy it fails with `MathOverflow`
    /// when cows have been sold and the curve's value is beyond 64 bits.
    pub fn calculate_reward_rate(&self, start_time: i64, global_cows: u64, now: i64, curve_rate: Option<u64>) -> (r: Result<
        u64,
        ErrorCode,
    >)
        ensures
            r == self.rate(start_time as int, global_cows, now as int, curve_rate),
    {
        match self {
            RewardPolicy::GreedDecay { min_reward_per_day } => {
                if global_cows == 0 {
                    Ok(*min_reward_per_day)
                } else {
                    match curve_rate {
                        Some(rate) => Ok(rate),
                        None => Err(ErrorCode::MathOverflow),
                    }
                }
            },
            RewardPolicy::Halving(schedule) => Ok(schedule.current_rate(start_time, now)),
        }
    }
}

} // verus!
