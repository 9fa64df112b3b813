//! Buying cows with a farm's own rewards.

use vstd::prelude::*;
use vstd::arithmetic::mul::lemma_mul_nonnegative;
use crate::buy::Purchase;
use crate::error::ErrorCode;
use crate::identity::Identity;
use crate::policy::RatePoint;
use crate::state::lemma_pending_nonnegative;
use crate::state::update_farm_rewards;
use crate::state::Config;
use crate::state::FarmAccount;
use crate::state::TokenAccount;

verus! {

/// The records and accounts that compounding works on.
#[derive(Clone, Copy, Debug)]
pub struct CompoundCows {
    /// The system's configuration.
    pub config: Config,
    /// The farm that compounds.
    pub farm: FarmAccount,
    /// The pool. Nothing is paid into it: the cows are paid from rewards.
    pub pool_token_account: TokenAccount,
    /// Who asks for the cows.
    pub user: Identity,
}

impl CompoundCows {
    /// The first of the accounts' conditions that does not hold, if any:
    /// the farm is the user's (`Unauthorized`); the pool is the configured
    /// one (`InvalidPoolAccount`).
    pub open spec fn check(&self) -> Result<(), ErrorCode> {
        if self.farm.owner != self.user {
            Err(ErrorCode::Unauthorized)
        } else if self.pool_token_account.key != self.config.pool_token_account {
            Err(ErrorCode::InvalidPoolAccount)
        } else {
            Ok(())
        }
    }

    /// Price of one cow: the curve's price at the number of cows sold
    /// before compounding. Every cow costs this much.
    pub open spec fn unit_price(&self) -> int {
        self.config.price_curve.price(self.config.global_cows_count as int)
    }

    /// The farm's rewards once its yield is settled at `now`.
    pub open spec fn rewards(&self, now: i64) -> int {
        self.farm.settled_rewards(&self.config, now as int)
    }

    /// Compounding `num_cows` cows at `now`, before the reward rate is
    /// cached.
    ///
    /// The farm is settled, the cows are paid from its rewards at the price
    /// that holds before, and they are added to the farm and to the system's
    /// count. The pool's balance stays as it is.
    ///
    /// It fails with `MathOverflow` when the settled rewards or the cost
    /// are beyond 64 bits; else with `InsufficientRewards` when the rewards
    /// are less than the cost; else with `MathOverflow` when the cows of the
    /// farm or of the system would be beyond 64 bits.
    pub open spec fn purchase(&self, num_cows: u64, now: i64) -> Result<Purchase, ErrorCode> {
        let cost = self.unit_price() * num_cows;
        if self.check() is Err {
            Err(self.check()->Err_0)
        } else if num_cows == 0 {
            Err(ErrorCode::InvalidAmount)
        } else if self.rewards(now) > u64::MAX || cost > u64::MAX {
            Err(ErrorCode::MathOverflow)
        } else if self.rewards(now) < cost {
            Err(ErrorCode::InsufficientRewards)
        } else if self.config.global_cows_count + num_cows > u64::MAX || self.farm.cows + num_cows
            > u64::MAX {
            Err(ErrorCode::MathOverflow)
        } else {
            let global_cows = (self.config.global_cows_count + num_cows) as u64;
            Ok(
                Purchase {
                    config: Config { global_cows_count: global_cows, ..self.config },
                    farm: FarmAccount {
                        cows: (self.farm.cows + num_cows) as u64,
                        accumulated_rewards: (self.rewards(now) - cost) as u64,
                        last_update_time: now,
                        ..self.farm
                    },
                    total_cost: cost as u64,
                    rate_point: RatePoint { global_cows, tvl: self.pool_token_account.amount },
                },
            )
        }
    }

    /// The records after `num_cows` cows were compounded at `now`: as
    /// `purchase` says, and the farm caches the reward rate afresh. Nothing
    /// else changes.
    pub open spec fn outcome(&self, num_cows: u64, now: i64, curve_rate: Option<u64>) -> Result<
        CompoundCows,
        ErrorCode,
    > {
        match self.purchase(num_cows, now) {
            Err(e) => Err(e),
            Ok(p) => match p.config.reward_policy.rate(
                p.config.start_time as int,
                p.config.global_cows_count,
                now as int,
                curve_rate,
            ) {
                Err(e) => Err(e),
                Ok(rate) => Ok(
                    CompoundCows {
                        config: p.config,
                        farm: FarmAccount { last_reward_rate: rate, ..p.farm },
                        ..*self
                    },
                ),
            },
        }
    }

    /// Checks the accounts' conditions.
    pub fn validate(&self) -> (r: Result<(), ErrorCode>)
        ensures
            r == self.check(),
    {
        if self.farm.owner != self.user {
            Err(ErrorCode::Unauthorized)
        } else if self.pool_token_account.key != self.config.pool_token_account {
            Err(ErrorCode::InvalidPoolAccount)
        } else {
            Ok(())
        }
    }

    /// Computes the compounding of `num_cows` cows at `now` without
    /// committing anything: what it would cost, and the state at which the
    /// greed-decay curve is to be read for it. Fails as compounding itself
    /// would, but for the curve's value.
    pub fn preview(&self, num_cows: u64, now: i64) -> (r: Result<Purchase, ErrorCode>)
        ensures
            r == self.purchase(num_cows, now),
    {
        self.validate()?;
        if num_cows == 0 {
            return Err(ErrorCode::InvalidAmount);
        }
        let mut farm = self.farm;
        update_farm_rewards(&mut farm, &self.config, now)?;
        proof {
            let price = self.unit_price();
            let n = num_cows as int;
            assert(price >= 0 ==> price <= price * n) by (nonlinear_arith)
                requires
                    n >= 1,
            ;
        }
        let cow_price = self.config.price_curve.calculate_cow_price(
            self.config.global_cows_count,
        )?;
        let total_cost = match cow_price.checked_mul(num_cows) {
            Some(v) => v,
            None => {
                return Err(ErrorCode::MathOverflow);
            },
        };
        if farm.accumulated_rewards < total_cost {
            return Err(ErrorCode::InsufficientRewards);
        }
        let rewards = farm.accumulated_rewards - total_cost;
        let global_cows = match self.config.global_cows_count.checked_add(num_cows) {
            Some(v) => v,
            None => {
                return Err(ErrorCode::MathOverflow);
            },
        };
        let cows = match farm.cows.checked_add(num_cows) {
            Some(v) => v,
            None => {
                return Err(ErrorCode::MathOverflow);
            },
        };
        Ok(
            Purchase {
                config: Config { global_cows_count: global_cows, ..self.config },
                farm: FarmAccount { cows, accumulated_rewards: rewards, ..farm },
                total_cost,
                rate_point: RatePoint { global_cows, tvl: self.pool_token_account.amount },
            },
        )
    }
}

/// Compounding fails for want of rewards exactly when the settled rewards
/// are less than the price of the cows, and where it succeeds the farm keeps
/// what is left of them. This holds with accounts that meet their
/// conditions and a cost within 64 bits; a cost beyond them is an overflow.
pub proof fn lemma_compound_needs_rewards(
    ctx: CompoundCows,
    num_cows: u64,
    now: i64,
    curve_rate: Option<u64>,
)
    requires
        ctx.config.valid(),
        ctx.check() is Ok,
        ctx.unit_price() * num_cows <= u64::MAX,
    ensures
        ctx.outcome(num_cows, now, curve_rate) == Err::<CompoundCows, ErrorCode>(
            ErrorCode::InsufficientRewards,
        ) <==> ctx.rewards(now) < ctx.unit_price() * num_cows,
        ctx.outcome(num_cows, now, curve_rate) matches Ok(after) ==> {
            &&& after.farm.accumulated_rewards == ctx.rewards(now) - ctx.unit_price() * num_cows
            &&& ctx.rewards(now) >= ctx.unit_price() * num_cows
        },
{
    lemma_pending_nonnegative(ctx.farm, ctx.config, now as int);
    ctx.config.price_curve.lemma_premium_exists(ctx.config.global_cows_count as int);
    lemma_mul_nonnegative(ctx.unit_price(), num_cows as int);
}

/// Buys `num_cows` cows for a farm from its own rewards at `current_time`.
/// Nothing is transferred.
///
/// `curve_rate` is the value of the greed-decay curve at the state that
/// `preview` gives, or `None` where that value is beyond 64 bits; it is not
/// looked at under the halving policy.
///
/// Fails, and changes nothing: for the first of the accounts' conditions
/// that does not hold; with `InvalidAmount` for no cows; with
/// `InsufficientRewards` when the settled rewards are less than the cost;
/// with `MathOverflow` when a number of the purchase or the curve's value is
/// beyond 64 bits.
pub fn compound_cows(
    ctx: &mut CompoundCows,
    num_cows: u64,
    current_time: i64,
    curve_rate: Option<u64>,
) -> (r: Result<(), ErrorCode>)
    ensures
        match old(ctx).outcome(num_cows, current_time, curve_rate) {
            Ok(after) => r == Ok::<(), ErrorCode>(()) && *final(ctx) == after,
            Err(e) => r == Err::<(), ErrorCode>(e) && *final(ctx) == *old(ctx),
        },
{
    let p = ctx.preview(num_cows, current_time)?;
    let rate = p.config.reward_policy.calculate_reward_rate(
        p.config.start_time,
        p.config.global_cows_count,
        current_time,
        curve_rate,
    )?;
    ctx.config = p.config;
    ctx.farm = FarmAccount { last_reward_rate: rate, ..p.farm };
    Ok(())
}

} // verus!
