//! Buying cows with the yield token.

use vstd::prelude::*;
use crate::error::ErrorCode;
use crate::identity::Identity;
use crate::policy::RatePoint;
use crate::state::create_farm;
use crate::state::update_farm_rewards;
use crate::state::Config;
use crate::state::FarmAccount;
use crate::state::TokenAccount;

verus! {

/// The records and accounts that a purchase works on.
#[derive(Clone, Copy, Debug)]
pub struct BuyCows {
    /// The system's configuration.
    pub config: Config,
    /// The buyer's farm; not created yet before the buyer's first purchase.
    pub farm: FarmAccount,
    /// Who buys.
    pub user: Identity,
    /// The account that pays.
    pub user_token_account: TokenAccount,
    /// The pool, which is paid.
    pub pool_token_account: TokenAccount,
    /// Who may spend from the pool.
    pub pool_authority: Identity,
}

/// A purchase as it stands before the reward rate is cached: the records
/// with the cows added, what the cows cost, and the state at which the
/// greed-decay curve is to be read.
#[derive(Clone, Copy, Debug)]
pub struct Purchase {
    /// The configuration, the cows counted.
    pub config: Config,
    /// The farm, settled, the cows added.
    pub farm: FarmAccount,
    /// Amount to transfer from the buyer to the pool.
    pub total_cost: u64,
    /// Cows sold and balance of the pool after the purchase.
    pub rate_point: RatePoint,
}

impl BuyCows {
    /// The first of the accounts' conditions that does not hold, if any:
    /// the farm, if it has been created, is the user's (`Unauthorized`); the
    /// user's account is in the yield token (`InvalidMint`) and is the
    /// user's (`InvalidOwner`); the pool is in the yield token
    /// (`InvalidMint`) and is the pool authority's (`InvalidOwner`).
    pub open spec fn check(&self) -> Result<(), ErrorCode> {
        if self.farm.is_created() && self.farm.owner != self.user {
            Err(ErrorCode::Unauthorized)
        } else if self.user_token_account.mint != self.config.milk_mint {
            Err(ErrorCode::InvalidMint)
        } else if self.user_token_account.owner != self.user {
            Err(ErrorCode::InvalidOwner)
        } else if self.pool_token_account.mint != self.config.milk_mint {
            Err(ErrorCode::InvalidMint)
        } else if self.pool_token_account.owner != self.pool_authority {
            Err(ErrorCode::InvalidOwner)
        } else {
            Ok(())
        }
    }

    /// Whether `num_cows` is more than one purchase may hold.
    pub open spec fn over_cap(&self, num_cows: u64) -> bool {
        self.config.max_cows_per_transaction matches Some(cap) && num_cows > cap
    }

    /// The farm as the purchase finds it: created for the user at `now` if
    /// it was not yet, else settled at `now`.
    pub open spec fn opened_farm(&self, now: i64) -> FarmAccount {
        if self.farm.is_created() {
            self.farm.settled(&self.config, now)
        } else {
            FarmAccount::fresh(self.user, now)
        }
    }

    /// Rewards of the farm as the purchase finds it.
    pub open spec fn opened_rewards(&self, now: i64) -> int {
        if self.farm.is_created() {
            self.farm.settled_rewards(&self.config, now as int)
        } else {
            0
        }
    }

    /// Price of one cow in this purchase: the curve's price at the number
    /// of cows sold before it. Every cow of the purchase costs this much.
    pub open spec fn unit_price(&self) -> int {
        self.config.price_curve.price(self.config.global_cows_count as int)
    }

    /// Whether a number of the purchase is beyond 64 bits: the farm's
    /// settled rewards, the price, the cost, the cows of the farm or of the
    /// system, or the pool's balance after the payment.
    pub open spec fn overflows(&self, num_cows: u64, now: i64) -> bool {
        ||| self.opened_rewards(now) > u64::MAX
        ||| self.unit_price() * num_cows > u64::MAX
        ||| self.config.global_cows_count + num_cows > u64::MAX
        ||| self.opened_farm(now).cows + num_cows > u64::MAX
        ||| self.pool_token_account.amount + self.unit_price() * num_cows > u64::MAX
    }

    /// The purchase of `num_cows` cows at `now`, before the reward rate is
    /// cached.
    ///
    /// The farm is created or settled, the cows are paid at the price that
    /// holds before the purchase, and they are added to the farm and to the
    /// system's count.
    pub open spec fn purchase(&self, num_cows: u64, now: i64) -> Result<Purchase, ErrorCode> {
        if self.check() is Err {
            Err(self.check()->Err_0)
        } else if num_cows == 0 {
            Err(ErrorCode::InvalidAmount)
        } else if self.over_cap(num_cows) {
            Err(ErrorCode::ExceedsMaxCowsPerTransaction)
        } else if self.overflows(num_cows, now) {
            Err(ErrorCode::MathOverflow)
        } else {
            let total_cost = (self.unit_price() * num_cows) as u64;
            let global_cows = (self.config.global_cows_count + num_cows) as u64;
            Ok(
                Purchase {
                    config: Config { global_cows_count: global_cows, ..self.config },
                    farm: FarmAccount {
                        cows: (self.opened_farm(now).cows + num_cows) as u64,
                        ..self.opened_farm(now)
                    },
                    total_cost,
                    rate_point: RatePoint {
                        global_cows,
                        tvl: (self.pool_token_account.amount + total_cost) as u64,
                    },
                },
            )
        }
    }

    /// The amount to pay for `num_cows` cows bought at `now`, and the
    /// records after the purchase: as `purchase` says, and the farm caches
    /// the reward rate afresh. Nothing else changes.
    pub open spec fn outcome(&self, num_cows: u64, now: i64, curve_rate: Option<u64>) -> Result<
        (BuyCows, u64),
        ErrorCode,
    > {
        match self.purchase(num_cows, now) {
            Err(e) => Err(e),
            Ok(p) => match p.config.reward_policy.rate(
                p.config.start_time as int,
                p.config.global_cows_count,
                now as int,
                curve_rate,
            ) {
                Err(e) => Err(e),
                Ok(rate) => Ok(
                    (
                        BuyCows {
                            config: p.config,
                            farm: FarmAccount { last_reward_rate: rate, ..p.farm },
                            ..*self
                        },
                        p.total_cost,
                    ),
                ),
            },
        }
    }

    /// Checks the accounts' conditions.
    pub fn validate(&self) -> (r: Result<(), ErrorCode>)
        ensures
            r == self.check(),
    {
        if !self.farm.owner.is_default() && self.farm.owner != self.user {
            Err(ErrorCode::Unauthorized)
        } else if self.user_token_account.mint != self.config.milk_mint {
            Err(ErrorCode::InvalidMint)
        } else if self.user_token_account.owner != self.user {
            Err(ErrorCode::InvalidOwner)
        } else if self.pool_token_account.mint != self.config.milk_mint {
            Err(ErrorCode::InvalidMint)
        } else if self.pool_token_account.owner != self.pool_authority {
            Err(ErrorCode::InvalidOwner)
        } else {
            Ok(())
        }
    }

    /// Computes the purchase of `num_cows` cows at `now` without committing
    /// anything: what it would cost, and the state at which the
    /// greed-decay curve is to be read for it. Fails as the purchase itself
    /// would, but for the curve's value.
    pub fn preview(&self, num_cows: u64, now: i64) -> (r: Result<Purchase, ErrorCode>)
        ensures
            r == self.purchase(num_cows, now),
    {
        self.validate()?;
        if num_cows == 0 {
            return Err(ErrorCode::InvalidAmount);
        }
        match self.config.max_cows_per_transaction {
            Some(cap) => {
                if num_cows > cap {
                    return Err(ErrorCode::ExceedsMaxCowsPerTransaction);
                }
            },
            None => {},
        }
        let mut farm = self.farm;
        if farm.owner.is_default() {
            farm = create_farm(self.user, now);
        } else {
            update_farm_rewards(&mut farm, &self.config, now)?;
        }
        proof {
            let price = self.unit_price();
            let n = num_cows as int;
            assert(price >= 0 ==> price <= price * n) by (nonlinear_arith)
                requires
                    n >= 1,
            ;
        }
        let cost_per_cow = self.config.price_curve.calculate_cow_price(
            self.config.global_cows_count,
        )?;
        let total_cost = match cost_per_cow.checked_mul(num_cows) {
            Some(v) => v,
            None => {
                return Err(ErrorCode::MathOverflow);
            },
        };
        let global_cows = match self.config.global_cows_count.checked_add(num_cows) {
            Some(v) => v,
            None => {
                return Err(ErrorCode::MathOverflow);
            },
        };
        let cows = match farm.cows.checked_add(num_cows) {
            Some(v) => v,
            None => {
                return Err(ErrorCode::MathOverflow);
            },
        };
        let tvl = match self.pool_token_account.amount.checked_add(total_cost) {
            Some(v) => v,
            None => {
                return Err(ErrorCode::MathOverflow);
            },
        };
        Ok(
            Purchase {
                config: Config { global_cows_count: global_cows, ..self.config },
                farm: FarmAccount { cows, ..farm },
                total_cost,
                rate_point: RatePoint { global_cows, tvl },
            },
        )
    }
}

/// Buys `num_cows` cows for a farm at `current_time`.
///
/// `curve_rate` is the value of the greed-decay curve at the state that
/// `preview` gives, or `None` where that value is beyond 64 bits; it is not
/// looked at under the halving policy.
///
/// Returns the amount to transfer from the buyer to the pool. Fails, and
/// changes nothing: for the first of the accounts' conditions that does not
/// hold; with `InvalidAmount` for no cows; with
/// `ExceedsMaxCowsPerTransaction` for more cows than one purchase may hold;
/// with `MathOverflow` when a number of the purchase or the curve's value
/// is beyond 64 bits.
pub fn buy_cows(ctx: &mut BuyCows, num_cows: u64, current_time: i64, curve_rate: Option<u64>) -> (r:
    Result<u64, ErrorCode>)
    ensures
        match old(ctx).outcome(num_cows, current_time, curve_rate) {
            Ok((after, cost)) => r == Ok::<u64, ErrorCode>(cost) && *final(ctx) == after,
            Err(e) => r == Err::<u64, ErrorCode>(e) && *final(ctx) == *old(ctx),
        },
{
    let p = ctx.preview(num_cows, current_time)?;
    let rate = p.config.reward_policy.calculate_reward_rate(
        p.config.start_time,
        p.config.global_cows_count,
        current_time,
        curve_rate,
    )?;
    ctx.config = p.config;
    ctx.farm = FarmAccount { last_reward_rate: rate, ..p.farm };
    Ok(p.total_cost)
}

} // verus!
