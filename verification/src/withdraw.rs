//! Withdrawing a farm's rewards.

use vstd::prelude::*;
use crate::error::ErrorCode;
use crate::identity::Identity;
use crate::policy::RatePoint;
use crate::state::lemma_pending_nonnegative;
use crate::state::update_farm_rewards;
use crate::state::Config;
use crate::state::FarmAccount;
use crate::state::TokenAccount;

verus! {

/// Seconds that must lie between two withdrawals for the second to be paid
/// in full.
pub const WITHDRAW_COOLDOWN: i64 = 86400;

/// The records and accounts that a withdrawal works on.
#[derive(Clone, Copy, Debug)]
pub struct WithdrawMilk {
    /// The system's configuration.
    pub config: Config,
    /// The farm that withdraws.
    pub farm: FarmAccount,
    /// Who asks for the withdrawal.
    pub user: Identity,
    /// The account that is paid.
    pub user_token_account: TokenAccount,
    /// The pool, which pays.
    pub pool_token_account: TokenAccount,
    /// Who may spend from the pool.
    pub pool_authority: Identity,
}

/// What a withdrawal pays and what it keeps back.
#[derive(Clone, Copy, Debug, PartialEq, Eq, Structural)]
pub struct Withdrawal {
    /// Amount to transfer from the pool to the user.
    pub amount: u64,
    /// Part of the rewards that stays in the pool as a penalty.
    pub penalty: u64,
}

/// Whether a withdrawal at `now` is paid in full: it is the farm's first, or
/// the last one lies a day or more back.
pub open spec fn penalty_free(last_withdraw_time: i64, now: i64) -> bool {
    last_withdraw_time == 0 || now - last_withdraw_time >= WITHDRAW_COOLDOWN
}

/// What is due of `total` rewards: all of it when `full`, else half of it,
/// rounded down.
pub open spec fn amount_due(total: u64, full: bool) -> u64 {
    if full {
        total
    } else {
        total / 2
    }
}

impl WithdrawMilk {
    /// The first of the accounts' conditions that does not hold, if any:
    /// the farm is the user's (`Unauthorized`); the user's account is in the
    /// yield token (`InvalidMint`) and is the user's (`InvalidOwner`); the
    /// pool is in the yield token (`InvalidMint`).
    pub open spec fn check(&self) -> Result<(), ErrorCode> {
        if self.farm.owner != self.user {
            Err(ErrorCode::Unauthorized)
        } else if self.user_token_account.mint != self.config.milk_mint {
            Err(ErrorCode::InvalidMint)
        } else if self.user_token_account.owner != self.user {
            Err(ErrorCode::InvalidOwner)
        } else if self.pool_token_account.mint != self.config.milk_mint {
            Err(ErrorCode::InvalidMint)
        } else {
            Ok(())
        }
    }

    /// What a withdrawal at `now` pays and keeps back.
    ///
    /// The farm's yield is settled first. All of the settled rewards are due
    /// when the withdrawal is penalty-free, else half of them, rounded down;
    /// the rest is the penalty. No more is paid than the pool holds.
    pub open spec fn withdrawal(&self, now: i64) -> Result<Withdrawal, ErrorCode> {
        let total = self.farm.settled_rewards(&self.config, now as int);
        if self.check() is Err {
            Err(self.check()->Err_0)
        } else if total > u64::MAX {
            Err(ErrorCode::MathOverflow)
        } else if total == 0 {
            Err(ErrorCode::NoRewardsAvailable)
        } else {
            let due = amount_due(total as u64, penalty_free(self.farm.last_withdraw_time, now));
            Ok(
                Withdrawal {
                    amount: if due <= self.pool_token_account.amount {
                        due
                    } else {
                        self.pool_token_account.amount
                    },
                    penalty: (total - due) as u64,
                },
            )
        }
    }

    /// The state at which the greed-decay curve is to be read for a
    /// withdrawal at `now`: the cows sold, and the pool's balance after the
    /// payment.
    pub open spec fn rate_point(&self, now: i64) -> Result<RatePoint, ErrorCode> {
        match self.withdrawal(now) {
            Ok(w) => Ok(
                RatePoint {
                    global_cows: self.config.global_cows_count,
                    tvl: (self.pool_token_account.amount - w.amount) as u64,
                },
            ),
            Err(e) => Err(e),
        }
    }

    /// The withdrawal at `now` and the records after it.
    ///
    /// The farm's rewards are reset to zero, `now` becomes the time of its
    /// last settlement and of its last withdrawal, and it caches the reward
    /// rate afresh. Nothing else changes.
    pub open spec fn outcome(&self, now: i64, curve_rate: Option<u64>) -> Result<
        (WithdrawMilk, Withdrawal),
        ErrorCode,
    > {
        let rate = self.config.reward_policy.rate(
            self.config.start_time as int,
            self.config.global_cows_count,
            now as int,
            curve_rate,
        );
        match self.withdrawal(now) {
            Err(e) => Err(e),
            Ok(w) => match rate {
                Err(e) => Err(e),
                Ok(rate) => Ok(
                    (
                        WithdrawMilk {
                            farm: FarmAccount {
                                accumulated_rewards: 0,
                                last_update_time: now,
                                last_withdraw_time: now,
                                last_reward_rate: rate,
                                ..self.farm
                            },
                            ..*self
                        },
                        w,
                    ),
                ),
            },
        }
    }

    /// Checks the accounts' conditions.
    pub fn validate(&self) -> (r: Result<(), ErrorCode>)
        ensures
            r == self.check(),
    {
        if self.farm.owner != self.user {
            Err(ErrorCode::Unauthorized)
        } else if self.user_token_account.mint != self.config.milk_mint {
            Err(ErrorCode::InvalidMint)
        } else if self.user_token_account.owner != self.user {
            Err(ErrorCode::InvalidOwner)
        } else if self.pool_token_account.mint != self.config.milk_mint {
            Err(ErrorCode::InvalidMint)
        } else {
            Ok(())
        }
    }

    /// Settles the farm and computes the withdrawal, without committing
    /// anything.
    fn plan(&self, now: i64) -> (r: Result<(FarmAccount, Withdrawal), ErrorCode>)
        ensures
            match r {
                Ok((farm, w)) => {
                    &&& self.withdrawal(now) == Ok::<Withdrawal, ErrorCode>(w)
                    &&& farm == self.farm.settled(&self.config, now)
                },
                Err(e) => self.withdrawal(now) == Err::<Withdrawal, ErrorCode>(e),
            },
    {
        self.validate()?;
        let mut farm = self.farm;
        update_farm_rewards(&mut farm, &self.config, now)?;
        let total = farm.accumulated_rewards;
        if total == 0 {
            return Err(ErrorCode::NoRewardsAvailable);
        }
        let full = farm.last_withdraw_time == 0 || now as i128 - farm.last_withdraw_time as i128
            >= WITHDRAW_COOLDOWN as i128;
        let due = if full {
            total
        } else {
            total / 2
        };
        let amount = if due <= self.pool_token_account.amount {
            due
        } else {
            self.pool_token_account.amount
        };
        Ok((farm, Withdrawal { amount, penalty: total - due }))
    }

    /// Computes the state at which the greed-decay curve is to be read for
    /// a withdrawal at `now`. Fails as the withdrawal itself would, but for
    /// the curve's value.
    pub fn read_rate_point(&self, now: i64) -> (r: Result<RatePoint, ErrorCode>)
        ensures
            r == self.rate_point(now),
    {
        let (_, w) = self.plan(now)?;
        Ok(
            RatePoint {
                global_cows: self.config.global_cows_count,
                tvl: self.pool_token_account.amount - w.amount,
            },
        )
    }
}

/// A withdrawal within a day of the one before pays half of the settled
/// rewards, rounded down, and the other half stays in the pool; a first
/// withdrawal, and one a day or more after the one before, pays all of them.
/// This holds while the pool holds what is due; an emptier pool pays what it
/// holds.
pub proof fn lemma_withdrawal_penalty(ctx: WithdrawMilk, now: i64)
    requires
        ctx.withdrawal(now) is Ok,
    ensures
        ({
            let total = ctx.farm.settled_rewards(&ctx.config, now as int);
            let w = ctx.withdrawal(now)->Ok_0;
            let pool = ctx.pool_token_account.amount;
            &&& 0 < total <= u64::MAX
            &&& w.amount <= pool
            &&& w.amount + w.penalty <= total
            &&& penalty_free(ctx.farm.last_withdraw_time, now) ==> w.penalty == 0 && (pool
                >= total ==> w.amount == total)
            &&& !penalty_free(ctx.farm.last_withdraw_time, now) ==> w.penalty == total - total
                / 2 && (pool >= total / 2 ==> w.amount == total / 2)
        }),
{
    lemma_pending_nonnegative(ctx.farm, ctx.config, now as int);
}

/// Withdraws a farm's rewards at `current_time`.
///
/// `curve_rate` is the value of the greed-decay curve at the state that
/// `read_rate_point` gives, or `None` where that value is beyond 64 bits; it
/// is not looked at under the halving policy, nor while no cow has been
/// sold.
///
/// Returns the amount to transfer from the pool to the user and the penalty
/// that stays in the pool. Fails, and changes nothing: for the first of the
/// accounts' conditions that does not hold; with `MathOverflow` when the
/// settled rewards or the curve's value are beyond 64 bits; with
/// `NoRewardsAvailable` when the settled rewards are zero.
pub fn withdraw_milk(ctx: &mut WithdrawMilk, current_time: i64, curve_rate: Option<u64>) -> (r:
    Result<Withdrawal, ErrorCode>)
    ensures
        match old(ctx).outcome(current_time, curve_rate) {
            Ok((after, w)) => r == Ok::<Withdrawal, ErrorCode>(w) && *final(ctx) == after,
            Err(e) => r == Err::<Withdrawal, ErrorCode>(e) && *final(ctx) == *old(ctx),
        },
{
    let (farm, w) = ctx.plan(current_time)?;
    let rate = ctx.config.reward_policy.calculate_reward_rate(
        ctx.config.start_time,
        ctx.config.global_cows_count,
        current_time,
        curve_rate,
    )?;
    ctx.farm = FarmAccount {
        accumulated_rewards: 0,
        last_withdraw_time: current_time,
        last_reward_rate: rate,
        ..farm
    };
    Ok(w)
}

} // verus!
