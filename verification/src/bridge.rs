//! The bridge between cows held in a farm and units of the tradeable cow
//! token: one cow for one token, in both directions.
//!
//! An export takes cows out of the farm and leaves the system's count of
//! cows as it is; an import adds to both. A cow that is exported and
//! imported again is therefore counted twice by the system.

use vstd::prelude::*;
use crate::error::ErrorCode;
use crate::identity::Identity;
use crate::policy::RatePoint;
use crate::state::create_farm;
use crate::state::update_farm_rewards;
use crate::state::Config;
use crate::state::FarmAccount;
use crate::state::TokenAccount;

verus! {

/// The records and accounts that an export works on.
#[derive(Clone, Copy, Debug)]
pub struct ExportCows {
    /// The system's configuration.
    pub config: Config,
    /// The farm that gives the cows.
    pub farm: FarmAccount,
    /// The mint of the cow token.
    pub cow_mint: Identity,
    /// Who may mint cow tokens.
    pub cow_mint_authority: Identity,
    /// The account that receives the cow tokens.
    pub user_cow_token_account: TokenAccount,
    /// The pool.
    pub pool_token_account: TokenAccount,
    /// Who exports.
    pub user: Identity,
}

/// The records and accounts that an import works on.
#[derive(Clone, Copy, Debug)]
pub struct ImportCows {
    /// The system's configuration.
    pub config: Config,
    /// The farm that takes the cows; not created yet before the user's
    /// first import or purchase.
    pub farm: FarmAccount,
    /// The mint of the cow token.
    pub cow_mint: Identity,
    /// The account whose cow tokens are burnt.
    pub user_cow_token_account: TokenAccount,
    /// The pool.
    pub pool_token_account: TokenAccount,
    /// Who imports.
    pub user: Identity,
}

impl ExportCows {
    /// The first of the accounts' conditions that does not hold, if any:
    /// the farm is the user's (`Unauthorized`); the mint is the configured
    /// cow mint (`InvalidCowMint`); the user's account is in the cow token
    /// (`InvalidMint`) and is the user's (`InvalidOwner`); the pool is the
    /// configured one (`InvalidPoolAccount`).
    pub open spec fn check(&self) -> Result<(), ErrorCode> {
        if self.farm.owner != self.user {
            Err(ErrorCode::Unauthorized)
        } else if self.cow_mint != self.config.cow_mint {
            Err(ErrorCode::InvalidCowMint)
        } else if self.user_cow_token_account.mint != self.config.cow_mint {
            Err(ErrorCode::InvalidMint)
        } else if self.user_cow_token_account.owner != self.user {
            Err(ErrorCode::InvalidOwner)
        } else if self.pool_token_account.key != self.config.pool_token_account {
            Err(ErrorCode::InvalidPoolAccount)
        } else {
            Ok(())
        }
    }

    /// The number of cow tokens to mint for `num_cows` cows exported at
    /// `now`, and the records after the export.
    ///
    /// The farm is settled and keeps its rewards; it has `num_cows` cows
    /// fewer. Its cached rate and the system's count of cows stay as they
    /// are.
    pub open spec fn outcome(&self, num_cows: u64, now: i64) -> Result<(ExportCows, u64), ErrorCode> {
        if self.check() is Err {
            Err(self.check()->Err_0)
        } else if num_cows == 0 {
            Err(ErrorCode::InvalidAmount)
        } else if self.farm.settled_rewards(&self.config, now as int) > u64::MAX {
            Err(ErrorCode::MathOverflow)
        } else if self.farm.cows < num_cows {
            Err(ErrorCode::InsufficientCows)
        } else {
            Ok(
                (
                    ExportCows {
                        farm: FarmAccount {
                            cows: (self.farm.cows - num_cows) as u64,
                            ..self.farm.settled(&self.config, now)
                        },
                        ..*self
                    },
                    num_cows,
                ),
            )
        }
    }

    /// Checks the accounts' conditions.
    pub fn validate(&self) -> (r: Result<(), ErrorCode>)
        ensures
            r == self.check(),
    {
        if self.farm.owner != self.user {
            Err(ErrorCode::Unauthorized)
        } else if self.cow_mint != self.config.cow_mint {
            Err(ErrorCode::InvalidCowMint)
        } else if self.user_cow_token_account.mint != self.config.cow_mint {
            Err(ErrorCode::InvalidMint)
        } else if self.user_cow_token_account.owner != self.user {
            Err(ErrorCode::InvalidOwner)
        } else if self.pool_token_account.key != self.config.pool_token_account {
            Err(ErrorCode::InvalidPoolAccount)
        } else {
            Ok(())
        }
    }
}

impl ImportCows {
    /// The first of the accounts' conditions that does not hold, if any:
    /// the farm, if it has been created, is the user's (`Unauthorized`); the
    /// mint is the configured cow mint (`InvalidCowMint`); the user's
    /// account is in the cow token (`InvalidMint`) and is the user's
    /// (`InvalidOwner`); the pool is the configured one
    /// (`InvalidPoolAccount`).
    pub open spec fn check(&self) -> Result<(), ErrorCode> {
        if self.farm.is_created() && self.farm.owner != self.user {
            Err(ErrorCode::Unauthorized)
        } else if self.cow_mint != self.config.cow_mint {
            Err(ErrorCode::InvalidCowMint)
        } else if self.user_cow_token_account.mint != self.config.cow_mint {
            Err(ErrorCode::InvalidMint)
        } else if self.user_cow_token_account.owner != self.user {
            Err(ErrorCode::InvalidOwner)
        } else if self.pool_token_account.key != self.config.pool_token_account {
            Err(ErrorCode::InvalidPoolAccount)
        } else {
            Ok(())
        }
    }

    /// The farm as the import finds it: created for the user at `now` if it
    /// was not yet, else settled at `now`.
    pub open spec fn opened_farm(&self, now: i64) -> FarmAccount {
        if self.farm.is_created() {
            self.farm.settled(&self.config, now)
        } else {
            FarmAccount::fresh(self.user, now)
        }
    }

    /// Whether a number of the import is beyond 64 bits: the farm's settled
    /// rewards, or the cows of the farm or of the system.
    pub open spec fn overflows(&self, num_cows: u64, now: i64) -> bool {
        ||| self.farm.is_created() && self.farm.settled_rewards(&self.config, now as int)
            > u64::MAX
        ||| self.opened_farm(now).cows + num_cows > u64::MAX
        ||| self.config.global_cows_count + num_cows > u64::MAX
    }

    /// The records after `num_cows` cows were imported at `now`, before the
    /// reward rate is cached: the farm is created or settled, and the cows
    /// are added to it and to the system's count.
    pub open spec fn import(&self, num_cows: u64, now: i64) -> Result<ImportCows, ErrorCode> {
        if self.check() is Err {
            Err(self.check()->Err_0)
        } else if num_cows == 0 {
            Err(ErrorCode::InvalidAmount)
        } else if self.overflows(num_cows, now) {
            Err(ErrorCode::MathOverflow)
        } else {
            Ok(
                ImportCows {
                    config: Config {
                        global_cows_count: (self.config.global_cows_count + num_cows) as u64,
                        ..self.config
                    },
                    farm: FarmAccount {
                        cows: (self.opened_farm(now).cows + num_cows) as u64,
                        ..self.opened_farm(now)
                    },
                    ..*self
                },
            )
        }
    }

    /// The state at which the greed-decay curve is to be read for an import
    /// of `num_cows` cows at `now`: the cows sold after it, and the pool's
    /// balance, which it does not change.
    pub open spec fn rate_point(&self, num_cows: u64, now: i64) -> Result<RatePoint, ErrorCode> {
        match self.import(num_cows, now) {
            Ok(after) => Ok(
                RatePoint {
                    global_cows: after.config.global_cows_count,
                    tvl: self.pool_token_account.amount,
                },
            ),
            Err(e) => Err(e),
        }
    }

    /// The number of cow tokens to burn for `num_cows` cows imported at
    /// `now`, and the records after the import: as `import` says, and the
    /// farm caches the reward rate afresh.
    pub open spec fn outcome(&self, num_cows: u64, now: i64, curve_rate: Option<u64>) -> Result<
        (ImportCows, u64),
        ErrorCode,
    > {
        match self.import(num_cows, now) {
            Err(e) => Err(e),
            Ok(after) => match after.config.reward_policy.rate(
                after.config.start_time as int,
                after.config.global_cows_count,
                now as int,
                curve_rate,
            ) {
                Err(e) => Err(e),
                Ok(rate) => Ok(
                    (
                        ImportCows {
                            farm: FarmAccount { last_reward_rate: rate, ..after.farm },
                            ..after
                        },
                        num_cows,
                    ),
                ),
            },
        }
    }

    /// Checks the accounts' conditions.
    pub fn validate(&self) -> (r: Result<(), ErrorCode>)
        ensures
            r == self.check(),
    {
        if !self.farm.owner.is_default() && self.farm.owner != self.user {
            Err(ErrorCode::Unauthorized)
        } else if self.cow_mint != self.config.cow_mint {
            Err(ErrorCode::InvalidCowMint)
        } else if self.user_cow_token_account.mint != self.config.cow_mint {
            Err(ErrorCode::InvalidMint)
        } else if self.user_cow_token_account.owner != self.user {
            Err(ErrorCode::InvalidOwner)
        } else if self.pool_token_account.key != self.config.pool_token_account {
            Err(ErrorCode::InvalidPoolAccount)
        } else {
            Ok(())
        }
    }

    /// Computes the import without the reward rate, and without committing
    /// anything.
    fn plan(&self, num_cows: u64, now: i64) -> (r: Result<ImportCows, ErrorCode>)
        ensures
            r == self.import(num_cows, now),
    {
        self.validate()?;
        if num_cows == 0 {
            return Err(ErrorCode::InvalidAmount);
        }
        let mut farm = self.farm;
        if farm.owner.is_default() {
            farm = create_farm(self.user, now);
        } else {
            update_farm_rewards(&mut farm, &self.config, now)?;
        }
        let cows = match farm.cows.checked_add(num_cows) {
            Some(v) => v,
            None => {
                return Err(ErrorCode::MathOverflow);
            },
        };
        let global_cows = match self.config.global_cows_count.checked_add(num_cows) {
            Some(v) => v,
            None => {
                return Err(ErrorCode::MathOverflow);
            },
        };
        Ok(
            ImportCows {
                config: Config { global_cows_count: global_cows, ..self.config },
                farm: FarmAccount { cows, ..farm },
                ..*self
            },
        )
    }

    /// Computes the state at which the greed-decay curve is to be read for
    /// an import of `num_cows` cows at `now`. Fails as the import itself
    /// would, but for the curve's value.
    pub fn read_rate_point(&self, num_cows: u64, now: i64) -> (r: Result<RatePoint, ErrorCode>)
        ensures
            r == self.rate_point(num_cows, now),
    {
        let after = self.plan(num_cows, now)?;
        Ok(
            RatePoint {
                global_cows: after.config.global_cows_count,
                tvl: self.pool_token_account.amount,
            },
        )
    }
}

/// Takes `num_cows` cows out of a farm at `current_time`, to be turned into
/// as many cow tokens.
///
/// Returns the number of cow tokens to mint to the user. Fails, and changes
/// nothing: for the first of the accounts' conditions that does not hold;
/// with `InvalidAmount` for no cows; with `MathOverflow` when the settled
/// rewards are beyond 64 bits; with `InsufficientCows` when the farm holds
/// fewer cows.
pub fn export_cows(ctx: &mut ExportCows, num_cows: u64, current_time: i64) -> (r: Result<
    u64,
    ErrorCode,
>)
    ensures
        match old(ctx).outcome(num_cows, current_time) {
            Ok((after, minted)) => r == Ok::<u64, ErrorCode>(minted) && *final(ctx) == after,
            Err(e) => r == Err::<u64, ErrorCode>(e) && *final(ctx) == *old(ctx),
        },
{
    ctx.validate()?;
    if num_cows == 0 {
        return Err(ErrorCode::InvalidAmount);
    }
    let mut farm = ctx.farm;
    update_farm_rewards(&mut farm, &ctx.config, current_time)?;
    if farm.cows < num_cows {
        return Err(ErrorCode::InsufficientCows);
    }
    farm.cows = farm.cows - num_cows;
    ctx.farm = farm;
    Ok(num_cows)
}

/// Adds `num_cows` cows to a farm at `current_time`, in exchange for as
/// many cow tokens.
///
/// `curve_rate` is the value of the greed-decay curve at the state that
/// `read_rate_point` gives, or `None` where that value is beyond 64 bits; it
/// is not looked at under the halving policy.
///
/// Returns the number of cow tokens to burn from the user. Fails, and
/// changes nothing: for the first of the accounts' conditions that does not
/// hold; with `InvalidAmount` for no cows; with `MathOverflow` when a number
/// of the import or the curve's value is beyond 64 bits.
pub fn import_cows(
    ctx: &mut ImportCows,
    num_cows: u64,
    current_time: i64,
    curve_rate: Option<u64>,
) -> (r: Result<u64, ErrorCode>)
    ensures
        match old(ctx).outcome(num_cows, current_time, curve_rate) {
            Ok((after, burnt)) => r == Ok::<u64, ErrorCode>(burnt) && *final(ctx) == after,
            Err(e) => r == Err::<u64, ErrorCode>(e) && *final(ctx) == *old(ctx),
        },
{
    let after = ctx.plan(num_cows, current_time)?;
    let rate = after.config.reward_policy.calculate_reward_rate(
        after.config.start_time,
        after.config.global_cows_count,
        current_time,
        curve_rate,
    )?;
    ctx.config = after.config;
    ctx.farm = FarmAccount { last_reward_rate: rate, ..after.farm };
    Ok(num_cows)
}

} // verus!
