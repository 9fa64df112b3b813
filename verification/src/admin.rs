//! Creating the system, reading its figures, and migrating its pool.

use vstd::prelude::*;
use crate::error::ErrorCode;
use crate::identity::Identity;
use crate::policy::RewardPolicy;
use crate::policy::MIN_REWARD_PER_DAY;
use crate::pricing::PriceCurve;
use crate::pricing::COW_BASE_PRICE;
use crate::pricing::PRICE_PIVOT;
use crate::state::Config;
use crate::state::GlobalStats;
use crate::state::TokenAccount;

verus! {

/// Value locked in the system as it was first run: 100 million yield tokens
/// of six decimals.
pub const INITIAL_TVL: u64 = 100_000_000_000_000;

/// Most cows that one purchase held in the system as it was first run.
pub const MAX_COWS_PER_TRANSACTION: u64 = 50;

/// The accounts that the system is created with.
#[derive(Clone, Copy, Debug)]
pub struct InitializeConfig {
    /// Who creates the system and may later migrate its pool.
    pub admin: Identity,
    /// Mint of the yield token.
    pub milk_mint: Identity,
    /// Mint of the cow token.
    pub cow_mint: Identity,
    /// The token account that holds the pool.
    pub pool_token_account: Identity,
}

/// The rules that the system is created with. They stay as they are for the
/// system's life.
#[derive(Clone, Copy, Debug)]
pub struct Economics {
    /// Price of a cow as a function of the cows sold.
    pub price_curve: PriceCurve,
    /// How the yield per cow per day is set.
    pub reward_policy: RewardPolicy,
    /// Most cows that one purchase may hold, if purchases are capped.
    pub max_cows_per_transaction: Option<u64>,
    /// Value locked at creation, kept for reference.
    pub initial_tvl: u64,
}

/// The accounts that a reading of the system's figures works on.
#[derive(Clone, Copy, Debug)]
pub struct GetGlobalStats {
    /// The system's configuration.
    pub config: Config,
    /// The pool.
    pub pool_token_account: TokenAccount,
}

/// The accounts that a migration of the pool works on.
#[derive(Clone, Copy, Debug)]
pub struct V3Migrating {
    /// The system's configuration.
    pub config: Config,
    /// Who asks for the migration.
    pub admin: Identity,
    /// The account that receives the pool's balance.
    pub admin_token_account: TokenAccount,
    /// The pool.
    pub pool_token_account: TokenAccount,
    /// Who may spend from the pool.
    pub pool_authority: Identity,
}

impl Economics {
    /// The rules that the system was first run with: the standard price
    /// curve, the greed-decay policy with its standard floor, purchases of
    /// at most 50 cows.
    pub fn standard() -> (e: Economics)
        ensures
            e.price_curve.valid(),
            e.price_curve.base_price() == COW_BASE_PRICE,
            e.price_curve.pivot() == PRICE_PIVOT,
            e.price_curve.steepness_num() == 2,
            e.price_curve.steepness_den() == 1,
            e.reward_policy == (RewardPolicy::GreedDecay {
                min_reward_per_day: MIN_REWARD_PER_DAY,
            }),
            e.max_cows_per_transaction == Some(MAX_COWS_PER_TRANSACTION),
            e.initial_tvl == INITIAL_TVL,
    {
        Economics {
            price_curve: PriceCurve::standard(),
            reward_policy: RewardPolicy::GreedDecay { min_reward_per_day: MIN_REWARD_PER_DAY },
            max_cows_per_transaction: Some(MAX_COWS_PER_TRANSACTION),
            initial_tvl: INITIAL_TVL,
        }
    }
}

impl GetGlobalStats {
    /// The accounts' condition: the pool is the configured one
    /// (`InvalidPoolAccount`).
    pub open spec fn check(&self) -> Result<(), ErrorCode> {
        if self.pool_token_account.key != self.config.pool_token_account {
            Err(ErrorCode::InvalidPoolAccount)
        } else {
            Ok(())
        }
    }
}

impl V3Migrating {
    /// The first of the accounts' conditions that does not hold, if any:
    /// the caller is the administrator (`Unauthorized`); the receiving
    /// account is in the yield token (`InvalidMint`) and is the
    /// administrator's (`InvalidOwner`); the pool is the configured one
    /// (`InvalidPoolAccount`).
    pub open spec fn check(&self) -> Result<(), ErrorCode> {
        if self.config.admin != self.admin {
            Err(ErrorCode::Unauthorized)
        } else if self.admin_token_account.mint != self.config.milk_mint {
            Err(ErrorCode::InvalidMint)
        } else if self.admin_token_account.owner != self.admin {
            Err(ErrorCode::InvalidOwner)
        } else if self.pool_token_account.key != self.config.pool_token_account {
            Err(ErrorCode::InvalidPoolAccount)
        } else {
            Ok(())
        }
    }

    /// Checks the accounts' conditions.
    pub fn validate(&self) -> (r: Result<(), ErrorCode>)
        ensures
            r == self.check(),
    {
        if self.config.admin != self.admin {
            Err(ErrorCode::Unauthorized)
        } else if self.admin_token_account.mint != self.config.milk_mint {
            Err(ErrorCode::InvalidMint)
        } else if self.admin_token_account.owner != self.admin {
            Err(ErrorCode::InvalidOwner)
        } else if self.pool_token_account.key != self.config.pool_token_account {
            Err(ErrorCode::InvalidPoolAccount)
        } else {
            Ok(())
        }
    }
}

/// Creates the system's configuration at `current_time`: the accounts and
/// rules as given, no cow sold yet.
pub fn initialize_config(ctx: &InitializeConfig, economics: Economics, current_time: i64) -> (config:
    Config)
    ensures
        config == (Config {
            admin: ctx.admin,
            milk_mint: ctx.milk_mint,
            cow_mint: ctx.cow_mint,
            pool_token_account: ctx.pool_token_account,
            start_time: current_time,
            global_cows_count: 0,
            initial_tvl: economics.initial_tvl,
            price_curve: economics.price_curve,
            reward_policy: economics.reward_policy,
            max_cows_per_transaction: economics.max_cows_per_transaction,
        }),
{
    Config {
        admin: ctx.admin,
        milk_mint: ctx.milk_mint,
        cow_mint: ctx.cow_mint,
        pool_token_account: ctx.pool_token_account,
        start_time: current_time,
        global_cows_count: 0,
        initial_tvl: economics.initial_tvl,
        price_curve: economics.price_curve,
        reward_policy: economics.reward_policy,
        max_cows_per_transaction: economics.max_cows_per_transaction,
    }
}

/// Reads the system's figures: the cows sold and the pool's balance. Fails
/// with `InvalidPoolAccount` when the pool is not the configured one.
pub fn get_global_stats(ctx: &GetGlobalStats) -> (r: Result<GlobalStats, ErrorCode>)
    ensures
        match ctx.check() {
            Ok(()) => r == Ok::<GlobalStats, ErrorCode>(
                GlobalStats {
                    global_cows_count: ctx.config.global_cows_count,
                    pool_balance_milk: ctx.pool_token_account.amount,
                },
            ),
            Err(e) => r == Err::<GlobalStats, ErrorCode>(e),
        },
{
    if ctx.pool_token_account.key != ctx.config.pool_token_account {
        return Err(ErrorCode::InvalidPoolAccount);
    }
    Ok(
        GlobalStats {
            global_cows_count: ctx.config.global_cows_count,
            pool_balance_milk: ctx.pool_token_account.amount,
        },
    )
}

/// Migrates the pool: the whole balance goes to the administrator.
///
/// Returns the amount to transfer from the pool to the administrator's
/// account, which is the pool's balance. Fails for the first of the
/// accounts' conditions that does not hold, and with `NoFundsToMigrate`
/// when the pool is empty.
pub fn v3_migrating(ctx: &V3Migrating) -> (r: Result<u64, ErrorCode>)
    ensures
        match ctx.check() {
            Ok(()) => if ctx.pool_token_account.amount > 0 {
                r == Ok::<u64, ErrorCode>(ctx.pool_token_account.amount)
            } else {
                r == Err::<u64, ErrorCode>(ErrorCode::NoFundsToMigrate)
            },
            Err(e) => r == Err::<u64, ErrorCode>(e),
        },
{
    ctx.validate()?;
    let pool_balance = ctx.pool_token_account.amount;
    if pool_balance == 0 {
        return Err(ErrorCode::NoFundsToMigrate);
    }
    Ok(pool_balance)
}

} // verus!
