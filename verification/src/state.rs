//! The records that the system keeps: its configuration and one farm per
//! participant; and what it reads of the ledger's token accounts.

use vstd::prelude::*;
use crate::error::ErrorCode;
use crate::identity::Identity;
use crate::policy::RewardPolicy;
use crate::pricing::PriceCurve;

verus! {

/// The system's configuration. There is one; it is made once and every
/// purchase changes its count of cows.
#[derive(Clone, Copy, Debug)]
pub struct Config {
    /// Who may migrate the pool.
    pub admin: Identity,
    /// Mint of the yield token, in which cows are paid and rewards are paid
    /// out.
    pub milk_mint: Identity,
    /// Mint of the tradeable token that stands for exported cows.
    pub cow_mint: Identity,
    /// The token account that holds the pool.
    pub pool_token_account: Identity,
    /// Instant at which the system was created.
    pub start_time: i64,
    /// Cows ever bought, compounded or imported, over all farms.
    pub global_cows_count: u64,
    /// Value locked at creation, kept for reference.
    pub initial_tvl: u64,
    /// Price of a cow as a function of `global_cows_count`.
    pub price_curve: PriceCurve,
    /// How the yield per cow per day is set.
    pub reward_policy: RewardPolicy,
    /// Most cows that one purchase may hold, if purchases are capped.
    pub max_cows_per_transaction: Option<u64>,
}

/// One participant's farm.
#[derive(Clone, Copy, Debug)]
pub struct FarmAccount {
    /// Owner of the farm; nobody while the farm has not been created.
    pub owner: Identity,
    /// Cows that the farm holds now. Exported cows are not counted.
    pub cows: u64,
    /// Instant through which yield has been settled.
    pub last_update_time: i64,
    /// Settled yield that was neither withdrawn nor spent.
    pub accumulated_rewards: u64,
    /// Rate per cow per day as last computed for this farm.
    pub last_reward_rate: u64,
    /// Instant of the last withdrawal; zero while there was none.
    pub last_withdraw_time: i64,
}

/// What the system reads of a token account on the ledger.
#[derive(Clone, Copy, Debug)]
pub struct TokenAccount {
    /// Address of the account.
    pub key: Identity,
    /// Mint in which the account is denominated.
    pub mint: Identity,
    /// Who may spend from the account.
    pub owner: Identity,
    /// Balance, in the token's smallest unit.
    pub amount: u64,
}

/// Figures of the whole system.
#[derive(Clone, Copy, Debug, PartialEq, Eq, Structural)]
pub struct GlobalStats {
    /// Cows ever bought, compounded or imported.
    pub global_cows_count: u64,
    /// Balance of the pool.
    pub pool_balance_milk: u64,
}

impl Config {
    /// Whether the configuration's curve and policy are usable.
    pub open spec fn valid(&self) -> bool {
        self.price_curve.valid() && self.reward_policy.valid()
    }
}

impl FarmAccount {
    /// Whether the farm has been created.
    pub open spec fn is_created(&self) -> bool {
        !self.owner.is_nobody()
    }

    /// A farm as it is created for `owner` at `now`: without cows, rewards,
    /// rate or withdrawal, and settled at `now`.
    pub open spec fn fresh(owner: Identity, now: i64) -> FarmAccount {
        FarmAccount {
            owner,
            cows: 0,
            last_update_time: now,
            accumulated_rewards: 0,
            last_reward_rate: 0,
            last_withdraw_time: 0,
        }
    }

    /// Yield that is pending at `now`: what the farm's cows have earned
    /// since the last settlement. It is zero for a farm without cows and
    /// where `now` is not after the last settlement.
    pub open spec fn pending_rewards(&self, config: &Config, now: int) -> int {
        if self.cows == 0 || now <= self.last_update_time {
            0
        } else {
            config.reward_policy.accrued(
                config.start_time as int,
                self.cows as int,
                self.last_reward_rate as int,
                self.last_update_time as int,
                now,
            )
        }
    }

    /// The farm's rewards at `now`, pending yield included.
    pub open spec fn settled_rewards(&self, config: &Config, now: int) -> int {
        self.accumulated_rewards + self.pending_rewards(config, now)
    }

    /// The farm after its yield has been settled at `now`: the pending
    /// yield is added to its rewards and the time of settlement is `now`,
    /// also where nothing was pending.
    pub open spec fn settled(&self, config: &Config, now: i64) -> FarmAccount {
        FarmAccount {
            accumulated_rewards: self.settled_rewards(config, now as int) as u64,
            last_update_time: now,
            ..*self
        }
    }
}

/// A farm's pending yield is never negative: settling never takes rewards
/// away.
pub proof fn lemma_pending_nonnegative(farm: FarmAccount, config: Config, now: int)
    ensures
        farm.pending_rewards(&config, now) >= 0,
        farm.settled_rewards(&config, now) >= farm.accumulated_rewards,
{
    config.reward_policy.lemma_accrued_nonnegative(
        config.start_time as int,
        farm.cows as int,
        farm.last_reward_rate as int,
        farm.last_update_time as int,
        now,
    );
}

/// Settling a farm twice at the same instant is settling it once: the
/// second settlement finds nothing pending and changes nothing.
pub proof fn lemma_settle_twice(farm: FarmAccount, config: Config, now: i64)
    ensures
        farm.settled(&config, now).pending_rewards(&config, now as int) == 0,
        farm.settled(&config, now).settled_rewards(&config, now as int) == farm.settled(
            &config,
            now,
        ).accumulated_rewards,
        farm.settled(&config, now).settled(&config, now) == farm.settled(&config, now),
{
}

/// Makes a farm for `owner` at `current_time`.
pub fn create_farm(owner: Identity, current_time: i64) -> (farm: FarmAccount)
    ensures
        farm == FarmAccount::fresh(owner, current_time),
{
    FarmAccount {
        owner,
        cows: 0,
        last_update_time: current_time,
        accumulated_rewards: 0,
        last_reward_rate: 0,
        last_withdraw_time: 0,
    }
}

/// Settles a farm's pending yield at `current_time`.
///
/// The yield since the last settlement is added to the farm's rewards and
/// the time of settlement moves to `current_time`; it moves there also
/// where the farm has no cows or no time has passed, so that an idle farm
/// earns nothing for the time before it gets cows. Fails with
/// `MathOverflow`, and leaves the farm as it was, exactly when the rewards
/// would not fit in 64 bits.
pub fn update_farm_rewards(farm: &mut FarmAccount, config: &Config, current_time: i64) -> (r:
    Result<(), ErrorCode>)
    ensures
        match r {
            Ok(()) => {
                &&& final(farm).accumulated_rewards == old(farm).settled_rewards(
                    config,
                    current_time as int,
                )
                &&& *final(farm) == old(farm).settled(config, current_time)
            },
            Err(e) => {
                &&& e == ErrorCode::MathOverflow
                &&& old(farm).settled_rewards(config, current_time as int) > u64::MAX
                &&& *final(farm) == *old(farm)
            },
        },
{
    if farm.cows > 0 && current_time > farm.last_update_time {
        let new_rewards = match config.reward_policy.accrue(
            config.start_time,
            farm.cows,
            farm.last_reward_rate,
            farm.last_update_time,
            current_time,
        ) {
            Some(v) => v,
            None => {
                return Err(ErrorCode::MathOverflow);
            },
        };
        let total = match farm.accumulated_rewards.checked_add(new_rewards) {
            Some(v) => v,
            None => {
                return Err(ErrorCode::MathOverflow);
            },
        };
        farm.accumulated_rewards = total;
    }
    farm.last_update_time = current_time;
    Ok(())
}

} // verus!
