use milkerfun::admin::INITIAL_TVL;
use milkerfun::admin::MAX_COWS_PER_TRANSACTION;
use milkerfun::buy_cows;
use milkerfun::compound_cows;
use milkerfun::export_cows;
use milkerfun::get_global_stats;
use milkerfun::import_cows;
use milkerfun::initialize_config;
use milkerfun::policy::MIN_REWARD_PER_DAY;
use milkerfun::v3_migrating;
use milkerfun::withdraw_milk;
use milkerfun::BuyCows;
use milkerfun::CompoundCows;
use milkerfun::Config;
use milkerfun::Economics;
use milkerfun::ErrorCode;
use milkerfun::ExportCows;
use milkerfun::FarmAccount;
use milkerfun::GetGlobalStats;
use milkerfun::GlobalStats;
use milkerfun::HalvingSchedule;
use milkerfun::Identity;
use milkerfun::ImportCows;
use milkerfun::InitializeConfig;
use milkerfun::PriceCurve;
use milkerfun::RatePoint;
use milkerfun::RewardPolicy;
use milkerfun::TokenAccount;
use milkerfun::V3Migrating;
use milkerfun::WithdrawMilk;
use milkerfun::Withdrawal;

const DAY: i64 = 86400;
const ADMIN: u8 = 1;
const MILK: u8 = 2;
const COW: u8 = 3;
const POOL: u8 = 4;
const POOL_AUTHORITY: u8 = 5;
const COW_AUTHORITY: u8 = 6;
const USER: u8 = 9;
const USER_MILK: u8 = 10;
const USER_COW: u8 = 11;
const ADMIN_MILK: u8 = 12;
const STRANGER: u8 = 66;

fn id(tag: u8) -> Identity {
    Identity { bytes: [tag; 32] }
}

fn same(a: &Identity, b: &Identity) -> bool {
    a.bytes == b.bytes
}

fn config() -> Config {
    let init = InitializeConfig {
        admin: id(ADMIN),
        milk_mint: id(MILK),
        cow_mint: id(COW),
        pool_token_account: id(POOL),
    };
    initialize_config(&init, Economics::standard(), 1_000)
}

fn halving_config() -> Config {
    Config {
        reward_policy: RewardPolicy::Halving(HalvingSchedule::new(1_728_000, 1, 4, 0).unwrap()),
        price_curve: PriceCurve::new(100, 10, 1, 1).unwrap(),
        max_cows_per_transaction: None,
        ..config()
    }
}

fn no_farm() -> FarmAccount {
    FarmAccount {
        owner: Identity::default(),
        cows: 0,
        last_update_time: 0,
        accumulated_rewards: 0,
        last_reward_rate: 0,
        last_withdraw_time: 0,
    }
}

fn farm(cows: u64, rate: u64, last_update_time: i64, rewards: u64) -> FarmAccount {
    FarmAccount {
        owner: id(USER),
        cows,
        last_update_time,
        accumulated_rewards: rewards,
        last_reward_rate: rate,
        last_withdraw_time: 0,
    }
}

fn account(key: u8, mint: u8, owner: u8, amount: u64) -> TokenAccount {
    TokenAccount { key: id(key), mint: id(mint), owner: id(owner), amount }
}

fn buy_ctx(config: Config, farm: FarmAccount, pool: u64) -> BuyCows {
    BuyCows {
        config,
        farm,
        user: id(USER),
        user_token_account: account(USER_MILK, MILK, USER, u64::MAX),
        pool_token_account: account(POOL, MILK, POOL_AUTHORITY, pool),
        pool_authority: id(POOL_AUTHORITY),
    }
}

fn compound_ctx(config: Config, farm: FarmAccount, pool: u64) -> CompoundCows {
    CompoundCows {
        config,
        farm,
        pool_token_account: account(POOL, MILK, POOL_AUTHORITY, pool),
        user: id(USER),
    }
}

fn withdraw_ctx(config: Config, farm: FarmAccount, pool: u64) -> WithdrawMilk {
    WithdrawMilk {
        config,
        farm,
        user: id(USER),
        user_token_account: account(USER_MILK, MILK, USER, 0),
        pool_token_account: account(POOL, MILK, POOL_AUTHORITY, pool),
        pool_authority: id(POOL_AUTHORITY),
    }
}

fn export_ctx(config: Config, farm: FarmAccount) -> ExportCows {
    ExportCows {
        config,
        farm,
        cow_mint: id(COW),
        cow_mint_authority: id(COW_AUTHORITY),
        user_cow_token_account: account(USER_COW, COW, USER, 0),
        pool_token_account: account(POOL, MILK, POOL_AUTHORITY, 0),
        user: id(USER),
    }
}

fn import_ctx(config: Config, farm: FarmAccount, pool: u64) -> ImportCows {
    ImportCows {
        config,
        farm,
        cow_mint: id(COW),
        user_cow_token_account: account(USER_COW, COW, USER, 100),
        pool_token_account: account(POOL, MILK, POOL_AUTHORITY, pool),
        user: id(USER),
    }
}

fn migrate_ctx(pool: u64) -> V3Migrating {
    V3Migrating {
        config: config(),
        admin: id(ADMIN),
        admin_token_account: account(ADMIN_MILK, MILK, ADMIN, 0),
        pool_token_account: account(POOL, MILK, POOL_AUTHORITY, pool),
        pool_authority: id(POOL_AUTHORITY),
    }
}

fn assert_same_farm(a: &FarmAccount, b: &FarmAccount) {
    assert!(same(&a.owner, &b.owner));
    assert_eq!(a.cows, b.cows);
    assert_eq!(a.last_update_time, b.last_update_time);
    assert_eq!(a.accumulated_rewards, b.accumulated_rewards);
    assert_eq!(a.last_reward_rate, b.last_reward_rate);
    assert_eq!(a.last_withdraw_time, b.last_withdraw_time);
}

#[test]
fn configuration_as_created() {
    let c = config();
    assert!(same(&c.admin, &id(ADMIN)));
    assert!(same(&c.milk_mint, &id(MILK)));
    assert!(same(&c.cow_mint, &id(COW)));
    assert!(same(&c.pool_token_account, &id(POOL)));
    assert_eq!(c.start_time, 1_000);
    assert_eq!(c.global_cows_count, 0);
    assert_eq!(c.initial_tvl, INITIAL_TVL);
    assert_eq!(c.initial_tvl, 100_000_000_000_000);
    assert_eq!(c.max_cows_per_transaction, Some(50));
    assert_eq!(MAX_COWS_PER_TRANSACTION, 50);
    assert_eq!(c.price_curve.base_price(), 6_000_000_000);
    assert!(matches!(
        c.reward_policy,
        RewardPolicy::GreedDecay { min_reward_per_day: 1_000_000_000 }
    ));
}

#[test]
fn identities_compare_by_their_bytes() {
    assert!(id(7) == id(7));
    assert!(id(7) != id(8));
    let mut almost = id(7);
    almost.bytes[31] = 8;
    assert!(almost != id(7));
    assert!(Identity::default().is_default());
    assert!(!almost.is_default());
    assert!(Identity::default() == id(0));
}

#[test]
fn first_purchase_creates_the_farm() {
    let mut ctx = buy_ctx(config(), no_farm(), 500);
    let point = ctx.preview(3, 2_000).unwrap().rate_point;
    assert_eq!(point, RatePoint { global_cows: 3, tvl: 500 + 18_000_000_000 });
    assert_eq!(buy_cows(&mut ctx, 3, 2_000, Some(123_456)), Ok(18_000_000_000));
    assert_eq!(ctx.config.global_cows_count, 3);
    assert_same_farm(
        &ctx.farm,
        &FarmAccount {
            owner: id(USER),
            cows: 3,
            last_update_time: 2_000,
            accumulated_rewards: 0,
            last_reward_rate: 123_456,
            last_withdraw_time: 0,
        },
    );
    assert_eq!(ctx.pool_token_account.amount, 500);
    assert_eq!(ctx.config.start_time, 1_000);
}

#[test]
fn first_purchase_clears_what_the_record_held() {
    let stale = FarmAccount {
        owner: Identity::default(),
        cows: 5,
        last_update_time: 7,
        accumulated_rewards: 8,
        last_reward_rate: 9,
        last_withdraw_time: 10,
    };
    let mut ctx = buy_ctx(config(), stale, 0);
    assert_eq!(buy_cows(&mut ctx, 1, 2_000, Some(1)), Ok(6_000_000_000));
    assert_same_farm(&ctx.farm, &FarmAccount { last_reward_rate: 1, ..farm(1, 0, 2_000, 0) });
}

#[test]
fn purchase_settles_at_the_old_rate_and_prices_at_the_old_count() {
    let mut c = config();
    c.global_cows_count = 3000;
    let mut ctx = buy_ctx(c, farm(10, 864_000, 1_000, 7), 1_000);
    // every cow at the price that holds at 3000 cows
    assert_eq!(buy_cows(&mut ctx, 2, 4_600, Some(5)), Ok(24_000_000_000));
    assert_eq!(ctx.config.global_cows_count, 3002);
    assert_same_farm(&ctx.farm, &farm(12, 5, 4_600, 7 + 360_000));
}

#[test]
fn purchase_with_the_curve_out_of_range_changes_nothing() {
    let mut ctx = buy_ctx(config(), farm(10, 864_000, 1_000, 7), 1_000);
    assert_eq!(buy_cows(&mut ctx, 2, 4_600, None), Err(ErrorCode::MathOverflow));
    assert_eq!(ctx.config.global_cows_count, 0);
    assert_same_farm(&ctx.farm, &farm(10, 864_000, 1_000, 7));
}

#[test]
fn purchase_of_no_cows_is_rejected() {
    let mut ctx = buy_ctx(config(), no_farm(), 0);
    assert_eq!(buy_cows(&mut ctx, 0, 2_000, Some(1)), Err(ErrorCode::InvalidAmount));
    assert!(ctx.farm.owner.is_default());
}

#[test]
fn purchase_over_the_cap_is_rejected() {
    let mut ctx = buy_ctx(config(), no_farm(), 0);
    assert_eq!(
        buy_cows(&mut ctx, 51, 2_000, Some(1)),
        Err(ErrorCode::ExceedsMaxCowsPerTransaction)
    );
    assert_eq!(buy_cows(&mut ctx, 50, 2_000, Some(1)), Ok(300_000_000_000));
    let mut uncapped = buy_ctx(Config { max_cows_per_transaction: None, ..config() }, no_farm(), 0);
    assert_eq!(buy_cows(&mut uncapped, 51, 2_000, Some(1)), Ok(306_000_000_000));
}

#[test]
fn purchase_beyond_64_bits_is_an_overflow() {
    let uncapped = Config { max_cows_per_transaction: None, ..config() };
    // the cost
    let mut ctx = buy_ctx(uncapped, no_farm(), 0);
    assert_eq!(buy_cows(&mut ctx, u64::MAX / 6, 2_000, Some(1)), Err(ErrorCode::MathOverflow));
    // the pool after the payment
    let mut ctx = buy_ctx(uncapped, no_farm(), u64::MAX - 5_999_999_999);
    assert_eq!(buy_cows(&mut ctx, 1, 2_000, Some(1)), Err(ErrorCode::MathOverflow));
    let mut ctx = buy_ctx(uncapped, no_farm(), u64::MAX - 6_000_000_000);
    assert_eq!(buy_cows(&mut ctx, 1, 2_000, Some(1)), Ok(6_000_000_000));
    // the cows of the farm
    let free = Config { price_curve: PriceCurve::new(0, 1, 1, 1).unwrap(), ..uncapped };
    let mut ctx = buy_ctx(free, farm(u64::MAX, 0, 0, 0), 0);
    assert_eq!(buy_cows(&mut ctx, 1, 0, Some(1)), Err(ErrorCode::MathOverflow));
    // the cows of the system
    let mut ctx = buy_ctx(Config { global_cows_count: u64::MAX - 1, ..free }, no_farm(), 0);
    assert_eq!(buy_cows(&mut ctx, 2, 0, Some(1)), Err(ErrorCode::MathOverflow));
    assert_eq!(buy_cows(&mut ctx, 1, 0, Some(1)), Ok(0));
    // the price
    let mut ctx = buy_ctx(Config { global_cows_count: 166_343_369, ..uncapped }, no_farm(), 0);
    assert_eq!(buy_cows(&mut ctx, 1, 0, Some(1)), Err(ErrorCode::MathOverflow));
    // the settled rewards
    let mut ctx = buy_ctx(uncapped, farm(u64::MAX, 864_000, 0, 0), 0);
    assert_eq!(buy_cows(&mut ctx, 1, 5, Some(1)), Err(ErrorCode::MathOverflow));
}

#[test]
fn purchase_checks_the_accounts_in_order() {
    let good = buy_ctx(config(), farm(1, 0, 0, 0), 0);
    assert_eq!(good.validate(), Ok(()));
    let mut ctx = good;
    ctx.farm.owner = id(STRANGER);
    ctx.user_token_account.mint = id(STRANGER);
    assert_eq!(buy_cows(&mut ctx, 1, 0, Some(1)), Err(ErrorCode::Unauthorized));
    let mut ctx = good;
    ctx.user_token_account.mint = id(STRANGER);
    ctx.user_token_account.owner = id(STRANGER);
    assert_eq!(buy_cows(&mut ctx, 1, 0, Some(1)), Err(ErrorCode::InvalidMint));
    let mut ctx = good;
    ctx.user_token_account.owner = id(STRANGER);
    ctx.pool_token_account.mint = id(STRANGER);
    assert_eq!(buy_cows(&mut ctx, 0, 0, Some(1)), Err(ErrorCode::InvalidOwner));
    let mut ctx = good;
    ctx.pool_token_account.mint = id(STRANGER);
    ctx.pool_token_account.owner = id(STRANGER);
    assert_eq!(buy_cows(&mut ctx, 1, 0, Some(1)), Err(ErrorCode::InvalidMint));
    let mut ctx = good;
    ctx.pool_token_account.owner = id(STRANGER);
    assert_eq!(buy_cows(&mut ctx, 1, 0, Some(1)), Err(ErrorCode::InvalidOwner));
}

#[test]
fn purchase_under_halving_caches_the_rate_of_the_day() {
    let mut ctx = buy_ctx(halving_config(), farm(3, 0, 1_000 + DAY - 100, 1), 0);
    // price 100 * (1 + 0 / 10)
    assert_eq!(buy_cows(&mut ctx, 5, 1_000 + DAY + 50, None), Ok(500));
    assert_same_farm(&ctx.farm, &farm(8, 864_000, 1_000 + DAY + 50, 1 + 7_500));
    assert_eq!(ctx.config.global_cows_count, 5);
    // price 100 * (1 + 5 / 10)
    assert_eq!(buy_cows(&mut ctx, 2, 1_000 + DAY + 50, None), Ok(300));
}

#[test]
fn compounding_spends_rewards_and_moves_no_tokens() {
    let mut c = config();
    c.global_cows_count = 3000;
    let mut ctx = compound_ctx(c, farm(10, 864_000, 1_000, 24_000_000_000), 77);
    let plan = ctx.preview(2, 4_600).unwrap();
    assert_eq!(plan.total_cost, 24_000_000_000);
    assert_eq!(plan.rate_point, RatePoint { global_cows: 3002, tvl: 77 });
    assert_eq!(compound_cows(&mut ctx, 2, 4_600, Some(5)), Ok(()));
    assert_eq!(ctx.config.global_cows_count, 3002);
    assert_same_farm(&ctx.farm, &farm(12, 5, 4_600, 360_000));
    assert_eq!(ctx.pool_token_account.amount, 77);
}

#[test]
fn compounding_needs_rewards_for_the_whole_cost() {
    let c = config();
    // settled rewards: 11,999,640,000 + 360,000 = 12,000,000,000 = 2 * 6,000,000,000
    let mut ctx = compound_ctx(c, farm(10, 864_000, 1_000, 11_999_640_000 - 1), 0);
    assert_eq!(compound_cows(&mut ctx, 2, 4_600, Some(5)), Err(ErrorCode::InsufficientRewards));
    assert_same_farm(&ctx.farm, &farm(10, 864_000, 1_000, 11_999_640_000 - 1));
    assert_eq!(ctx.config.global_cows_count, 0);
    let mut ctx = compound_ctx(c, farm(10, 864_000, 1_000, 11_999_640_000), 0);
    assert_eq!(compound_cows(&mut ctx, 2, 4_600, Some(5)), Ok(()));
    assert_eq!(ctx.farm.accumulated_rewards, 0);
    assert_eq!(ctx.farm.cows, 12);
}

#[test]
fn compounding_is_not_capped() {
    let free = Config { price_curve: PriceCurve::new(0, 1, 1, 1).unwrap(), ..config() };
    let mut ctx = compound_ctx(free, farm(1, 0, 0, 0), 0);
    assert_eq!(compound_cows(&mut ctx, 51, 0, Some(5)), Ok(()));
    assert_eq!(ctx.farm.cows, 52);
}

#[test]
fn compounding_rejections() {
    let good = compound_ctx(config(), farm(10, 864_000, 1_000, 0), 0);
    let mut ctx = good;
    assert_eq!(compound_cows(&mut ctx, 0, 4_600, Some(5)), Err(ErrorCode::InvalidAmount));
    let mut ctx = good;
    ctx.farm.owner = id(STRANGER);
    ctx.pool_token_account.key = id(STRANGER);
    assert_eq!(compound_cows(&mut ctx, 1, 4_600, Some(5)), Err(ErrorCode::Unauthorized));
    let mut ctx = good;
    ctx.pool_token_account.key = id(STRANGER);
    assert_eq!(compound_cows(&mut ctx, 0, 4_600, Some(5)), Err(ErrorCode::InvalidPoolAccount));
    // a cost beyond 64 bits is an overflow, not a want of rewards
    let mut ctx = good;
    assert_eq!(compound_cows(&mut ctx, u64::MAX, 4_600, Some(5)), Err(ErrorCode::MathOverflow));
    // the curve's value is looked at last
    let mut ctx = compound_ctx(config(), farm(10, 864_000, 1_000, 6_000_000_000), 0);
    assert_eq!(compound_cows(&mut ctx, 1, 4_600, None), Err(ErrorCode::MathOverflow));
    assert_eq!(ctx.farm.accumulated_rewards, 6_000_000_000);
    let mut ctx = compound_ctx(config(), farm(10, 864_000, 1_000, 0), 0);
    assert_eq!(compound_cows(&mut ctx, 1, 4_600, None), Err(ErrorCode::InsufficientRewards));
}

#[test]
fn first_withdrawal_pays_everything() {
    let mut ctx = withdraw_ctx(config(), farm(10, 864_000, 1_000, 1), 1_000_000);
    assert_eq!(
        ctx.read_rate_point(4_600),
        Ok(RatePoint { global_cows: 0, tvl: 1_000_000 - 360_001 })
    );
    assert_eq!(
        withdraw_milk(&mut ctx, 4_600, Some(5)),
        Ok(Withdrawal { amount: 360_001, penalty: 0 })
    );
    // no cow sold yet: the floor is cached, not the curve's value
    assert_same_farm(
        &ctx.farm,
        &FarmAccount { last_withdraw_time: 4_600, ..farm(10, MIN_REWARD_PER_DAY, 4_600, 0) },
    );
}

#[test]
fn withdrawal_within_a_day_pays_half_rounded_down() {
    let mut c = config();
    c.global_cows_count = 10;
    let mut f = farm(10, 864_000, 1_000, 1);
    f.last_withdraw_time = 4_600 - DAY + 1;
    let mut ctx = withdraw_ctx(c, f, 1_000_000);
    assert_eq!(
        withdraw_milk(&mut ctx, 4_600, Some(5)),
        Ok(Withdrawal { amount: 180_000, penalty: 180_001 })
    );
    assert_same_farm(
        &ctx.farm,
        &FarmAccount { last_withdraw_time: 4_600, ..farm(10, 5, 4_600, 0) },
    );
}

#[test]
fn withdrawal_a_day_later_pays_everything() {
    let mut c = config();
    c.global_cows_count = 10;
    let mut f = farm(10, 864_000, 1_000, 1);
    f.last_withdraw_time = 4_600 - DAY;
    let mut ctx = withdraw_ctx(c, f, 1_000_000);
    assert_eq!(
        withdraw_milk(&mut ctx, 4_600, Some(5)),
        Ok(Withdrawal { amount: 360_001, penalty: 0 })
    );
}

#[test]
fn withdrawal_before_the_last_one_pays_half() {
    let mut f = farm(0, 0, 0, 9);
    f.last_withdraw_time = i64::MAX;
    let mut ctx = withdraw_ctx(config(), f, 1_000_000);
    assert_eq!(withdraw_milk(&mut ctx, i64::MIN, None), Ok(Withdrawal { amount: 4, penalty: 5 }));
    assert_eq!(ctx.farm.last_withdraw_time, i64::MIN);
    let mut g = farm(0, 0, 0, 9);
    g.last_withdraw_time = i64::MIN;
    let mut ctx = withdraw_ctx(config(), g, 1_000_000);
    assert_eq!(withdraw_milk(&mut ctx, i64::MAX, None), Ok(Withdrawal { amount: 9, penalty: 0 }));
}

#[test]
fn withdrawal_pays_no_more_than_the_pool_holds() {
    let mut ctx = withdraw_ctx(config(), farm(10, 864_000, 1_000, 1), 100);
    assert_eq!(ctx.read_rate_point(4_600), Ok(RatePoint { global_cows: 0, tvl: 0 }));
    assert_eq!(withdraw_milk(&mut ctx, 4_600, Some(5)), Ok(Withdrawal { amount: 100, penalty: 0 }));
    assert_eq!(ctx.farm.accumulated_rewards, 0);
    let mut f = farm(10, 864_000, 1_000, 1);
    f.last_withdraw_time = 4_000;
    let mut ctx = withdraw_ctx(config(), f, 100);
    assert_eq!(
        withdraw_milk(&mut ctx, 4_600, Some(5)),
        Ok(Withdrawal { amount: 100, penalty: 180_001 })
    );
}

#[test]
fn withdrawal_rejections() {
    let mut ctx = withdraw_ctx(config(), farm(10, 864_000, 1_000, 0), 100);
    assert_eq!(withdraw_milk(&mut ctx, 1_000, Some(5)), Err(ErrorCode::NoRewardsAvailable));
    assert_eq!(ctx.read_rate_point(1_000), Err(ErrorCode::NoRewardsAvailable));
    assert_eq!(ctx.farm.last_withdraw_time, 0);
    let mut c = config();
    c.global_cows_count = 1;
    let good = withdraw_ctx(c, farm(10, 864_000, 1_000, 1), 100);
    let mut ctx = good;
    assert_eq!(withdraw_milk(&mut ctx, 1_000, None), Err(ErrorCode::MathOverflow));
    assert_same_farm(&ctx.farm, &farm(10, 864_000, 1_000, 1));
    let mut ctx = good;
    ctx.farm.cows = u64::MAX;
    assert_eq!(withdraw_milk(&mut ctx, 1_001, Some(5)), Err(ErrorCode::MathOverflow));
    let mut ctx = good;
    ctx.farm.owner = id(STRANGER);
    ctx.user_token_account.mint = id(STRANGER);
    assert_eq!(withdraw_milk(&mut ctx, 1_000, Some(5)), Err(ErrorCode::Unauthorized));
    let mut ctx = good;
    ctx.user_token_account.mint = id(STRANGER);
    ctx.user_token_account.owner = id(STRANGER);
    assert_eq!(withdraw_milk(&mut ctx, 1_000, Some(5)), Err(ErrorCode::InvalidMint));
    let mut ctx = good;
    ctx.user_token_account.owner = id(STRANGER);
    ctx.pool_token_account.mint = id(STRANGER);
    assert_eq!(withdraw_milk(&mut ctx, 1_000, Some(5)), Err(ErrorCode::InvalidOwner));
    let mut ctx = good;
    ctx.pool_token_account.mint = id(STRANGER);
    assert_eq!(withdraw_milk(&mut ctx, 1_000, Some(5)), Err(ErrorCode::InvalidMint));
    // who owns the pool is not a condition of a withdrawal
    let mut ctx = good;
    ctx.pool_token_account.owner = id(STRANGER);
    assert_eq!(withdraw_milk(&mut ctx, 1_000, Some(5)), Ok(Withdrawal { amount: 1, penalty: 0 }));
}

#[test]
fn export_takes_cows_from_the_farm_only() {
    let mut c = config();
    c.global_cows_count = 40;
    let mut ctx = export_ctx(c, farm(10, 864_000, 1_000, 1));
    assert_eq!(export_cows(&mut ctx, 4, 4_600), Ok(4));
    assert_same_farm(&ctx.farm, &farm(6, 864_000, 4_600, 360_001));
    assert_eq!(ctx.config.global_cows_count, 40);
    assert_eq!(export_cows(&mut ctx, 6, 4_600), Ok(6));
    assert_eq!(ctx.farm.cows, 0);
    assert_eq!(ctx.config.global_cows_count, 40);
}

#[test]
fn export_rejections() {
    let good = export_ctx(config(), farm(10, 864_000, 1_000, 1));
    let mut ctx = good;
    assert_eq!(export_cows(&mut ctx, 11, 4_600), Err(ErrorCode::InsufficientCows));
    assert_same_farm(&ctx.farm, &farm(10, 864_000, 1_000, 1));
    assert_eq!(export_cows(&mut ctx, 0, 4_600), Err(ErrorCode::InvalidAmount));
    let mut ctx = good;
    ctx.farm.cows = u64::MAX;
    assert_eq!(export_cows(&mut ctx, 1, 4_600), Err(ErrorCode::MathOverflow));
    let mut ctx = good;
    ctx.farm.owner = id(STRANGER);
    ctx.cow_mint = id(STRANGER);
    assert_eq!(export_cows(&mut ctx, 1, 4_600), Err(ErrorCode::Unauthorized));
    let mut ctx = good;
    ctx.cow_mint = id(STRANGER);
    ctx.user_cow_token_account.mint = id(STRANGER);
    assert_eq!(export_cows(&mut ctx, 1, 4_600), Err(ErrorCode::InvalidCowMint));
    let mut ctx = good;
    ctx.user_cow_token_account.mint = id(MILK);
    ctx.user_cow_token_account.owner = id(STRANGER);
    assert_eq!(export_cows(&mut ctx, 1, 4_600), Err(ErrorCode::InvalidMint));
    let mut ctx = good;
    ctx.user_cow_token_account.owner = id(STRANGER);
    ctx.pool_token_account.key = id(STRANGER);
    assert_eq!(export_cows(&mut ctx, 1, 4_600), Err(ErrorCode::InvalidOwner));
    let mut ctx = good;
    ctx.pool_token_account.key = id(STRANGER);
    assert_eq!(export_cows(&mut ctx, 0, 4_600), Err(ErrorCode::InvalidPoolAccount));
}

#[test]
fn import_adds_cows_to_the_farm_and_to_the_system() {
    let mut c = config();
    c.global_cows_count = 40;
    let mut ctx = import_ctx(c, farm(10, 864_000, 1_000, 1), 500);
    assert_eq!(ctx.read_rate_point(4, 4_600), Ok(RatePoint { global_cows: 44, tvl: 500 }));
    assert_eq!(import_cows(&mut ctx, 4, 4_600, Some(5)), Ok(4));
    assert_same_farm(&ctx.farm, &farm(14, 5, 4_600, 360_001));
    assert_eq!(ctx.config.global_cows_count, 44);
}

#[test]
fn first_import_creates_the_farm() {
    let mut ctx = import_ctx(config(), no_farm(), 500);
    assert_eq!(import_cows(&mut ctx, 60, 4_600, Some(5)), Ok(60));
    assert_same_farm(&ctx.farm, &farm(60, 5, 4_600, 0));
    assert_eq!(ctx.config.global_cows_count, 60);
}

#[test]
fn import_rejections() {
    let good = import_ctx(config(), farm(10, 864_000, 1_000, 1), 0);
    let mut ctx = good;
    assert_eq!(import_cows(&mut ctx, 0, 4_600, Some(5)), Err(ErrorCode::InvalidAmount));
    assert_eq!(import_cows(&mut ctx, 1, 4_600, None), Err(ErrorCode::MathOverflow));
    assert_eq!(import_cows(&mut ctx, u64::MAX, 4_600, Some(5)), Err(ErrorCode::MathOverflow));
    assert_same_farm(&ctx.farm, &farm(10, 864_000, 1_000, 1));
    let mut ctx = good;
    ctx.config.global_cows_count = u64::MAX;
    assert_eq!(import_cows(&mut ctx, 1, 4_600, Some(5)), Err(ErrorCode::MathOverflow));
    let mut ctx = good;
    ctx.farm.owner = id(STRANGER);
    ctx.cow_mint = id(STRANGER);
    assert_eq!(import_cows(&mut ctx, 1, 4_600, Some(5)), Err(ErrorCode::Unauthorized));
    let mut ctx = good;
    ctx.cow_mint = id(STRANGER);
    assert_eq!(import_cows(&mut ctx, 1, 4_600, Some(5)), Err(ErrorCode::InvalidCowMint));
    let mut ctx = good;
    ctx.user_cow_token_account.mint = id(MILK);
    assert_eq!(import_cows(&mut ctx, 1, 4_600, Some(5)), Err(ErrorCode::InvalidMint));
    let mut ctx = good;
    ctx.user_cow_token_account.owner = id(STRANGER);
    assert_eq!(import_cows(&mut ctx, 1, 4_600, Some(5)), Err(ErrorCode::InvalidOwner));
    let mut ctx = good;
    ctx.pool_token_account.key = id(STRANGER);
    assert_eq!(import_cows(&mut ctx, 1, 4_600, Some(5)), Err(ErrorCode::InvalidPoolAccount));
}

#[test]
fn export_and_import_count_a_cow_twice() {
    let mut c = config();
    c.global_cows_count = 10;
    let mut out = export_ctx(c, farm(10, 864_000, 1_000, 0));
    assert_eq!(export_cows(&mut out, 10, 1_000), Ok(10));
    let mut back = import_ctx(out.config, out.farm, 0);
    assert_eq!(import_cows(&mut back, 10, 1_000, Some(5)), Ok(10));
    assert_eq!(back.farm.cows, 10);
    assert_eq!(back.config.global_cows_count, 20);
}

#[test]
fn system_count_is_the_sum_of_cows_bought_compounded_and_imported() {
    let c = Config { price_curve: PriceCurve::new(10, 1_000_000, 1, 1).unwrap(), ..config() };
    let mut buy = buy_ctx(c, no_farm(), 0);
    buy_cows(&mut buy, 3, 1_000, Some(864_000)).unwrap();
    buy_cows(&mut buy, 4, 1_100, Some(864_000)).unwrap();
    assert_eq!(buy.farm.accumulated_rewards, 3 * 10 * 100);
    let mut import = import_ctx(buy.config, buy.farm, 70);
    import_cows(&mut import, 2, 1_200, Some(864_000)).unwrap();
    let mut export = export_ctx(import.config, import.farm);
    export_cows(&mut export, 1, 1_300).unwrap();
    let mut compound = compound_ctx(export.config, export.farm, 70);
    compound_cows(&mut compound, 5, 1_400, Some(864_000)).unwrap();
    let mut withdraw = withdraw_ctx(compound.config, compound.farm, 70);
    withdraw_milk(&mut withdraw, 1_500, Some(864_000)).unwrap();
    assert_eq!(withdraw.config.global_cows_count, 3 + 4 + 2 + 5);
    assert_eq!(withdraw.farm.cows, 3 + 4 + 2 - 1 + 5);
    assert_eq!(withdraw.config.start_time, 1_000);
}

#[test]
fn figures_of_the_system() {
    let mut c = config();
    c.global_cows_count = 40;
    let ctx = GetGlobalStats { config: c, pool_token_account: account(POOL, MILK, POOL_AUTHORITY, 77) };
    assert_eq!(
        get_global_stats(&ctx),
        Ok(GlobalStats { global_cows_count: 40, pool_balance_milk: 77 })
    );
    let wrong =
        GetGlobalStats { config: c, pool_token_account: account(STRANGER, MILK, POOL_AUTHORITY, 77) };
    assert_eq!(get_global_stats(&wrong), Err(ErrorCode::InvalidPoolAccount));
}

#[test]
fn migration_takes_the_whole_pool() {
    assert_eq!(v3_migrating(&migrate_ctx(12_345)), Ok(12_345));
    assert_eq!(v3_migrating(&migrate_ctx(u64::MAX)), Ok(u64::MAX));
    assert_eq!(v3_migrating(&migrate_ctx(0)), Err(ErrorCode::NoFundsToMigrate));
}

#[test]
fn migration_rejections() {
    let good = migrate_ctx(5);
    let mut ctx = good;
    ctx.admin = id(STRANGER);
    ctx.admin_token_account.owner = id(STRANGER);
    assert_eq!(v3_migrating(&ctx), Err(ErrorCode::Unauthorized));
    let mut ctx = good;
    ctx.admin_token_account.mint = id(COW);
    ctx.admin_token_account.owner = id(STRANGER);
    assert_eq!(v3_migrating(&ctx), Err(ErrorCode::InvalidMint));
    let mut ctx = good;
    ctx.admin_token_account.owner = id(STRANGER);
    ctx.pool_token_account.key = id(STRANGER);
    assert_eq!(v3_migrating(&ctx), Err(ErrorCode::InvalidOwner));
    let mut ctx = good;
    ctx.pool_token_account.key = id(STRANGER);
    ctx.pool_token_account.amount = 0;
    assert_eq!(v3_migrating(&ctx), Err(ErrorCode::InvalidPoolAccount));
}

#[test]
fn error_messages() {
    assert_eq!(ErrorCode::MathOverflow.message(), "Math overflow");
    assert_eq!(ErrorCode::Unauthorized.message(), "Unauthorized access");
    assert_eq!(ErrorCode::InsufficientRewards.message(), "Insufficient rewards to buy cows");
    assert_eq!(ErrorCode::NoRewardsAvailable.message(), "No rewards available for withdrawal");
    assert_eq!(ErrorCode::InvalidAmount.message(), "Invalid amount - must be greater than 0");
    assert_eq!(ErrorCode::InvalidMint.message(), "Invalid mint address");
    assert_eq!(ErrorCode::InvalidOwner.message(), "Invalid token account owner");
    assert_eq!(ErrorCode::InvalidPoolAccount.message(), "Invalid pool token account");
    assert_eq!(ErrorCode::NoFundsToMigrate.message(), "No funds available for migration");
    assert_eq!(
        ErrorCode::ExceedsMaxCowsPerTransaction.message(),
        "Cannot buy more than 50 cows per transaction"
    );
    assert_eq!(ErrorCode::InsufficientCows.message(), "Insufficient cows to export");
    assert_eq!(ErrorCode::InvalidCowMint.message(), "Invalid COW mint address");
}
