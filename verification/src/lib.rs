//! Economic state machine of a yield-farming game.
//!
//! Participants buy productive units ("cows") with a fungible token
//! ("MILK"), accrue a time-based yield on them, and may withdraw that yield,
//! reinvest it in further cows, or convert cows into a separately tradeable
//! token ("COW") and back.
//!
//! The crate holds the accounting rules only: the unit price curve, the
//! reward-rate policies, the settlement of yield over elapsed time, the
//! withdrawal penalty, and the transitions of a farm. It never moves tokens
//! itself; every transition that needs a transfer, a mint or a burn hands
//! the amount back to the caller, who owns custody.
//!
//! The price curve is evaluated exactly, in whole numbers. The greed-decay
//! reward curve holds an exponential and is evaluated by the caller, who
//! hands its value to the transition that caches it.

pub mod admin;
pub mod bridge;
pub mod buy;
pub mod compound;
pub mod error;
pub mod identity;
pub mod halving;
pub mod history;
pub mod policy;
pub mod pricing;
mod product;
pub mod state;
pub mod withdraw;

pub use crate::admin::get_global_stats;
pub use crate::admin::initialize_config;
pub use crate::admin::v3_migrating;
pub use crate::admin::Economics;
pub use crate::admin::GetGlobalStats;
pub use crate::admin::InitializeConfig;
pub use crate::admin::V3Migrating;
pub use crate::bridge::export_cows;
pub use crate::bridge::import_cows;
pub use crate::bridge::ExportCows;
pub use crate::bridge::ImportCows;
pub use crate::buy::buy_cows;
pub use crate::buy::BuyCows;
pub use crate::buy::Purchase;
pub use crate::compound::compound_cows;
pub use crate::compound::CompoundCows;
pub use crate::error::ErrorCode;
pub use crate::halving::HalvingSchedule;
pub use crate::identity::Identity;
pub use crate::policy::RatePoint;
pub use crate::policy::RewardPolicy;
pub use crate::pricing::PriceCurve;
pub use crate::state::update_farm_rewards;
pub use crate::state::Config;
pub use crate::state::FarmAccount;
pub use crate::state::GlobalStats;
pub use crate::state::TokenAccount;
pub use crate::withdraw::withdraw_milk;
pub use crate::withdraw::WithdrawMilk;
pub use crate::withdraw::Withdrawal;
