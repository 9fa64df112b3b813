//! The reasons for which a transition is rejected.

use vstd::prelude::*;

verus! {

/// Why a transition was rejected. A rejected transition changes nothing.
#[derive(Clone, Copy, Debug, PartialEq, Eq, Structural)]
pub enum ErrorCode {
    /// A checked arithmetic step, or a curve value, left the 64-bit range.
    MathOverflow,
    /// The caller is neither the owner of the farm nor the administrator.
    Unauthorized,
    /// The settled rewards do not cover the cost of the cows to compound.
    InsufficientRewards,
    /// A withdrawal was asked for while the settled balance is zero.
    NoRewardsAvailable,
    /// A quantity of zero was asked for.
    InvalidAmount,
    /// A token account is denominated in another mint than was expected.
    InvalidMint,
    /// A token account belongs to another owner than was expected.
    InvalidOwner,
    /// The token account presented as the pool is not the configured one.
    InvalidPoolAccount,
    /// The pool is empty, so there is nothing to migrate.
    NoFundsToMigrate,
    /// More cows were asked for than one purchase may hold.
    ExceedsMaxCowsPerTransaction,
    /// The farm holds fewer cows than were to be exported.
    InsufficientCows,
    /// The mint presented as the cow mint is not the configured one.
    InvalidCowMint,
}

impl ErrorCode {
    /// The text shown to a user for this error.
    pub open spec fn message_text(self) -> Seq<char> {
        match self {
            ErrorCode::MathOverflow => "Math overflow"@,
            ErrorCode::Unauthorized => "Unauthorized access"@,
            ErrorCode::InsufficientRewards => "Insufficient rewards to buy cows"@,
            ErrorCode::NoRewardsAvailable => "No rewards available for withdrawal"@,
            ErrorCode::InvalidAmount => "Invalid amount - must be greater than 0"@,
            ErrorCode::InvalidMint => "Invalid mint address"@,
            ErrorCode::InvalidOwner => "Invalid token account owner"@,
            ErrorCode::InvalidPoolAccount => "Invalid pool token account"@,
            ErrorCode::NoFundsToMigrate => "No funds available for migration"@,
            ErrorCode::ExceedsMaxCowsPerTransaction => "Cannot buy more than 50 cows per transaction"@,
            ErrorCode::InsufficientCows => "Insufficient cows to export"@,
            ErrorCode::InvalidCowMint => "Invalid COW mint address"@,
        }
    }

    /// Returns the text shown to a user for this error.
    pub fn message(&self) -> (text: &'static str)
        ensures
            text@ == self.message_text(),
    {
        match self {
            ErrorCode::MathOverflow => "Math overflow",
            ErrorCode::Unauthorized => "Unauthorized access",
            ErrorCode::InsufficientRewards => "Insufficient rewards to buy cows",
            ErrorCode::NoRewardsAvailable => "No rewards available for withdrawal",
            ErrorCode::InvalidAmount => "Invalid amount - must be greater than 0",
            ErrorCode::InvalidMint => "Invalid mint address",
            ErrorCode::InvalidOwner => "Invalid token account owner",
            ErrorCode::InvalidPoolAccount => "Invalid pool token account",
            ErrorCode::NoFundsToMigrate => "No funds available for migration",
            ErrorCode::ExceedsMaxCowsPerTransaction => "Cannot buy more than 50 cows per transaction",
            ErrorCode::InsufficientCows => "Insufficient cows to export",
            ErrorCode::InvalidCowMint => "Invalid COW mint address",
        }
    }
}

} // verus!
