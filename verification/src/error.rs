//! The ways in which an operation on a pool can be refused.

use vstd::prelude::*;

verus! {

/// Why an operation was refused. A refused operation changes nothing, so it
/// can be corrected and submitted again.
#[derive(Clone, Copy, Debug, PartialEq, Eq, Structural)]
pub enum AjoError {
    /// Every seat of the pool is taken.
    PoolFull,
    /// The identity is already a member of the pool.
    MemberExists,
    /// The contribution amount is zero.
    InvalidContribution,
    /// No member record answers to the identity.
    MemberNotFound,
    /// The pool is still forming.
    PoolNotActive,
    /// The pool has already been activated.
    PoolActive,
    /// The caller may not do this.
    Unauthorized,
    /// The group size lies outside two to ten.
    InvalidPoolSize,
    /// The paying side cannot cover the amount.
    InsufficientFunds,
    /// The named recipient is not the one whose turn it is.
    InvalidPayoutRecipient,
    /// The number of cycles is zero.
    InvalidCyclePeriod,
    /// The member has paid every cycle, or the interval since the pool's
    /// last contribution has not yet passed.
    ContributionAlreadyMade,
    /// The payout position lies outside one to the group size.
    InvalidPayoutPosition,
    /// Another member already holds the payout position.
    PayoutPositionTaken,
    /// A token-denominated pool was addressed without its token accounts.
    TokenAccountMissing,
    /// Every payout of the pool has been made.
    PoolCompleted,
}

impl AjoError {
    /// The text that describes this refusal to a person.
    pub open spec fn text(self) -> Seq<char> {
        match self {
            AjoError::PoolFull => "Pool is already full"@,
            AjoError::MemberExists => "Member already exists in pool"@,
            AjoError::InvalidContribution => "Invalid contribution amount"@,
            AjoError::MemberNotFound => "Member not found"@,
            AjoError::PoolNotActive => "Pool not active"@,
            AjoError::PoolActive => "Pool is already active"@,
            AjoError::Unauthorized => "Unauthorized"@,
            AjoError::InvalidPoolSize => "Invalid pool size - must be between 2 and 10 members"@,
            AjoError::InsufficientFunds => "Insufficient funds for contribution"@,
            AjoError::InvalidPayoutRecipient => "Invalid payout recipient"@,
            AjoError::InvalidCyclePeriod => "Invalid cycle period or total cycles"@,
            AjoError::ContributionAlreadyMade => "Contribution already made for this cycle"@,
            AjoError::InvalidPayoutPosition =>
                "Invalid payout position - must be between 1 and total members"@,
            AjoError::PayoutPositionTaken => "Payout position already taken"@,
            AjoError::TokenAccountMissing => "Token account required"@,
            AjoError::PoolCompleted => "Pool has completed all of its cycles"@,
        }
    }

    /// The description of this refusal as an owned string.
    pub fn message(&self) -> (s: String)
        ensures
            s@ == self.text(),
    {
        let text: &str = match self {
            AjoError::PoolFull => "Pool is already full",
            AjoError::MemberExists => "Member already exists in pool",
            AjoError::InvalidContribution => "Invalid contribution amount",
            AjoError::MemberNotFound => "Member not found",
            AjoError::PoolNotActive => "Pool not active",
            AjoError::PoolActive => "Pool is already active",
            AjoError::Unauthorized => "Unauthorized",
            AjoError::InvalidPoolSize => "Invalid pool size - must be between 2 and 10 members",
            AjoError::InsufficientFunds => "Insufficient funds for contribution",
            AjoError::InvalidPayoutRecipient => "Invalid payout recipient",
            AjoError::InvalidCyclePeriod => "Invalid cycle period or total cycles",
            AjoError::ContributionAlreadyMade => "Contribution already made for this cycle",
            AjoError::InvalidPayoutPosition =>
                "Invalid payout position - must be between 1 and total members",
            AjoError::PayoutPositionTaken => "Payout position already taken",
            AjoError::TokenAccountMissing => "Token account required",
            AjoError::PoolCompleted => "Pool has completed all of its cycles",
        };
        String::from_str(text)
    }
}

} // verus!
