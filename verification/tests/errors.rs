use ajo::AjoError;

#[test]
fn every_refusal_has_its_text() {
    assert_eq!(AjoError::PoolFull.message(), "Pool is already full");
    assert_eq!(AjoError::MemberExists.message(), "Member already exists in pool");
    assert_eq!(AjoError::InvalidContribution.message(), "Invalid contribution amount");
    assert_eq!(AjoError::MemberNotFound.message(), "Member not found");
    assert_eq!(AjoError::PoolNotActive.message(), "Pool not active");
    assert_eq!(AjoError::PoolActive.message(), "Pool is already active");
    assert_eq!(AjoError::Unauthorized.message(), "Unauthorized");
    assert_eq!(
        AjoError::InvalidPoolSize.message(),
        "Invalid pool size - must be between 2 and 10 members"
    );
    assert_eq!(AjoError::InsufficientFunds.message(), "Insufficient funds for contribution");
    assert_eq!(AjoError::InvalidPayoutRecipient.message(), "Invalid payout recipient");
    assert_eq!(AjoError::InvalidCyclePeriod.message(), "Invalid cycle period or total cycles");
    assert_eq!(
        AjoError::ContributionAlreadyMade.message(),
        "Contribution already made for this cycle"
    );
    assert_eq!(
        AjoError::InvalidPayoutPosition.message(),
        "Invalid payout position - must be between 1 and total members"
    );
    assert_eq!(AjoError::PayoutPositionTaken.message(), "Payout position already taken");
    assert_eq!(AjoError::TokenAccountMissing.message(), "Token account required");
    assert_eq!(AjoError::PoolCompleted.message(), "Pool has completed all of its cycles");
}
