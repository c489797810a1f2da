use vstd::prelude::*;

verus! {

/// Errors surfaced by the staking operations.
#[derive(Debug, Clone, Copy, PartialEq, Eq, Structural)]
pub enum StakeError {
    /// A supplied rate is not a fraction in (0, 1].
    InvalidRate,
    /// A deposit arrived after the pool's staking period ended.
    NotInStakingRange,
    /// Confirmation was attempted before the scheduled redemption time.
    RedeemNotCoolDown,
    /// Declared for callers; no operation raises it.
    InvalidRedeemAmount,
    /// Declared for callers; no operation raises it.
    StakeAccountFrozen,
    /// A deposit would push the depositor's share over the pool's stake rate.
    StakingLimit,
}

impl StakeError {
    /// The human-readable message of the error.
    pub fn message(&self) -> (r: &'static str)
        ensures
            r@ == self.message_spec(),
    {
        match self {
            StakeError::InvalidRate => "Invalid rate.",
            StakeError::NotInStakingRange => "Not in staking range.",
            StakeError::RedeemNotCoolDown => "Redeem not cool down.",
            StakeError::InvalidRedeemAmount => "Invalid redeem amount.",
            StakeError::StakeAccountFrozen => "Stake account was fronzen.",
            StakeError::StakingLimit => "Reach the staking limit",
        }
    }

    pub open spec fn message_spec(&self) -> Seq<char> {
        match self {
            StakeError::InvalidRate => "Invalid rate."@,
            StakeError::NotInStakingRange => "Not in staking range."@,
            StakeError::RedeemNotCoolDown => "Redeem not cool down."@,
            StakeError::InvalidRedeemAmount => "Invalid redeem amount."@,
            StakeError::StakeAccountFrozen => "Stake account was fronzen."@,
            StakeError::StakingLimit => "Reach the staking limit"@,
        }
    }
}

} // verus!
