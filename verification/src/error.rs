//! The ways in which an operation on a campaign is refused.

use vstd::prelude::*;

verus! {

/// Why an operation was refused. A refused operation leaves the ledger as it was.
#[derive(Clone, Copy, Debug, PartialEq, Eq, Structural)]
pub enum CrowdfundingError {
    /// A donation came after the campaign's deadline.
    CampaignExpired,
    /// A withdrawal came before the deadline had passed or with the goal unmet.
    WithdrawNotAllowed,
    /// A campaign already exists at the address that the new one derives to.
    AccountAlreadyInUse,
    /// No campaign exists at the address named.
    AccountNotInitialized,
    /// The campaign account named is not the one that the seeds derive to, or
    /// the nonce supplied is not the one stored.
    ConstraintSeeds,
    /// The signer is not the campaign's authority, or a new campaign's account
    /// is the authority's own.
    ConstraintRaw,
    /// The donor holds less than the amount to be moved.
    InsufficientFunds,
    /// A sum does not fit in 64 bits.
    Overflow,
}

impl CrowdfundingError {
    /// The text of the message that goes with this error.
    pub open spec fn message_text(self) -> Seq<char> {
        match self {
            CrowdfundingError::CampaignExpired => "Campaign has expired"@,
            CrowdfundingError::WithdrawNotAllowed => "Withdrawal not allowed"@,
            CrowdfundingError::AccountAlreadyInUse => "Campaign account already in use"@,
            CrowdfundingError::AccountNotInitialized => "Campaign account not initialized"@,
            CrowdfundingError::ConstraintSeeds => "A seeds constraint was violated"@,
            CrowdfundingError::ConstraintRaw => "A raw constraint was violated"@,
            CrowdfundingError::InsufficientFunds => "Insufficient funds"@,
            CrowdfundingError::Overflow => "Arithmetic overflow"@,
        }
    }

    /// The message that goes with this error.
    pub fn message(&self) -> (text: &'static str)
        ensures
            text@ == self.message_text(),
    {
        match self {
            CrowdfundingError::CampaignExpired => "Campaign has expired",
            CrowdfundingError::WithdrawNotAllowed => "Withdrawal not allowed",
            CrowdfundingError::AccountAlreadyInUse => "Campaign account already in use",
            CrowdfundingError::AccountNotInitialized => "Campaign account not initialized",
            CrowdfundingError::ConstraintSeeds => "A seeds constraint was violated",
            CrowdfundingError::ConstraintRaw => "A raw constraint was violated",
            CrowdfundingError::InsufficientFunds => "Insufficient funds",
            CrowdfundingError::Overflow => "Arithmetic overflow",
        }
    }
}

} // verus!
