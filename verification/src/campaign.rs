//! The campaign record and the account lists of the three operations.

use crate::address::Address;
use vstd::prelude::*;

verus! {

/// The bytes that a stored campaign takes: an 8-byte discriminator followed by
/// the six fields.
pub const CAMPAIGN_ACCOUNT_SPACE: usize = 8 + 32 + 8 + 8 + 8 + 1 + 32;

/// The terms and the running total of one campaign. It lives at the address
/// derived from `authority` and `campaign_id`; the funds it has collected are
/// the balance of that address.
#[derive(Clone, Copy, Debug, PartialEq, Eq)]
pub struct CampaignAccount {
    /// Who may withdraw. Set at creation, never changed.
    pub authority: Address,
    /// The least total that permits withdrawal.
    pub goal: u64,
    /// Unix time after which donations are refused and withdrawal is open.
    pub deadline: i64,
    /// The sum of all donations accepted.
    pub total_raised: u64,
    /// The canonical nonce of the campaign's address.
    pub bump: u8,
    /// The identifier that the authority chose.
    pub campaign_id: [u8; 32],
}

/// The accounts of `initialize`.
#[derive(Clone, Copy, Debug)]
pub struct Initialize {
    /// The account that is to hold the new campaign.
    pub campaign: Address,
    /// The signer who opens the campaign and becomes its authority.
    pub authority: Address,
}

/// The accounts of `donate`.
#[derive(Clone, Copy, Debug)]
pub struct DonationContext {
    /// The campaign donated to.
    pub campaign: Address,
    /// The nonce of the campaign's address, as the caller knows it.
    pub bump: u8,
    /// The signer whose funds move.
    pub donor: Address,
}

/// The accounts of `withdraw`.
#[derive(Clone, Copy, Debug)]
pub struct WithdrawContext {
    /// The campaign withdrawn from.
    pub campaign: Address,
    /// The nonce of the campaign's address, as the caller knows it.
    pub bump: u8,
    /// The signer who claims the funds.
    pub creator: Address,
}

/// One call of an operation, with the time at which it is made.
#[derive(Clone, Copy, Debug)]
pub enum Call {
    Initialize { opening: Initialize, goal: u64, deadline: i64, campaign_id: [u8; 32] },
    Donate { donation: DonationContext, now: i64, amount: u64 },
    Withdraw { withdrawal: WithdrawContext, now: i64 },
}

} // verus!
