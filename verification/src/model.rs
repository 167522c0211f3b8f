//! The ledger as a mathematical value, and each operation as a function from
//! the ledger before to the ledger after or to the reason for refusal.

use crate::address::Address;
use crate::campaign::{Call, CampaignAccount, DonationContext, Initialize, WithdrawContext};
use crate::derivation::{
    campaign_seeds, campaign_seeds_with_nonce, created_program_address, found_program_address,
};
use crate::error::CrowdfundingError;
use vstd::prelude::*;

verus! {

/// What the ledger holds: the program that owns the campaigns, the balance of
/// every address, and the campaign stored at each address that has one.
#[verifier::ext_equal]
pub struct LedgerState {
    pub program_id: Seq<u8>,
    /// Defined on every address; zero where nothing was ever credited.
    pub lamports: Map<Seq<u8>, nat>,
    pub campaigns: Map<Seq<u8>, CampaignAccount>,
}

/// An optional address as its bytes.
pub open spec fn address_bytes(address: Option<Address>) -> Option<Seq<u8>> {
    match address {
        Some(a) => Some(a@),
        None => None,
    }
}

/// An optional address and nonce, the address as its bytes.
pub open spec fn address_and_nonce(found: Option<(Address, u8)>) -> Option<(Seq<u8>, u8)> {
    match found {
        Some((a, bump)) => Some((a@, bump)),
        None => None,
    }
}

impl LedgerState {
    /// The ledger of `program_id` with no funds and no campaigns.
    pub open spec fn empty(program_id: Seq<u8>) -> LedgerState {
        LedgerState {
            program_id,
            lamports: Map::total(|a: Seq<u8>| 0nat),
            campaigns: Map::empty(),
        }
    }

    /// Every address has a balance, and no campaign sits at its own
    /// authority's address.
    pub open spec fn valid(self) -> bool {
        &&& forall|a: Seq<u8>| self.lamports.contains_key(a)
        &&& forall|a: Seq<u8>| #[trigger]
            self.campaigns.contains_key(a) ==> self.campaigns[a].authority@ != a
    }

    /// The balance of `address`.
    pub open spec fn balance(self, address: Seq<u8>) -> nat {
        self.lamports[address]
    }

    /// The campaign stored at `address`, if there is one.
    pub open spec fn campaign(self, address: Seq<u8>) -> Option<CampaignAccount> {
        if self.campaigns.contains_key(address) {
            Some(self.campaigns[address])
        } else {
            None
        }
    }

    /// This ledger with `balance` at `address`.
    pub open spec fn with_balance(self, address: Seq<u8>, balance: nat) -> LedgerState {
        LedgerState { lamports: self.lamports.insert(address, balance), ..self }
    }

    /// This ledger with `record` stored at `address`.
    pub open spec fn with_campaign(self, address: Seq<u8>, record: CampaignAccount) -> LedgerState {
        LedgerState { campaigns: self.campaigns.insert(address, record), ..self }
    }

    /// This ledger after `amount` has moved from `from` to `to`.
    pub open spec fn transfer(self, from: Seq<u8>, to: Seq<u8>, amount: nat) -> LedgerState
        recommends
            self.balance(from) >= amount,
    {
        let debited = self.with_balance(from, (self.balance(from) - amount) as nat);
        debited.with_balance(to, debited.balance(to) + amount)
    }

    /// The address that the campaign stored at `campaign` derives to from its
    /// own authority, identifier and nonce; `None` where no campaign is stored
    /// there or the derivation is refused.
    pub open spec fn rederived(self, campaign: Seq<u8>) -> Option<Seq<u8>> {
        match self.campaign(campaign) {
            Some(c) => created_program_address(
                campaign_seeds_with_nonce(c.authority@, c.campaign_id@, c.bump),
                self.program_id,
            ),
            None => None,
        }
    }

    /// A campaign is stored at `campaign` and derives again to that address.
    pub open spec fn in_place(self, campaign: Seq<u8>) -> bool {
        self.campaign(campaign) is Some && self.rederived(campaign) == Some(campaign)
    }

    /// The check that every access to an existing campaign passes first: a
    /// campaign is stored at `campaign`, the nonce supplied is the one stored,
    /// and `derived`, the address derived again from the stored record, is
    /// `campaign` itself.
    pub open spec fn access(self, campaign: Seq<u8>, bump: u8, derived: Option<Seq<u8>>) -> Result<
        CampaignAccount,
        CrowdfundingError,
    > {
        match self.campaign(campaign) {
            None => Err(CrowdfundingError::AccountNotInitialized),
            Some(c) => if bump != c.bump || derived != Some(campaign) {
                Err(CrowdfundingError::ConstraintSeeds)
            } else {
                Ok(c)
            },
        }
    }

    /// `initialize`, given what the search for the campaign's address found.
    pub open spec fn after_initialize_given(
        self,
        ctx: Initialize,
        found: Option<(Seq<u8>, u8)>,
        goal: u64,
        deadline: i64,
        campaign_id: [u8; 32],
    ) -> Result<LedgerState, CrowdfundingError> {
        match found {
            None => Err(CrowdfundingError::ConstraintSeeds),
            Some((address, bump)) => if ctx.campaign@ != address {
                Err(CrowdfundingError::ConstraintSeeds)
            } else if self.campaigns.contains_key(address) {
                Err(CrowdfundingError::AccountAlreadyInUse)
            } else if ctx.campaign@ == ctx.authority@ {
                Err(CrowdfundingError::ConstraintRaw)
            } else {
                Ok(
                    self.with_campaign(
                        address,
                        CampaignAccount {
                            authority: ctx.authority,
                            goal,
                            deadline,
                            total_raised: 0,
                            bump,
                            campaign_id,
                        },
                    ),
                )
            },
        }
    }

    /// `initialize`: the campaign of `ctx.authority` and `campaign_id` is
    /// stored at the address that the two derive to, with nothing raised.
    pub open spec fn after_initialize(
        self,
        ctx: Initialize,
        goal: u64,
        deadline: i64,
        campaign_id: [u8; 32],
    ) -> Result<LedgerState, CrowdfundingError> {
        self.after_initialize_given(
            ctx,
            found_program_address(campaign_seeds(ctx.authority@, campaign_id@), self.program_id),
            goal,
            deadline,
            campaign_id,
        )
    }

    /// `donate`, given the address derived again from the stored campaign.
    pub open spec fn after_donate_given(
        self,
        ctx: DonationContext,
        derived: Option<Seq<u8>>,
        now: i64,
        amount: u64,
    ) -> Result<LedgerState, CrowdfundingError> {
        match self.access(ctx.campaign@, ctx.bump, derived) {
            Err(e) => Err(e),
            Ok(c) => if now > c.deadline {
                Err(CrowdfundingError::CampaignExpired)
            } else if self.balance(ctx.donor@) < amount {
                Err(CrowdfundingError::InsufficientFunds)
            } else if c.total_raised + amount > u64::MAX {
                Err(CrowdfundingError::Overflow)
            } else {
                Ok(
                    self.transfer(ctx.donor@, ctx.campaign@, amount as nat).with_campaign(
                        ctx.campaign@,
                        CampaignAccount { total_raised: (c.total_raised + amount) as u64, ..c },
                    ),
                )
            },
        }
    }

    /// `donate`: up to the deadline, `amount` moves from the donor to the
    /// campaign's address and is added to the campaign's total.
    pub open spec fn after_donate(self, ctx: DonationContext, now: i64, amount: u64) -> Result<
        LedgerState,
        CrowdfundingError,
    > {
        self.after_donate_given(ctx, self.rederived(ctx.campaign@), now, amount)
    }

    /// `withdraw`, given the address derived again from the stored campaign.
    pub open spec fn after_withdraw_given(
        self,
        ctx: WithdrawContext,
        derived: Option<Seq<u8>>,
        now: i64,
    ) -> Result<LedgerState, CrowdfundingError> {
        match self.access(ctx.campaign@, ctx.bump, derived) {
            Err(e) => Err(e),
            Ok(c) => if ctx.creator@ != c.authority@ {
                Err(CrowdfundingError::ConstraintRaw)
            } else if !(c.total_raised >= c.goal && now > c.deadline) {
                Err(CrowdfundingError::WithdrawNotAllowed)
            } else {
                Ok(self.transfer(ctx.campaign@, ctx.creator@, self.balance(ctx.campaign@)))
            },
        }
    }

    /// `withdraw`: once the deadline has passed with the goal met, the whole
    /// balance of the campaign's address moves to its authority.
    pub open spec fn after_withdraw(self, ctx: WithdrawContext, now: i64) -> Result<
        LedgerState,
        CrowdfundingError,
    > {
        self.after_withdraw_given(ctx, self.rederived(ctx.campaign@), now)
    }

    /// What `call` does to this ledger, or why it is refused.
    pub open spec fn step(self, call: Call) -> Result<LedgerState, CrowdfundingError> {
        match call {
            Call::Initialize { opening, goal, deadline, campaign_id } => self.after_initialize(
                opening,
                goal,
                deadline,
                campaign_id,
            ),
            Call::Donate { donation, now, amount } => self.after_donate(donation, now, amount),
            Call::Withdraw { withdrawal, now } => self.after_withdraw(withdrawal, now),
        }
    }

    /// The ledger once `call` has been made: changed as `step` says, or as it
    /// was where the call is refused.
    pub open spec fn next(self, call: Call) -> LedgerState {
        match self.step(call) {
            Ok(s) => s,
            Err(_) => self,
        }
    }

    /// The ledger once `calls` have been made in order.
    pub open spec fn run(self, calls: Seq<Call>) -> LedgerState
        decreases calls.len(),
    {
        if calls.len() == 0 {
            self
        } else {
            self.run(calls.drop_last()).next(calls.last())
        }
    }

    /// The total raised by the campaign at `address`; zero where there is none.
    pub open spec fn total_raised(self, address: Seq<u8>) -> nat {
        match self.campaign(address) {
            Some(c) => c.total_raised as nat,
            None => 0,
        }
    }

    /// What `call` adds to the campaign at `address`: its amount if it is a
    /// donation to that campaign and is accepted, else nothing.
    pub open spec fn accepted(self, call: Call, address: Seq<u8>) -> nat {
        match call {
            Call::Donate { donation, now, amount } => if donation.campaign@ == address && self.step(
                call,
            )
                is Ok {
                amount as nat
            } else {
                0
            },
            _ => 0,
        }
    }

    /// The sum of the donations to the campaign at `address` that are accepted
    /// as `calls` are made in order.
    pub open spec fn accepted_in(self, calls: Seq<Call>, address: Seq<u8>) -> nat
        decreases calls.len(),
    {
        if calls.len() == 0 {
            0
        } else {
            self.accepted_in(calls.drop_last(), address) + self.run(calls.drop_last()).accepted(
                calls.last(),
                address,
            )
        }
    }
}

} // verus!
