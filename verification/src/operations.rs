//! The three operations on a ledger: open a campaign, donate to it, withdraw
//! from it. Each either applies in full or is refused and changes nothing.

use crate::address::{same_bytes, Address};
use crate::campaign::{Call, CampaignAccount, DonationContext, Initialize, WithdrawContext};
use crate::derivation::{create_campaign_address, find_campaign_address};
use crate::error::CrowdfundingError;
use crate::ledger::Ledger;
use crate::model::{address_and_nonce, address_bytes};
use vstd::prelude::*;

verus! {

/// Derives again, from the record stored at `campaign`, the address at which
/// that record belongs.
pub fn rederive(ledger: &Ledger, campaign: &Address) -> (derived: Option<Address>)
    requires
        ledger.wf(),
    ensures
        address_bytes(derived) == ledger@.rederived(campaign@),
{
    match ledger.campaign(campaign) {
        Some(c) => {
            let program_id = ledger.program_id();
            create_campaign_address(&program_id, &c.authority, &c.campaign_id, c.bump)
        },
        None => None,
    }
}

/// Reads the campaign stored at `campaign` for an operation on it, given the
/// nonce that the caller supplied and the address derived again from the
/// stored record.
///
/// Refused with `AccountNotInitialized` where no campaign is stored there, and
/// with `ConstraintSeeds` where the nonce is not the one stored or the address
/// derived is not `campaign`.
pub fn access(
    ledger: &Ledger,
    campaign: &Address,
    bump: u8,
    derived: Option<Address>,
) -> (r: Result<CampaignAccount, CrowdfundingError>)
    requires
        ledger.wf(),
    ensures
        r == ledger@.access(campaign@, bump, address_bytes(derived)),
{
    match ledger.campaign(campaign) {
        None => Err(CrowdfundingError::AccountNotInitialized),
        Some(c) => {
            let belongs = match derived {
                Some(a) => same_bytes(&a.bytes, &campaign.bytes),
                None => false,
            };
            if bump != c.bump || !belongs {
                Err(CrowdfundingError::ConstraintSeeds)
            } else {
                Ok(c)
            }
        },
    }
}

/// Opens a campaign, given what the search for its address found.
///
/// Refused, in this order, with `ConstraintSeeds` where nothing was found or the
/// campaign account named is not the address found, with `AccountAlreadyInUse`
/// where a campaign is stored there, and with `ConstraintRaw` where the campaign
/// account is the authority's own.
pub fn initialize_given(
    ledger: &mut Ledger,
    ctx: &Initialize,
    found: Option<(Address, u8)>,
    goal: u64,
    deadline: i64,
    campaign_id: [u8; 32],
) -> (r: Result<(), CrowdfundingError>)
    requires
        old(ledger).wf(),
    ensures
        final(ledger).wf(),
        final(ledger).supply() == old(ledger).supply(),
        match old(ledger)@.after_initialize_given(
            *ctx,
            address_and_nonce(found),
            goal,
            deadline,
            campaign_id,
        ) {
            Ok(s) => r is Ok && final(ledger)@ == s,
            Err(e) => r == Err::<(), CrowdfundingError>(e) && final(ledger)@ == old(ledger)@,
        },
{
    match found {
        None => Err(CrowdfundingError::ConstraintSeeds),
        Some((address, bump)) => {
            if !same_bytes(&ctx.campaign.bytes, &address.bytes) {
                return Err(CrowdfundingError::ConstraintSeeds);
            }
            if ledger.campaign(&address).is_some() {
                return Err(CrowdfundingError::AccountAlreadyInUse);
            }
            if same_bytes(&ctx.campaign.bytes, &ctx.authority.bytes) {
                return Err(CrowdfundingError::ConstraintRaw);
            }
            let record = CampaignAccount {
                authority: ctx.authority,
                goal,
                deadline,
                total_raised: 0,
                bump,
                campaign_id,
            };
            ledger.set_campaign(&address, record);
            Ok(())
        },
    }
}

/// Opens the campaign of `ctx.authority` and `campaign_id` with the given goal
/// and deadline. The campaign account named must be the one that the two derive
/// to, and must hold no campaign yet. The campaign stored derives again to the
/// account that holds it, so later calls find it in place.
pub fn initialize(
    ledger: &mut Ledger,
    ctx: &Initialize,
    goal: u64,
    deadline: i64,
    campaign_id: [u8; 32],
) -> (r: Result<(), CrowdfundingError>)
    requires
        old(ledger).wf(),
    ensures
        final(ledger).wf(),
        final(ledger).supply() == old(ledger).supply(),
        match old(ledger)@.after_initialize(*ctx, goal, deadline, campaign_id) {
            Ok(s) => r is Ok && final(ledger)@ == s,
            Err(e) => r == Err::<(), CrowdfundingError>(e) && final(ledger)@ == old(ledger)@,
        },
        r is Ok ==> final(ledger)@.in_place(ctx.campaign@),
{
    let program_id = ledger.program_id();
    let found = find_campaign_address(&program_id, &ctx.authority, &campaign_id);
    initialize_given(ledger, ctx, found, goal, deadline, campaign_id)
}

/// Donates, given the address derived again from the stored campaign.
///
/// Refused, in this order, as `access` refuses, with `CampaignExpired` where
/// `now` is past the deadline, with `InsufficientFunds` where the donor holds
/// less than `amount`, and with `Overflow` where the campaign's total would no
/// longer fit in 64 bits. Any amount is taken, zero too, and the total may pass
/// the goal.
pub fn donate_given(
    ledger: &mut Ledger,
    ctx: &DonationContext,
    derived: Option<Address>,
    now: i64,
    amount: u64,
) -> (r: Result<(), CrowdfundingError>)
    requires
        old(ledger).wf(),
    ensures
        final(ledger).wf(),
        final(ledger).supply() == old(ledger).supply(),
        match old(ledger)@.after_donate_given(*ctx, address_bytes(derived), now, amount) {
            Ok(s) => r is Ok && final(ledger)@ == s,
            Err(e) => r == Err::<(), CrowdfundingError>(e) && final(ledger)@ == old(ledger)@,
        },
{
    let c = match access(ledger, &ctx.campaign, ctx.bump, derived) {
        Ok(c) => c,
        Err(e) => {
            return Err(e);
        },
    };
    if now > c.deadline {
        return Err(CrowdfundingError::CampaignExpired);
    }
    let held = ledger.balance(&ctx.donor);
    if held < amount {
        return Err(CrowdfundingError::InsufficientFunds);
    }
    let raised = match c.total_raised.checked_add(amount) {
        Some(sum) => sum,
        None => {
            return Err(CrowdfundingError::Overflow);
        },
    };
    proof {
        ledger.lemma_valid();
        ledger.lemma_within_supply(ctx.donor@, ctx.donor@);
    }
    ledger.set_balance(&ctx.donor, held - amount);
    let escrow = ledger.balance(&ctx.campaign);
    proof {
        ledger.lemma_within_supply(ctx.campaign@, ctx.campaign@);
    }
    ledger.set_balance(&ctx.campaign, escrow + amount);
    ledger.set_campaign(
        &ctx.campaign,
        CampaignAccount {
            authority: c.authority,
            goal: c.goal,
            deadline: c.deadline,
            total_raised: raised,
            bump: c.bump,
            campaign_id: c.campaign_id,
        },
    );
    Ok(())
}

/// Moves `amount` from the donor to the campaign and adds it to the campaign's
/// total, if `now` is not past the campaign's deadline.
pub fn donate(ledger: &mut Ledger, ctx: &DonationContext, now: i64, amount: u64) -> (r: Result<
    (),
    CrowdfundingError,
>)
    requires
        old(ledger).wf(),
    ensures
        final(ledger).wf(),
        final(ledger).supply() == old(ledger).supply(),
        match old(ledger)@.after_donate(*ctx, now, amount) {
            Ok(s) => r is Ok && final(ledger)@ == s,
            Err(e) => r == Err::<(), CrowdfundingError>(e) && final(ledger)@ == old(ledger)@,
        },
{
    let derived = rederive(ledger, &ctx.campaign);
    donate_given(ledger, ctx, derived, now, amount)
}

/// Withdraws, given the address derived again from the stored campaign.
///
/// Refused, in this order, as `access` refuses, with `ConstraintRaw` where the
/// signer is not the campaign's authority, and with `WithdrawNotAllowed` where
/// the total is under the goal or `now` is not past the deadline. The campaign
/// stays stored; a further withdrawal finds nothing to move.
pub fn withdraw_given(
    ledger: &mut Ledger,
    ctx: &WithdrawContext,
    derived: Option<Address>,
    now: i64,
) -> (r: Result<(), CrowdfundingError>)
    requires
        old(ledger).wf(),
    ensures
        final(ledger).wf(),
        final(ledger).supply() == old(ledger).supply(),
        match old(ledger)@.after_withdraw_given(*ctx, address_bytes(derived), now) {
            Ok(s) => r is Ok && final(ledger)@ == s,
            Err(e) => r == Err::<(), CrowdfundingError>(e) && final(ledger)@ == old(ledger)@,
        },
{
    let c = match access(ledger, &ctx.campaign, ctx.bump, derived) {
        Ok(c) => c,
        Err(e) => {
            return Err(e);
        },
    };
    if !same_bytes(&ctx.creator.bytes, &c.authority.bytes) {
        return Err(CrowdfundingError::ConstraintRaw);
    }
    if !(c.total_raised >= c.goal && now > c.deadline) {
        return Err(CrowdfundingError::WithdrawNotAllowed);
    }
    let escrow = ledger.balance(&ctx.campaign);
    proof {
        ledger.lemma_valid();
        ledger.lemma_within_supply(ctx.campaign@, ctx.campaign@);
    }
    ledger.set_balance(&ctx.campaign, 0);
    let held = ledger.balance(&ctx.creator);
    proof {
        ledger.lemma_within_supply(ctx.creator@, ctx.creator@);
    }
    ledger.set_balance(&ctx.creator, held + escrow);
    Ok(())
}

/// Moves the whole balance of the campaign to its authority, if the signer is
/// that authority, the goal is met and `now` is past the deadline.
pub fn withdraw(ledger: &mut Ledger, ctx: &WithdrawContext, now: i64) -> (r: Result<
    (),
    CrowdfundingError,
>)
    requires
        old(ledger).wf(),
    ensures
        final(ledger).wf(),
        final(ledger).supply() == old(ledger).supply(),
        match old(ledger)@.after_withdraw(*ctx, now) {
            Ok(s) => r is Ok && final(ledger)@ == s,
            Err(e) => r == Err::<(), CrowdfundingError>(e) && final(ledger)@ == old(ledger)@,
        },
{
    let derived = rederive(ledger, &ctx.campaign);
    withdraw_given(ledger, ctx, derived, now)
}

/// Makes one call. A refused call leaves the ledger as it was.
pub fn apply(ledger: &mut Ledger, call: &Call) -> (r: Result<(), CrowdfundingError>)
    requires
        old(ledger).wf(),
    ensures
        final(ledger).wf(),
        final(ledger).supply() == old(ledger).supply(),
        final(ledger)@ == old(ledger)@.next(*call),
        match old(ledger)@.step(*call) {
            Ok(_) => r is Ok,
            Err(e) => r == Err::<(), CrowdfundingError>(e),
        },
{
    match call {
        Call::Initialize { opening, goal, deadline, campaign_id } => initialize(
            ledger,
            opening,
            *goal,
            *deadline,
            *campaign_id,
        ),
        Call::Donate { donation, now, amount } => donate(ledger, donation, *now, *amount),
        Call::Withdraw { withdrawal, now } => withdraw(ledger, withdrawal, *now),
    }
}

} // verus!
