//! What holds of the operations on every ledger and for every call.

use crate::campaign::{Call, CampaignAccount, DonationContext, Initialize, WithdrawContext};
use crate::error::CrowdfundingError;
use crate::model::LedgerState;
use vstd::prelude::*;

verus! {

/// Two records of one campaign: all but the running total agrees.
pub open spec fn same_terms(a: CampaignAccount, b: CampaignAccount) -> bool {
    &&& a.authority == b.authority
    &&& a.campaign_id == b.campaign_id
    &&& a.goal == b.goal
    &&& a.deadline == b.deadline
    &&& a.bump == b.bump
}

/// No call changes the program, and every call keeps a valid ledger valid.
pub proof fn law_call_keeps_validity(s: LedgerState, call: Call)
    ensures
        s.next(call).program_id == s.program_id,
        s.valid() ==> s.next(call).valid(),
{
}

/// No sequence of calls changes the program, and every sequence keeps a valid
/// ledger valid.
pub proof fn law_calls_keep_validity(s: LedgerState, calls: Seq<Call>)
    ensures
        s.run(calls).program_id == s.program_id,
        s.valid() ==> s.run(calls).valid(),
    decreases calls.len(),
{
    if calls.len() > 0 {
        law_calls_keep_validity(s, calls.drop_last());
        law_call_keeps_validity(s.run(calls.drop_last()), calls.last());
    }
}

/// A campaign, once stored, stays where it is with its authority, identifier,
/// goal, deadline and nonce, whatever call is made; its total does not fall.
pub proof fn law_call_keeps_campaign(s: LedgerState, call: Call, address: Seq<u8>)
    requires
        s.campaign(address) is Some,
    ensures
        s.next(call).campaign(address) is Some,
        same_terms(s.next(call).campaign(address)->0, s.campaign(address)->0),
        s.next(call).total_raised(address) >= s.total_raised(address),
{
}

/// A campaign, once stored, stays where it is with its authority, identifier,
/// goal, deadline and nonce, whatever calls are made; its total does not fall.
pub proof fn law_calls_keep_campaign(s: LedgerState, calls: Seq<Call>, address: Seq<u8>)
    requires
        s.campaign(address) is Some,
    ensures
        s.run(calls).campaign(address) is Some,
        same_terms(s.run(calls).campaign(address)->0, s.campaign(address)->0),
        s.run(calls).total_raised(address) >= s.total_raised(address),
    decreases calls.len(),
{
    if calls.len() > 0 {
        law_calls_keep_campaign(s, calls.drop_last(), address);
        law_call_keeps_campaign(s.run(calls.drop_last()), calls.last(), address);
    }
}

/// A campaign that derives again to the address that holds it goes on doing
/// so whatever calls are made, and with its stored nonce it passes the check
/// that `donate` and `withdraw` make first.
pub proof fn law_campaign_stays_in_place(s: LedgerState, calls: Seq<Call>, address: Seq<u8>)
    requires
        s.in_place(address),
    ensures
        s.run(calls).in_place(address),
        s.run(calls).access(
            address,
            s.run(calls).campaign(address)->0.bump,
            s.run(calls).rederived(address),
        ) is Ok,
{
    law_calls_keep_campaign(s, calls, address);
    law_calls_keep_validity(s, calls);
}

/// The address of a campaign is determined by the program, the authority and
/// the identifier: two successful `initialize` calls that agree on these name
/// the same campaign account and store the same nonce.
pub proof fn law_address_is_determined(
    s1: LedgerState,
    ctx1: Initialize,
    goal1: u64,
    deadline1: i64,
    s2: LedgerState,
    ctx2: Initialize,
    goal2: u64,
    deadline2: i64,
    campaign_id: [u8; 32],
)
    requires
        s1.program_id == s2.program_id,
        ctx1.authority@ == ctx2.authority@,
        s1.after_initialize(ctx1, goal1, deadline1, campaign_id) is Ok,
        s2.after_initialize(ctx2, goal2, deadline2, campaign_id) is Ok,
    ensures
        ctx1.campaign@ == ctx2.campaign@,
        ({
            let t1 = s1.after_initialize(ctx1, goal1, deadline1, campaign_id)->Ok_0;
            let t2 = s2.after_initialize(ctx2, goal2, deadline2, campaign_id)->Ok_0;
            t1.campaign(ctx1.campaign@)->0.bump == t2.campaign(ctx2.campaign@)->0.bump
        }),
{
}

/// `initialize` succeeds at most once for an authority and an identifier: once
/// it has, and whatever calls have followed, a further `initialize` for the same
/// two is refused, with `AccountAlreadyInUse` where it names the campaign's
/// account and with `ConstraintSeeds` where it names another.
pub proof fn law_initialize_at_most_once(
    s: LedgerState,
    ctx: Initialize,
    goal: u64,
    deadline: i64,
    campaign_id: [u8; 32],
    later: Seq<Call>,
    again: Initialize,
    goal2: u64,
    deadline2: i64,
)
    requires
        s.after_initialize(ctx, goal, deadline, campaign_id) is Ok,
        again.authority@ == ctx.authority@,
    ensures
        ({
            let opened = s.after_initialize(ctx, goal, deadline, campaign_id)->Ok_0;
            let second = opened.run(later).after_initialize(again, goal2, deadline2, campaign_id);
            &&& second is Err
            &&& again.campaign@ == ctx.campaign@ ==> second == Err::<
                LedgerState,
                CrowdfundingError,
            >(CrowdfundingError::AccountAlreadyInUse)
            &&& again.campaign@ != ctx.campaign@ ==> second == Err::<
                LedgerState,
                CrowdfundingError,
            >(CrowdfundingError::ConstraintSeeds)
        }),
{
    let opened = s.after_initialize(ctx, goal, deadline, campaign_id)->Ok_0;
    assert(opened.campaign(ctx.campaign@) is Some);
    law_calls_keep_campaign(opened, later, ctx.campaign@);
    law_calls_keep_validity(opened, later);
}

/// One call adds to a campaign's total exactly what it donates to that
/// campaign, if it is accepted, and nothing otherwise.
pub proof fn law_call_adds_accepted(s: LedgerState, call: Call, address: Seq<u8>)
    ensures
        s.next(call).total_raised(address) == s.total_raised(address) + s.accepted(call, address),
{
}

/// After any sequence of calls a campaign's total is what it was before plus
/// the sum of the donations to it that were accepted, and so has not fallen.
pub proof fn law_total_raised_is_sum(s: LedgerState, calls: Seq<Call>, address: Seq<u8>)
    ensures
        s.run(calls).total_raised(address) == s.total_raised(address) + s.accepted_in(
            calls,
            address,
        ),
        s.run(calls).total_raised(address) >= s.total_raised(address),
    decreases calls.len(),
{
    if calls.len() > 0 {
        law_total_raised_is_sum(s, calls.drop_last(), address);
        law_call_adds_accepted(s.run(calls.drop_last()), calls.last(), address);
    }
}

/// A new campaign starts with nothing raised.
pub proof fn law_initialize_starts_at_zero(
    s: LedgerState,
    ctx: Initialize,
    goal: u64,
    deadline: i64,
    campaign_id: [u8; 32],
)
    requires
        s.after_initialize(ctx, goal, deadline, campaign_id) is Ok,
    ensures
        s.after_initialize(ctx, goal, deadline, campaign_id)->Ok_0.total_raised(ctx.campaign@) == 0,
        s.total_raised(ctx.campaign@) == 0,
{
}

/// A donation after the deadline is refused whatever its amount, and the
/// ledger stays as it was; where the campaign account passes its check the
/// reason given is `CampaignExpired`.
pub proof fn law_expired_donation_is_refused(
    s: LedgerState,
    ctx: DonationContext,
    now: i64,
    amount: u64,
)
    requires
        s.campaign(ctx.campaign@) is Some,
        now > s.campaign(ctx.campaign@)->0.deadline,
    ensures
        s.after_donate(ctx, now, amount) is Err,
        s.next(Call::Donate { donation: ctx, now, amount }) == s,
        s.access(ctx.campaign@, ctx.bump, s.rederived(ctx.campaign@)) is Ok ==> s.after_donate(
            ctx,
            now,
            amount,
        ) == Err::<LedgerState, CrowdfundingError>(CrowdfundingError::CampaignExpired),
{
}

/// An accepted donation moves its amount from the donor to the campaign's
/// address and changes no other balance.
pub proof fn law_donation_moves_amount(s: LedgerState, ctx: DonationContext, now: i64, amount: u64)
    requires
        s.after_donate(ctx, now, amount) is Ok,
        ctx.donor@ != ctx.campaign@,
    ensures
        ({
            let t = s.after_donate(ctx, now, amount)->Ok_0;
            &&& now <= s.campaign(ctx.campaign@)->0.deadline
            &&& t.balance(ctx.campaign@) == s.balance(ctx.campaign@) + amount
            &&& t.balance(ctx.donor@) == s.balance(ctx.donor@) - amount
            &&& forall|a: Seq<u8>|
                a != ctx.donor@ && a != ctx.campaign@ ==> #[trigger] t.balance(a) == s.balance(a)
        }),
{
}

/// Where the campaign account passes its check and the signer is the
/// campaign's authority, `withdraw` succeeds if and only if the goal is met and
/// the deadline has passed; otherwise it is refused with `WithdrawNotAllowed`
/// and the ledger stays as it was.
pub proof fn law_withdraw_gate(s: LedgerState, ctx: WithdrawContext, now: i64)
    requires
        s.access(ctx.campaign@, ctx.bump, s.rederived(ctx.campaign@)) is Ok,
        ctx.creator@ == s.campaign(ctx.campaign@)->0.authority@,
    ensures
        ({
            let c = s.campaign(ctx.campaign@)->0;
            let allowed = c.total_raised >= c.goal && now > c.deadline;
            &&& s.after_withdraw(ctx, now) is Ok <==> allowed
            &&& !allowed ==> s.after_withdraw(ctx, now) == Err::<LedgerState, CrowdfundingError>(
                CrowdfundingError::WithdrawNotAllowed,
            )
            &&& !allowed ==> s.next(Call::Withdraw { withdrawal: ctx, now }) == s
        }),
{
}

/// `withdraw` succeeds only for the campaign's authority, with the goal met
/// and the deadline passed.
pub proof fn law_withdraw_only_when_due(s: LedgerState, ctx: WithdrawContext, now: i64)
    requires
        s.after_withdraw(ctx, now) is Ok,
    ensures
        s.campaign(ctx.campaign@) is Some,
        ctx.creator@ == s.campaign(ctx.campaign@)->0.authority@,
        s.campaign(ctx.campaign@)->0.total_raised >= s.campaign(ctx.campaign@)->0.goal,
        now > s.campaign(ctx.campaign@)->0.deadline,
{
}

/// `withdraw` by a signer other than the campaign's authority is refused and
/// no balance changes; where the campaign account passes its check the reason
/// given is `ConstraintRaw`.
pub proof fn law_withdraw_needs_authority(s: LedgerState, ctx: WithdrawContext, now: i64)
    requires
        s.campaign(ctx.campaign@) is Some,
        ctx.creator@ != s.campaign(ctx.campaign@)->0.authority@,
    ensures
        s.after_withdraw(ctx, now) is Err,
        s.next(Call::Withdraw { withdrawal: ctx, now }) == s,
        s.access(ctx.campaign@, ctx.bump, s.rederived(ctx.campaign@)) is Ok ==> s.after_withdraw(
            ctx,
            now,
        ) == Err::<LedgerState, CrowdfundingError>(CrowdfundingError::ConstraintRaw),
{
}

/// A successful `withdraw` leaves the campaign's address with nothing, adds
/// to the authority's balance exactly what the campaign's address held, and
/// changes no other balance and no campaign.
pub proof fn law_withdraw_drains(s: LedgerState, ctx: WithdrawContext, now: i64)
    requires
        s.valid(),
        s.after_withdraw(ctx, now) is Ok,
    ensures
        ({
            let t = s.after_withdraw(ctx, now)->Ok_0;
            &&& t.balance(ctx.campaign@) == 0
            &&& t.balance(ctx.creator@) == s.balance(ctx.creator@) + s.balance(ctx.campaign@)
            &&& forall|a: Seq<u8>|
                a != ctx.creator@ && a != ctx.campaign@ ==> #[trigger] t.balance(a) == s.balance(a)
            &&& t.campaigns == s.campaigns
        }),
{
}

/// A second `withdraw` right after a successful one succeeds again and moves
/// nothing.
pub proof fn law_second_withdraw_moves_nothing(s: LedgerState, ctx: WithdrawContext, now: i64)
    requires
        s.valid(),
        s.after_withdraw(ctx, now) is Ok,
    ensures
        ({
            let t = s.after_withdraw(ctx, now)->Ok_0;
            t.after_withdraw(ctx, now) == Ok::<LedgerState, CrowdfundingError>(t)
        }),
{
    let t = s.after_withdraw(ctx, now)->Ok_0;
    let u = t.after_withdraw(ctx, now)->Ok_0;
    assert(t.after_withdraw(ctx, now) is Ok);
    assert(u.lamports =~= t.lamports);
}

} // verus!
