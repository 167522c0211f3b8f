use crowdfund::address::{same_bytes, Address};
use crowdfund::campaign::{
    Call, CampaignAccount, DonationContext, Initialize, WithdrawContext, CAMPAIGN_ACCOUNT_SPACE,
};
use crowdfund::derivation::{campaign_tag_bytes, create_campaign_address, find_campaign_address};
use crowdfund::error::CrowdfundingError;
use crowdfund::ledger::Ledger;
use crowdfund::operations::{
    access, apply, donate, donate_given, initialize_given, rederive, withdraw, withdraw_given,
};

const T: i64 = 1_700_000_000;

fn addr(b: u8) -> Address {
    Address { bytes: [b; 32] }
}

fn record(
    authority: Address,
    goal: u64,
    deadline: i64,
    total_raised: u64,
    bump: u8,
) -> CampaignAccount {
    CampaignAccount { authority, goal, deadline, total_raised, bump, campaign_id: [3u8; 32] }
}

#[test]
fn new_ledger_is_empty() {
    let ledger = Ledger::new(addr(7));
    assert_eq!(ledger.program_id(), addr(7));
    assert_eq!(ledger.balance(&addr(1)), 0);
    assert_eq!(ledger.campaign(&addr(1)), None);
    assert_eq!(ledger.total_supply(), 0);
}

#[test]
fn deposit_adds_to_the_balance_and_the_supply() {
    let mut ledger = Ledger::new(addr(7));
    assert_eq!(ledger.deposit(&addr(1), 5), Ok(()));
    assert_eq!(ledger.deposit(&addr(2), 7), Ok(()));
    assert_eq!(ledger.deposit(&addr(1), 11), Ok(()));
    assert_eq!(ledger.balance(&addr(1)), 16);
    assert_eq!(ledger.balance(&addr(2)), 7);
    assert_eq!(ledger.balance(&addr(3)), 0);
    assert_eq!(ledger.total_supply(), 23);
}

#[test]
fn deposit_beyond_64_bits_is_refused() {
    let mut ledger = Ledger::new(addr(7));
    assert_eq!(ledger.deposit(&addr(1), u64::MAX - 1), Ok(()));
    assert_eq!(ledger.deposit(&addr(2), 2), Err(CrowdfundingError::Overflow));
    assert_eq!(ledger.balance(&addr(2)), 0);
    assert_eq!(ledger.total_supply(), u64::MAX - 1);
    assert_eq!(ledger.deposit(&addr(2), 1), Ok(()));
    assert_eq!(ledger.total_supply(), u64::MAX);
    assert_eq!(ledger.deposit(&addr(1), 1), Err(CrowdfundingError::Overflow));
    assert_eq!(ledger.balance(&addr(1)), u64::MAX - 1);
}

#[test]
fn same_bytes_compares_every_byte() {
    let a = [9u8; 32];
    let mut b = [9u8; 32];
    assert!(same_bytes(&a, &b));
    b[31] = 8;
    assert!(!same_bytes(&a, &b));
    b[31] = 9;
    b[0] = 10;
    assert!(!same_bytes(&a, &b));
}

#[test]
fn tag_is_the_word_campaign() {
    assert_eq!(&campaign_tag_bytes(), b"campaign");
}

#[test]
fn stored_campaign_takes_97_bytes() {
    assert_eq!(CAMPAIGN_ACCOUNT_SPACE, 97);
}

#[test]
fn restore_puts_a_campaign_back() {
    let mut ledger = Ledger::new(addr(7));
    let c = record(addr(1), 10, T, 4, 250);
    assert_eq!(ledger.restore(&addr(20), c), Ok(()));
    assert_eq!(ledger.campaign(&addr(20)), Some(c));
    assert_eq!(ledger.balance(&addr(20)), 0);
    assert_eq!(ledger.restore(&addr(20), c), Err(CrowdfundingError::AccountAlreadyInUse));
    assert_eq!(ledger.restore(&addr(1), c), Err(CrowdfundingError::ConstraintRaw));
    assert_eq!(ledger.campaign(&addr(1)), None);
}

#[test]
fn restore_keeps_the_balance_of_the_address() {
    let mut ledger = Ledger::new(addr(7));
    ledger.deposit(&addr(20), 9).unwrap();
    let c = record(addr(1), 10, T, 4, 250);
    assert_eq!(ledger.restore(&addr(20), c), Ok(()));
    assert_eq!(ledger.balance(&addr(20)), 9);
    assert_eq!(ledger.total_supply(), 9);
}

#[test]
fn campaign_at_an_address_it_does_not_derive_to_is_refused() {
    let mut ledger = Ledger::new(addr(7));
    ledger.deposit(&addr(2), 100).unwrap();
    let c = record(addr(1), 0, T, 0, 255);
    ledger.restore(&addr(20), c).unwrap();
    let d = DonationContext { campaign: addr(20), bump: 255, donor: addr(2) };
    assert_eq!(donate(&mut ledger, &d, T, 1), Err(CrowdfundingError::ConstraintSeeds));
    let w = WithdrawContext { campaign: addr(20), bump: 255, creator: addr(1) };
    assert_eq!(withdraw(&mut ledger, &w, T + 1), Err(CrowdfundingError::ConstraintSeeds));
    assert_eq!(ledger.balance(&addr(2)), 100);
    assert_eq!(ledger.campaign(&addr(20)), Some(c));
}

#[test]
fn restored_campaign_at_its_own_address_is_served() {
    let program = addr(7);
    let authority = addr(1);
    let (campaign, bump) = find_campaign_address(&program, &authority, &[3u8; 32]).unwrap();
    let mut ledger = Ledger::new(program);
    ledger.deposit(&addr(2), 100).unwrap();
    ledger.deposit(&campaign, 40).unwrap();
    ledger.restore(&campaign, record(authority, 50, T, 40, bump)).unwrap();
    assert_eq!(rederive(&ledger, &campaign), Some(campaign));
    let d = DonationContext { campaign, bump, donor: addr(2) };
    assert_eq!(donate(&mut ledger, &d, T, 10), Ok(()));
    assert_eq!(ledger.campaign(&campaign).unwrap().total_raised, 50);
    let w = WithdrawContext { campaign, bump, creator: authority };
    assert_eq!(withdraw(&mut ledger, &w, T + 1), Ok(()));
    assert_eq!(ledger.balance(&authority), 50);
}

#[test]
fn rederive_gives_nothing_where_no_campaign_is_stored() {
    let mut ledger = Ledger::new(addr(7));
    ledger.deposit(&addr(2), 100).unwrap();
    assert_eq!(rederive(&ledger, &addr(2)), None);
    assert_eq!(rederive(&ledger, &addr(3)), None);
}

#[test]
fn rederive_follows_the_stored_record() {
    let program = addr(7);
    let mut ledger = Ledger::new(program);
    let (campaign, bump) = find_campaign_address(&program, &addr(1), &[3u8; 32]).unwrap();
    ledger.restore(&addr(20), record(addr(1), 0, T, 0, bump)).unwrap();
    assert_eq!(rederive(&ledger, &addr(20)), Some(campaign));
    assert_eq!(
        rederive(&ledger, &addr(20)),
        create_campaign_address(&program, &addr(1), &[3u8; 32], bump)
    );
}

#[test]
fn total_raised_beyond_64_bits_is_refused() {
    let program = addr(7);
    let authority = addr(1);
    let (campaign, bump) = find_campaign_address(&program, &authority, &[3u8; 32]).unwrap();
    let mut ledger = Ledger::new(program);
    ledger.deposit(&addr(2), 100).unwrap();
    ledger.restore(&campaign, record(authority, 50, T, u64::MAX - 5, bump)).unwrap();
    let d = DonationContext { campaign, bump, donor: addr(2) };
    assert_eq!(donate(&mut ledger, &d, T, 6), Err(CrowdfundingError::Overflow));
    assert_eq!(ledger.campaign(&campaign).unwrap().total_raised, u64::MAX - 5);
    assert_eq!(ledger.balance(&addr(2)), 100);
    assert_eq!(ledger.balance(&campaign), 0);
    assert_eq!(donate(&mut ledger, &d, T, 101), Err(CrowdfundingError::InsufficientFunds));
    assert_eq!(donate(&mut ledger, &d, T, 5), Ok(()));
    assert_eq!(ledger.campaign(&campaign).unwrap().total_raised, u64::MAX);
    assert_eq!(ledger.balance(&campaign), 5);
}

#[test]
fn access_checks_existence_nonce_and_address() {
    let mut ledger = Ledger::new(addr(7));
    let c = record(addr(1), 10, T, 4, 250);
    ledger.restore(&addr(20), c).unwrap();
    assert_eq!(access(&ledger, &addr(20), 250, Some(addr(20))), Ok(c));
    assert_eq!(
        access(&ledger, &addr(21), 250, Some(addr(21))),
        Err(CrowdfundingError::AccountNotInitialized)
    );
    assert_eq!(
        access(&ledger, &addr(20), 249, Some(addr(20))),
        Err(CrowdfundingError::ConstraintSeeds)
    );
    assert_eq!(
        access(&ledger, &addr(20), 250, Some(addr(21))),
        Err(CrowdfundingError::ConstraintSeeds)
    );
    assert_eq!(access(&ledger, &addr(20), 250, None), Err(CrowdfundingError::ConstraintSeeds));
}

#[test]
fn initialize_given_follows_what_was_found() {
    let mut ledger = Ledger::new(addr(7));
    let ctx = Initialize { campaign: addr(20), authority: addr(1) };
    assert_eq!(
        initialize_given(&mut ledger, &ctx, None, 10, T, [3u8; 32]),
        Err(CrowdfundingError::ConstraintSeeds)
    );
    assert_eq!(
        initialize_given(&mut ledger, &ctx, Some((addr(21), 255)), 10, T, [3u8; 32]),
        Err(CrowdfundingError::ConstraintSeeds)
    );
    assert_eq!(ledger.campaign(&addr(20)), None);
    assert_eq!(ledger.campaign(&addr(21)), None);
    assert_eq!(
        initialize_given(&mut ledger, &ctx, Some((addr(20), 254)), 10, T, [3u8; 32]),
        Ok(())
    );
    assert_eq!(ledger.campaign(&addr(20)), Some(record(addr(1), 10, T, 0, 254)));
    assert_eq!(
        initialize_given(&mut ledger, &ctx, Some((addr(20), 254)), 11, T, [3u8; 32]),
        Err(CrowdfundingError::AccountAlreadyInUse)
    );
    assert_eq!(ledger.campaign(&addr(20)).unwrap().goal, 10);
}

#[test]
fn initialize_given_refuses_the_authoritys_own_account() {
    let mut ledger = Ledger::new(addr(7));
    let ctx = Initialize { campaign: addr(1), authority: addr(1) };
    assert_eq!(
        initialize_given(&mut ledger, &ctx, Some((addr(1), 255)), 10, T, [3u8; 32]),
        Err(CrowdfundingError::ConstraintRaw)
    );
    assert_eq!(ledger.campaign(&addr(1)), None);
}

#[test]
fn donate_given_moves_funds_and_counts_them() {
    let mut ledger = Ledger::new(addr(7));
    ledger.deposit(&addr(2), 100).unwrap();
    ledger.restore(&addr(20), record(addr(1), 10, T, 4, 250)).unwrap();
    let d = DonationContext { campaign: addr(20), bump: 250, donor: addr(2) };
    assert_eq!(donate_given(&mut ledger, &d, Some(addr(20)), T, 30), Ok(()));
    assert_eq!(ledger.balance(&addr(2)), 70);
    assert_eq!(ledger.balance(&addr(20)), 30);
    assert_eq!(ledger.campaign(&addr(20)), Some(record(addr(1), 10, T, 34, 250)));
    assert_eq!(ledger.total_supply(), 100);
    assert_eq!(
        donate_given(&mut ledger, &d, Some(addr(21)), T, 30),
        Err(CrowdfundingError::ConstraintSeeds)
    );
    assert_eq!(donate_given(&mut ledger, &d, None, T, 30), Err(CrowdfundingError::ConstraintSeeds));
    assert_eq!(
        donate_given(&mut ledger, &d, Some(addr(20)), T + 1, 30),
        Err(CrowdfundingError::CampaignExpired)
    );
    assert_eq!(ledger.balance(&addr(2)), 70);
}

#[test]
fn donation_from_the_campaigns_own_address_changes_no_balance() {
    let mut ledger = Ledger::new(addr(7));
    ledger.deposit(&addr(20), 100).unwrap();
    ledger.restore(&addr(20), record(addr(1), 10, T, 0, 250)).unwrap();
    let d = DonationContext { campaign: addr(20), bump: 250, donor: addr(20) };
    assert_eq!(donate_given(&mut ledger, &d, Some(addr(20)), T, 30), Ok(()));
    assert_eq!(ledger.balance(&addr(20)), 100);
    assert_eq!(ledger.campaign(&addr(20)).unwrap().total_raised, 30);
}

#[test]
fn withdraw_given_drains_the_campaign() {
    let mut ledger = Ledger::new(addr(7));
    ledger.deposit(&addr(20), 100).unwrap();
    ledger.deposit(&addr(1), 1).unwrap();
    ledger.deposit(&addr(2), 50).unwrap();
    ledger.restore(&addr(20), record(addr(1), 10, T, 10, 250)).unwrap();
    let w = WithdrawContext { campaign: addr(20), bump: 250, creator: addr(1) };
    assert_eq!(
        withdraw_given(&mut ledger, &w, Some(addr(20)), T),
        Err(CrowdfundingError::WithdrawNotAllowed)
    );
    assert_eq!(
        withdraw_given(&mut ledger, &w, Some(addr(1)), T + 1),
        Err(CrowdfundingError::ConstraintSeeds)
    );
    let thief = WithdrawContext { campaign: addr(20), bump: 250, creator: addr(2) };
    assert_eq!(
        withdraw_given(&mut ledger, &thief, Some(addr(20)), T + 1),
        Err(CrowdfundingError::ConstraintRaw)
    );
    assert_eq!(ledger.balance(&addr(20)), 100);
    assert_eq!(withdraw_given(&mut ledger, &w, Some(addr(20)), T + 1), Ok(()));
    assert_eq!(ledger.balance(&addr(20)), 0);
    assert_eq!(ledger.balance(&addr(1)), 101);
    assert_eq!(ledger.balance(&addr(2)), 50);
    assert_eq!(ledger.total_supply(), 151);
}

#[test]
fn withdraw_fills_the_authority_up_to_the_whole_supply() {
    let mut ledger = Ledger::new(addr(7));
    ledger.deposit(&addr(20), u64::MAX - 1).unwrap();
    ledger.deposit(&addr(1), 1).unwrap();
    ledger.restore(&addr(20), record(addr(1), 0, T, 0, 250)).unwrap();
    let w = WithdrawContext { campaign: addr(20), bump: 250, creator: addr(1) };
    assert_eq!(withdraw_given(&mut ledger, &w, Some(addr(20)), T + 1), Ok(()));
    assert_eq!(ledger.balance(&addr(1)), u64::MAX);
    assert_eq!(ledger.balance(&addr(20)), 0);
}

#[test]
fn apply_makes_the_call_it_is_given() {
    let program = addr(7);
    let authority = addr(1);
    let donor = addr(2);
    let campaign_id = [8u8; 32];
    let (campaign, bump) = find_campaign_address(&program, &authority, &campaign_id).unwrap();
    let mut ledger = Ledger::new(program);
    ledger.deposit(&donor, 500).unwrap();
    let opening = Initialize { campaign, authority };
    let donation = DonationContext { campaign, bump, donor };
    let withdrawal = WithdrawContext { campaign, bump, creator: authority };
    let open = Call::Initialize { opening, goal: 300, deadline: T + 10, campaign_id };
    assert_eq!(apply(&mut ledger, &open), Ok(()));
    assert_eq!(apply(&mut ledger, &open), Err(CrowdfundingError::AccountAlreadyInUse));
    assert_eq!(apply(&mut ledger, &Call::Donate { donation, now: T, amount: 300 }), Ok(()));
    assert_eq!(
        apply(&mut ledger, &Call::Donate { donation, now: T + 11, amount: 1 }),
        Err(CrowdfundingError::CampaignExpired)
    );
    assert_eq!(
        apply(&mut ledger, &Call::Withdraw { withdrawal, now: T + 10 }),
        Err(CrowdfundingError::WithdrawNotAllowed)
    );
    assert_eq!(apply(&mut ledger, &Call::Withdraw { withdrawal, now: T + 11 }), Ok(()));
    assert_eq!(ledger.balance(&authority), 300);
    assert_eq!(ledger.balance(&donor), 200);
    assert_eq!(ledger.campaign(&campaign).unwrap().total_raised, 300);
}

#[test]
fn every_error_has_its_message() {
    assert_eq!(CrowdfundingError::CampaignExpired.message(), "Campaign has expired");
    assert_eq!(CrowdfundingError::WithdrawNotAllowed.message(), "Withdrawal not allowed");
    assert_eq!(
        CrowdfundingError::AccountAlreadyInUse.message(),
        "Campaign account already in use"
    );
    assert_eq!(
        CrowdfundingError::AccountNotInitialized.message(),
        "Campaign account not initialized"
    );
    assert_eq!(CrowdfundingError::ConstraintSeeds.message(), "A seeds constraint was violated");
    assert_eq!(CrowdfundingError::ConstraintRaw.message(), "A raw constraint was violated");
    assert_eq!(CrowdfundingError::InsufficientFunds.message(), "Insufficient funds");
    assert_eq!(CrowdfundingError::Overflow.message(), "Arithmetic overflow");
}
