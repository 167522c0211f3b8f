//! The ledger as it is held in memory: one entry for each address that has
//! been touched, found by a scan.

use crate::address::{same_bytes, Address};
use crate::campaign::CampaignAccount;
use crate::error::CrowdfundingError;
use crate::model::LedgerState;
use vstd::prelude::*;

verus! {

/// One address with what it holds.
#[derive(Clone, Copy, Debug)]
struct Account {
    address: Address,
    lamports: u64,
    campaign: Option<CampaignAccount>,
}

/// The accounts of one program: balances and campaign records by address.
#[derive(Debug)]
pub struct Ledger {
    program_id: Address,
    accounts: Vec<Account>,
    /// The sum of the balances in `accounts`.
    total: u64,
}

spec fn present(s: Seq<Account>, a: Seq<u8>) -> bool {
    exists|i: int| 0 <= i < s.len() && (#[trigger] s[i]).address@ == a
}

spec fn index_of(s: Seq<Account>, a: Seq<u8>) -> int {
    choose|i: int| 0 <= i < s.len() && (#[trigger] s[i]).address@ == a
}

/// The entry of `a`, if it has one.
spec fn entry(s: Seq<Account>, a: Seq<u8>) -> Option<Account> {
    if present(s, a) {
        Some(s[index_of(s, a)])
    } else {
        None
    }
}

spec fn lamports_of(s: Seq<Account>, a: Seq<u8>) -> nat {
    match entry(s, a) {
        Some(e) => e.lamports as nat,
        None => 0,
    }
}

spec fn record_of(s: Seq<Account>, a: Seq<u8>) -> Option<CampaignAccount> {
    match entry(s, a) {
        Some(e) => e.campaign,
        None => None,
    }
}

spec fn distinct(s: Seq<Account>) -> bool {
    forall|i: int, j: int|
        0 <= i < j < s.len() ==> (#[trigger] s[i]).address@ != (#[trigger] s[j]).address@
}

/// The sum of all balances.
spec fn total(s: Seq<Account>) -> nat
    decreases s.len(),
{
    if s.len() == 0 {
        0
    } else {
        total(s.drop_last()) + s.last().lamports as nat
    }
}

proof fn lemma_entry_at(s: Seq<Account>, i: int)
    requires
        distinct(s),
        0 <= i < s.len(),
    ensures
        entry(s, s[i].address@) == Some(s[i]),
{
    let a = s[i].address@;
    assert(present(s, a));
    let j = index_of(s, a);
    assert(0 <= j < s.len() && s[j].address@ == a);
    assert(j == i);
}

proof fn lemma_entry_some(s: Seq<Account>, a: Seq<u8>)
    requires
        entry(s, a) is Some,
    ensures
        0 <= index_of(s, a) < s.len(),
        s[index_of(s, a)].address@ == a,
        entry(s, a) == Some(s[index_of(s, a)]),
{
}

/// Replacing an entry by one of the same address changes what that address
/// holds and nothing else.
proof fn lemma_entry_update(s: Seq<Account>, i: int, x: Account)
    requires
        distinct(s),
        0 <= i < s.len(),
        x.address@ == s[i].address@,
    ensures
        distinct(s.update(i, x)),
        forall|a: Seq<u8>|
            #[trigger] entry(s.update(i, x), a) == if a == x.address@ {
                Some(x)
            } else {
                entry(s, a)
            },
{
    let t = s.update(i, x);
    assert(distinct(t)) by {
        assert forall|p: int, q: int| 0 <= p < q < t.len() implies (#[trigger] t[p]).address@ != (
        #[trigger] t[q]).address@ by {
            assert(t[p].address@ == s[p].address@);
            assert(t[q].address@ == s[q].address@);
        }
    }
    assert forall|a: Seq<u8>|
        #[trigger] entry(t, a) == if a == x.address@ {
            Some(x)
        } else {
            entry(s, a)
        } by {
        if a == x.address@ {
            lemma_entry_at(t, i);
        } else if present(s, a) {
            let j = index_of(s, a);
            assert(j != i);
            assert(t[j] == s[j]);
            lemma_entry_at(t, j);
        } else {
            if present(t, a) {
                let j = index_of(t, a);
                assert(t[j].address@ == s[j].address@);
                assert(present(s, a));
            }
        }
    }
}

/// A new entry for an address that had none changes what that address holds
/// and nothing else.
proof fn lemma_entry_push(s: Seq<Account>, x: Account)
    requires
        distinct(s),
        !present(s, x.address@),
    ensures
        distinct(s.push(x)),
        forall|a: Seq<u8>|
            #[trigger] entry(s.push(x), a) == if a == x.address@ {
                Some(x)
            } else {
                entry(s, a)
            },
{
    let t = s.push(x);
    assert(distinct(t)) by {
        assert forall|p: int, q: int| 0 <= p < q < t.len() implies (#[trigger] t[p]).address@ != (
        #[trigger] t[q]).address@ by {
            if q == s.len() {
                assert(t[p] == s[p]);
            } else {
                assert(t[p] == s[p]);
                assert(t[q] == s[q]);
            }
        }
    }
    assert forall|a: Seq<u8>|
        #[trigger] entry(t, a) == if a == x.address@ {
            Some(x)
        } else {
            entry(s, a)
        } by {
        if a == x.address@ {
            lemma_entry_at(t, s.len() as int);
        } else if present(s, a) {
            let j = index_of(s, a);
            assert(t[j] == s[j]);
            lemma_entry_at(t, j);
        } else {
            if present(t, a) {
                let j = index_of(t, a);
                assert(j < s.len());
                assert(t[j] == s[j]);
                assert(present(s, a));
            }
        }
    }
}

proof fn lemma_total_push(s: Seq<Account>, x: Account)
    ensures
        total(s.push(x)) == total(s) + x.lamports,
{
    assert(s.push(x).drop_last() =~= s);
}

proof fn lemma_total_update(s: Seq<Account>, i: int, x: Account)
    requires
        0 <= i < s.len(),
    ensures
        total(s.update(i, x)) == total(s) - s[i].lamports + x.lamports,
    decreases s.len(),
{
    let t = s.update(i, x);
    if i == s.len() - 1 {
        assert(t.drop_last() =~= s.drop_last());
    } else {
        lemma_total_update(s.drop_last(), i, x);
        assert(t.drop_last() =~= s.drop_last().update(i, x));
    }
}

/// Two different entries together hold no more than the whole.
proof fn lemma_total_covers(s: Seq<Account>, i: int, j: int)
    requires
        0 <= i < s.len(),
        0 <= j < s.len(),
    ensures
        s[i].lamports <= total(s),
        i != j ==> s[i].lamports + s[j].lamports <= total(s),
    decreases s.len(),
{
    let last = s.len() - 1;
    if i < last && j < last {
        lemma_total_covers(s.drop_last(), i, j);
    } else if i < last {
        lemma_total_covers(s.drop_last(), i, i);
    } else if j < last {
        lemma_total_covers(s.drop_last(), j, j);
    }
}

impl View for Ledger {
    type V = LedgerState;

    closed spec fn view(&self) -> LedgerState {
        LedgerState {
            program_id: self.program_id@,
            lamports: Map::total(|a: Seq<u8>| lamports_of(self.accounts@, a)),
            campaigns: Map::new(
                |a: Seq<u8>| record_of(self.accounts@, a) is Some,
                |a: Seq<u8>| record_of(self.accounts@, a)->0,
            ),
        }
    }
}

impl Ledger {
    /// No address has two entries, the balances together fit in 64 bits, and
    /// no campaign sits at its own authority's address.
    pub closed spec fn wf(&self) -> bool {
        &&& distinct(self.accounts@)
        &&& total(self.accounts@) == self.total
        &&& forall|i: int|
            0 <= i < self.accounts@.len() ==> match (#[trigger] self.accounts@[i]).campaign {
                Some(c) => c.authority@ != self.accounts@[i].address@,
                None => true,
            }
    }

    /// The sum of all balances.
    pub closed spec fn supply(&self) -> nat {
        total(self.accounts@)
    }

    /// A well-formed ledger is a valid one, and its supply fits in 64 bits.
    pub proof fn lemma_valid(&self)
        requires
            self.wf(),
        ensures
            self@.valid(),
            self.supply() <= u64::MAX,
    {
        let s = self.accounts@;
        assert forall|a: Seq<u8>| #[trigger]
            self@.campaigns.contains_key(a) implies self@.campaigns[a].authority@ != a by {
            lemma_entry_some(s, a);
        }
    }

    /// Any two different addresses together hold no more than the supply.
    pub proof fn lemma_within_supply(&self, a: Seq<u8>, b: Seq<u8>)
        requires
            self.wf(),
        ensures
            self@.balance(a) <= self.supply(),
            a != b ==> self@.balance(a) + self@.balance(b) <= self.supply(),
    {
        let s = self.accounts@;
        if entry(s, a) is Some {
            lemma_entry_some(s, a);
            lemma_total_covers(s, index_of(s, a), index_of(s, a));
            if entry(s, b) is Some {
                lemma_entry_some(s, b);
                lemma_total_covers(s, index_of(s, a), index_of(s, b));
            }
        } else if entry(s, b) is Some {
            lemma_entry_some(s, b);
            lemma_total_covers(s, index_of(s, b), index_of(s, b));
        }
    }

    /// The ledger of `program_id` with no funds and no campaigns.
    pub fn new(program_id: Address) -> (ledger: Ledger)
        ensures
            ledger.wf(),
            ledger@ == LedgerState::empty(program_id@),
            ledger.supply() == 0,
    {
        let ledger = Ledger { program_id, accounts: Vec::new(), total: 0 };
        assert(ledger@.lamports =~= LedgerState::empty(program_id@).lamports);
        assert(ledger@.campaigns =~= LedgerState::empty(program_id@).campaigns);
        ledger
    }

    /// The program that owns the campaigns.
    pub fn program_id(&self) -> (id: Address)
        ensures
            id@ == self@.program_id,
    {
        self.program_id
    }

    /// The place of the entry of `address`.
    fn find(&self, address: &Address) -> (r: Option<usize>)
        ensures
            match r {
                Some(i) => i < self.accounts@.len() && self.accounts@[i as int].address@
                    == address@,
                None => !present(self.accounts@, address@),
            },
    {
        let mut i: usize = 0;
        while i < self.accounts.len()
            invariant
                i <= self.accounts@.len(),
                forall|j: int| 0 <= j < i ==> (#[trigger] self.accounts@[j]).address@ != address@,
            decreases self.accounts@.len() - i,
        {
            if same_bytes(&self.accounts[i].address.bytes, &address.bytes) {
                return Some(i);
            }
            i += 1;
        }
        None
    }

    /// The balance of `address`.
    pub fn balance(&self, address: &Address) -> (b: u64)
        requires
            self.wf(),
        ensures
            b == self@.balance(address@),
    {
        match self.find(address) {
            Some(i) => {
                proof {
                    lemma_entry_at(self.accounts@, i as int);
                }
                self.accounts[i].lamports
            },
            None => 0,
        }
    }

    /// The campaign stored at `address`, if there is one.
    pub fn campaign(&self, address: &Address) -> (c: Option<CampaignAccount>)
        requires
            self.wf(),
        ensures
            c == self@.campaign(address@),
    {
        match self.find(address) {
            Some(i) => {
                proof {
                    lemma_entry_at(self.accounts@, i as int);
                }
                self.accounts[i].campaign
            },
            None => None,
        }
    }

    /// The sum of all balances.
    pub fn total_supply(&self) -> (s: u64)
        requires
            self.wf(),
        ensures
            s == self.supply(),
    {
        self.total
    }

    /// Sets the balance of `address`.
    pub(crate) fn set_balance(&mut self, address: &Address, value: u64)
        requires
            old(self).wf(),
            old(self).supply() - old(self)@.balance(address@) + value <= u64::MAX,
        ensures
            final(self).wf(),
            final(self)@ == old(self)@.with_balance(address@, value as nat),
            final(self).supply() == old(self).supply() - old(self)@.balance(address@) + value,
    {
        let ghost before = self.accounts@;
        match self.find(address) {
            Some(i) => {
                let e = self.accounts[i];
                let x = Account { address: e.address, lamports: value, campaign: e.campaign };
                proof {
                    lemma_entry_at(before, i as int);
                    lemma_entry_update(before, i as int, x);
                    lemma_total_update(before, i as int, x);
                    lemma_total_covers(before, i as int, i as int);
                }
                self.total = self.total - e.lamports + value;
                self.accounts.set(i, x);
                assert(self.accounts@ == before.update(i as int, x));
                assert forall|j: int| 0 <= j < self.accounts@.len() implies match (
                #[trigger] self.accounts@[j]).campaign {
                    Some(c) => c.authority@ != self.accounts@[j].address@,
                    None => true,
                } by {
                    assert(self.accounts@[j].campaign == before[j].campaign);
                    assert(self.accounts@[j].address@ == before[j].address@);
                }
            },
            None => {
                let x = Account { address: *address, lamports: value, campaign: None };
                proof {
                    lemma_entry_push(before, x);
                    lemma_total_push(before, x);
                }
                self.total = self.total + value;
                self.accounts.push(x);
                assert(self.accounts@ == before.push(x));
                assert forall|j: int| 0 <= j < self.accounts@.len() implies match (
                #[trigger] self.accounts@[j]).campaign {
                    Some(c) => c.authority@ != self.accounts@[j].address@,
                    None => true,
                } by {
                    if j < before.len() {
                        assert(self.accounts@[j] == before[j]);
                    }
                }
            },
        }
        assert(self@.lamports =~= old(self)@.with_balance(address@, value as nat).lamports);
        assert(self@.campaigns =~= old(self)@.campaigns);
    }

    /// Stores `record` at `address`.
    pub(crate) fn set_campaign(&mut self, address: &Address, record: CampaignAccount)
        requires
            old(self).wf(),
            record.authority@ != address@,
        ensures
            final(self).wf(),
            final(self)@ == old(self)@.with_campaign(address@, record),
            final(self).supply() == old(self).supply(),
    {
        let ghost before = self.accounts@;
        match self.find(address) {
            Some(i) => {
                let e = self.accounts[i];
                let x = Account {
                    address: e.address,
                    lamports: e.lamports,
                    campaign: Some(record),
                };
                proof {
                    lemma_entry_at(before, i as int);
                    lemma_entry_update(before, i as int, x);
                    lemma_total_update(before, i as int, x);
                }
                self.accounts.set(i, x);
                assert(self.accounts@ == before.update(i as int, x));
                assert forall|j: int| 0 <= j < self.accounts@.len() implies match (
                #[trigger] self.accounts@[j]).campaign {
                    Some(c) => c.authority@ != self.accounts@[j].address@,
                    None => true,
                } by {
                    if j != i {
                        assert(self.accounts@[j] == before[j]);
                    }
                }
            },
            None => {
                let x = Account { address: *address, lamports: 0, campaign: Some(record) };
                proof {
                    lemma_entry_push(before, x);
                    lemma_total_push(before, x);
                }
                self.accounts.push(x);
                assert(self.accounts@ == before.push(x));
                assert forall|j: int| 0 <= j < self.accounts@.len() implies match (
                #[trigger] self.accounts@[j]).campaign {
                    Some(c) => c.authority@ != self.accounts@[j].address@,
                    None => true,
                } by {
                    if j < before.len() {
                        assert(self.accounts@[j] == before[j]);
                    }
                }
            },
        }
        assert(self@.lamports =~= old(self)@.lamports);
        assert(self@.campaigns =~= old(self)@.with_campaign(address@, record).campaigns);
    }

    /// Credits `amount` to `address` from outside the ledger. Refused with
    /// `Overflow`, and nothing changed, where the supply would no longer fit in
    /// 64 bits.
    pub fn deposit(&mut self, address: &Address, amount: u64) -> (r: Result<(), CrowdfundingError>)
        requires
            old(self).wf(),
        ensures
            final(self).wf(),
            old(self).supply() + amount <= u64::MAX ==> {
                &&& r is Ok
                &&& final(self)@ == old(self)@.with_balance(
                    address@,
                    (old(self)@.balance(address@) + amount) as nat,
                )
                &&& final(self).supply() == old(self).supply() + amount
            },
            old(self).supply() + amount > u64::MAX ==> {
                &&& r == Err::<(), CrowdfundingError>(CrowdfundingError::Overflow)
                &&& final(self)@ == old(self)@
                &&& final(self).supply() == old(self).supply()
            },
    {
        if amount > u64::MAX - self.total {
            return Err(CrowdfundingError::Overflow);
        }
        let held = self.balance(address);
        proof {
            self.lemma_within_supply(address@, address@);
        }
        self.set_balance(address, held + amount);
        Ok(())
    }

    /// Puts back at `address` a campaign as it was stored earlier. Refused
    /// with `AccountAlreadyInUse` where a campaign is stored there already, and
    /// with `ConstraintRaw` where `address` is the record's own authority;
    /// nothing changes then.
    pub fn restore(&mut self, address: &Address, record: CampaignAccount) -> (r: Result<
        (),
        CrowdfundingError,
    >)
        requires
            old(self).wf(),
        ensures
            final(self).wf(),
            final(self).supply() == old(self).supply(),
            old(self)@.campaign(address@) is Some ==> {
                &&& r == Err::<(), CrowdfundingError>(CrowdfundingError::AccountAlreadyInUse)
                &&& final(self)@ == old(self)@
            },
            old(self)@.campaign(address@) is None && record.authority@ == address@ ==> {
                &&& r == Err::<(), CrowdfundingError>(CrowdfundingError::ConstraintRaw)
                &&& final(self)@ == old(self)@
            },
            old(self)@.campaign(address@) is None && record.authority@ != address@ ==> {
                &&& r is Ok
                &&& final(self)@ == old(self)@.with_campaign(address@, record)
            },
    {
        if self.campaign(address).is_some() {
            return Err(CrowdfundingError::AccountAlreadyInUse);
        }
        if same_bytes(&record.authority.bytes, &address.bytes) {
            return Err(CrowdfundingError::ConstraintRaw);
        }
        self.set_campaign(address, record);
        Ok(())
    }
}

} // verus!
