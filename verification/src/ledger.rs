//! The store of records: a map from addresses to records in which a record,
//! once created, stays where it is and as it is. The only way in is
//! [`Ledger::allocate`], which creates a record at an address that is still
//! free and refuses to touch one that is taken.

use vstd::prelude::*;
use crate::address::Address;
use crate::error::HostError;
use crate::record::{Event, Record, RecordView, Stream};

verus! {

/// A record and the address at which it is stored.
struct Account {
    address: Address,
    record: Record,
}

/// All the records that were created, each at its address.
pub struct Ledger {
    accounts: Vec<Account>,
}

/// No address occurs twice among the accounts.
spec fn distinct(accounts: Seq<Account>) -> bool {
    forall|i: int, j: int|
        0 <= i < accounts.len() && 0 <= j < accounts.len() && i != j
            ==> accounts[i].address@ != accounts[j].address@
}

/// The map that the accounts make up.
spec fn contents(accounts: Seq<Account>) -> Map<Seq<u8>, RecordView>
    decreases accounts.len(),
{
    if accounts.len() == 0 {
        Map::empty()
    } else {
        contents(accounts.drop_last()).insert(accounts.last().address@, accounts.last().record@)
    }
}

/// The map holds an address exactly where an account has it, is finite, and,
/// where no address occurs twice, has one entry for each account and shows
/// at an account's address that account's record.
proof fn lemma_contents(accounts: Seq<Account>)
    ensures
        contents(accounts).dom().finite(),
        forall|k: Seq<u8>| #[trigger]
            contents(accounts).dom().contains(k) <==> exists|i: int|
                0 <= i < accounts.len() && #[trigger] accounts[i].address@ == k,
        distinct(accounts) ==> contents(accounts).len() == accounts.len(),
        distinct(accounts) ==> forall|i: int|
            0 <= i < accounts.len() ==> contents(accounts)[#[trigger] accounts[i].address@]
                == accounts[i].record@,
    decreases accounts.len(),
{
    if accounts.len() > 0 {
        let front = accounts.drop_last();
        let last = accounts.last();
        lemma_contents(front);
        assert forall|k: Seq<u8>| #[trigger]
            contents(accounts).dom().contains(k) <==> exists|i: int|
                0 <= i < accounts.len() && #[trigger] accounts[i].address@ == k by {
            if contents(accounts).dom().contains(k) {
                if k == last.address@ {
                    assert(accounts[accounts.len() - 1].address@ == k);
                } else {
                    let i = choose|i: int| 0 <= i < front.len() && #[trigger] front[i].address@ == k;
                    assert(accounts[i].address@ == k);
                }
            }
            if exists|i: int| 0 <= i < accounts.len() && #[trigger] accounts[i].address@ == k {
                let i = choose|i: int| 0 <= i < accounts.len() && #[trigger] accounts[i].address@ == k;
                if i < front.len() {
                    assert(front[i].address@ == k);
                }
            }
        }
        if distinct(accounts) {
            assert(distinct(front)) by {
                assert forall|i: int, j: int|
                    0 <= i < front.len() && 0 <= j < front.len() && i != j implies front[i].address@
                    != front[j].address@ by {
                    assert(front[i] == accounts[i] && front[j] == accounts[j]);
                }
            }
            assert(!contents(front).dom().contains(last.address@)) by {
                if contents(front).dom().contains(last.address@) {
                    let i = choose|i: int|
                        0 <= i < front.len() && #[trigger] front[i].address@ == last.address@;
                    assert(accounts[i].address@ == accounts[accounts.len() - 1].address@);
                }
            }
            assert forall|i: int| 0 <= i < accounts.len() implies contents(accounts)[#[trigger] accounts[i].address@]
                == accounts[i].record@ by {
                if i < front.len() {
                    assert(front[i] == accounts[i]);
                    assert(accounts[i].address@ != accounts[accounts.len() - 1].address@);
                }
            }
        }
    }
}

impl View for Ledger {
    type V = Map<Seq<u8>, RecordView>;

    closed spec fn view(&self) -> Map<Seq<u8>, RecordView> {
        contents(self.accounts@)
    }
}

impl Ledger {
    #[verifier::type_invariant]
    spec fn well_formed(self) -> bool {
        distinct(self.accounts@)
    }

    /// A ledger that holds no record.
    pub fn new() -> (ledger: Ledger)
        ensures
            ledger@ == Map::<Seq<u8>, RecordView>::empty(),
    {
        Ledger { accounts: Vec::new() }
    }

    /// The number of records.
    pub fn len(&self) -> (n: usize)
        ensures
            self@.dom().finite(),
            n == self@.len(),
    {
        proof {
            use_type_invariant(self);
            lemma_contents(self.accounts@);
        }
        self.accounts.len()
    }

    /// Where in the list the account with this address is.
    fn position(&self, address: &Address) -> (at: Option<usize>)
        ensures
            match at {
                Some(i) => i < self.accounts@.len() && self.accounts@[i as int].address@ == address@,
                None => !self@.dom().contains(address@),
            },
    {
        let mut i: usize = 0;
        while i < self.accounts.len()
            invariant
                i <= self.accounts@.len(),
                forall|j: int| 0 <= j < i ==> self.accounts@[j].address@ != address@,
            decreases self.accounts@.len() - i,
        {
            if self.accounts[i].address == *address {
                return Some(i);
            }
            i += 1;
        }
        proof {
            lemma_contents(self.accounts@);
        }
        None
    }

    /// Whether a record sits at `address`.
    pub fn contains(&self, address: &Address) -> (occupied: bool)
        ensures
            occupied == self@.dom().contains(address@),
    {
        let at = self.position(address);
        proof {
            lemma_contents(self.accounts@);
        }
        at.is_some()
    }

    /// The record at `address`, if one sits there.
    pub fn get(&self, address: &Address) -> (found: Option<&Record>)
        ensures
            match found {
                Some(record) => self@.dom().contains(address@) && self@[address@] == record@,
                None => !self@.dom().contains(address@),
            },
    {
        proof {
            use_type_invariant(self);
            lemma_contents(self.accounts@);
        }
        match self.position(address) {
            Some(i) => Some(&self.accounts[i].record),
            None => None,
        }
    }

    /// The stream at `address`, if a stream sits there.
    pub fn stream_at(&self, address: &Address) -> (found: Option<&Stream>)
        ensures
            match found {
                Some(stream) => self@.dom().contains(address@) && self@[address@]
                    == RecordView::Stream(stream@),
                None => !self@.dom().contains(address@) || self@[address@] is Event,
            },
    {
        match self.get(address) {
            Some(Record::Stream(stream)) => Some(stream),
            _ => None,
        }
    }

    /// The event at `address`, if an event sits there.
    pub fn event_at(&self, address: &Address) -> (found: Option<&Event>)
        ensures
            match found {
                Some(event) => self@.dom().contains(address@) && self@[address@]
                    == RecordView::Event(event@),
                None => !self@.dom().contains(address@) || self@[address@] is Stream,
            },
    {
        match self.get(address) {
            Some(Record::Event(event)) => Some(event),
            _ => None,
        }
    }

    /// Creates `record` at `address` if no record sits there yet. Where one
    /// does, the ledger stays as it was and the record is refused.
    pub fn allocate(&mut self, address: Address, record: Record) -> (r: Result<(), HostError>)
        ensures
            old(self)@.dom().contains(address@) ==> r == Err::<(), HostError>(HostError::AddressInUse)
                && final(self)@ == old(self)@,
            !old(self)@.dom().contains(address@) ==> r == Ok::<(), HostError>(()) && final(self)@
                == old(self)@.insert(address@, record@),
    {
        proof {
            use_type_invariant(&*self);
            lemma_contents(self.accounts@);
        }
        if self.position(&address).is_some() {
            return Err(HostError::AddressInUse);
        }
        let mut accounts: Vec<Account> = Vec::new();
        core::mem::swap(&mut self.accounts, &mut accounts);
        let ghost before = accounts@;
        accounts.push(Account { address, record });
        proof {
            assert(accounts@.drop_last() =~= before);
            assert forall|i: int, j: int|
                0 <= i < accounts@.len() && 0 <= j < accounts@.len() && i != j implies accounts@[i].address@
                != accounts@[j].address@ by {
                if i < before.len() {
                    assert(accounts@[i] == before[i]);
                }
                if j < before.len() {
                    assert(accounts@[j] == before[j]);
                }
            }
        }
        core::mem::swap(&mut self.accounts, &mut accounts);
        Ok(())
    }
}

} // verus!
