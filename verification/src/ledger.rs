//! The request ledger: one record for each depositor and destination.

use vstd::prelude::*;
use crate::error::BridgeError;
use crate::pubkey::Pubkey;
use crate::state::{BridgeState, BridgeStateView, RequestKey};

verus! {

/// The key made of a depositor and the two destination texts.
pub open spec fn request_key(
    user: Pubkey,
    destination_chain: Seq<char>,
    destination_address: Seq<char>,
) -> RequestKey {
    RequestKey { user, destination_chain, destination_address }
}

/// The map that a sequence of records stands for, each under its key.
pub open spec fn ledger_of(records: Seq<BridgeState>) -> Map<RequestKey, BridgeStateView>
    decreases records.len(),
{
    if records.len() == 0 {
        Map::empty()
    } else {
        ledger_of(records.drop_last()).insert(records.last()@.key(), records.last()@)
    }
}

/// Whether no two records of the sequence have the same key.
pub open spec fn keys_are_unique(records: Seq<BridgeState>) -> bool {
    forall|i: int, j: int|
        0 <= i < j < records.len() ==> (#[trigger] records[i])@.key() != (#[trigger] records[j])@.key()
}

/// A key is in the map of a sequence exactly when one of its records has
/// that key.
pub proof fn lemma_ledger_of_contains(records: Seq<BridgeState>, key: RequestKey)
    ensures
        ledger_of(records).contains_key(key) <==> exists|i: int|
            0 <= i < records.len() && (#[trigger] records[i])@.key() == key,
    decreases records.len(),
{
    if records.len() > 0 {
        let shorter = records.drop_last();
        lemma_ledger_of_contains(shorter, key);
        if ledger_of(records).contains_key(key) {
            if records.last()@.key() == key {
                assert(records[records.len() - 1]@.key() == key);
            } else {
                let i = choose|i: int| 0 <= i < shorter.len() && (#[trigger] shorter[i])@.key() == key;
                assert(records[i]@.key() == key);
            }
        } else {
            assert forall|i: int| 0 <= i < records.len() implies (#[trigger] records[i])@.key()
                != key by {
                if i < shorter.len() {
                    assert(shorter[i]@.key() != key);
                }
            }
        }
    }
}

/// The map of a sequence without repeated keys has as many keys as the
/// sequence has records.
pub proof fn lemma_ledger_of_len(records: Seq<BridgeState>)
    requires
        keys_are_unique(records),
    ensures
        ledger_of(records).dom().finite(),
        ledger_of(records).dom().len() == records.len(),
    decreases records.len(),
{
    if records.len() > 0 {
        let shorter = records.drop_last();
        let key = records.last()@.key();
        assert(keys_are_unique(shorter)) by {
            assert forall|i: int, j: int| 0 <= i < j < shorter.len() implies (
            #[trigger] shorter[i])@.key() != (#[trigger] shorter[j])@.key() by {
                assert(records[i]@.key() != records[j]@.key());
            }
        }
        lemma_ledger_of_len(shorter);
        lemma_ledger_of_contains(shorter, key);
        if ledger_of(shorter).contains_key(key) {
            let i = choose|i: int| 0 <= i < shorter.len() && (#[trigger] shorter[i])@.key() == key;
            assert(records[i]@.key() != records[records.len() - 1]@.key());
        }
        assert(ledger_of(records).dom() =~= ledger_of(shorter).dom().insert(key));
    }
}

/// The store of requests. It maps each key to at most one request; a
/// request, once stored, is never replaced or removed.
#[derive(Debug)]
pub struct BridgeLedger {
    records: Vec<BridgeState>,
}

impl View for BridgeLedger {
    type V = Map<RequestKey, BridgeStateView>;

    closed spec fn view(&self) -> Map<RequestKey, BridgeStateView> {
        ledger_of(self.records@)
    }
}

impl BridgeLedger {
    /// No two stored requests have the same key.
    #[verifier::type_invariant]
    spec fn inv(&self) -> bool {
        keys_are_unique(self.records@)
    }

    /// The number of requests in the ledger.
    pub fn len(&self) -> (n: usize)
        ensures
            self@.dom().finite(),
            n == self@.dom().len(),
    {
        proof {
            use_type_invariant(self);
            lemma_ledger_of_len(self.records@);
        }
        self.records.len()
    }

    /// A ledger without requests.
    pub fn new() -> (ledger: BridgeLedger)
        ensures
            ledger@ == Map::<RequestKey, BridgeStateView>::empty(),
    {
        BridgeLedger { records: Vec::new() }
    }

    /// Where the request under the given key is stored, if there is one.
    fn position(
        &self,
        user: &Pubkey,
        destination_chain: &String,
        destination_address: &String,
    ) -> (r: Option<usize>)
        ensures
            r is Some <==> self@.contains_key(
                request_key(*user, destination_chain@, destination_address@),
            ),
            r matches Some(i) ==> i < self.records.len() && self.records[i as int]@ == self@[request_key(
                *user,
                destination_chain@,
                destination_address@,
            )],
    {
        let ghost key = request_key(*user, destination_chain@, destination_address@);
        let ghost all = self.records@;
        let mut i: usize = self.records.len();
        proof {
            assert(all.take(i as int) =~= all);
        }
        while i > 0
            invariant
                i <= self.records.len(),
                all == self.records@,
                key == request_key(*user, destination_chain@, destination_address@),
                ledger_of(all).contains_key(key) == ledger_of(all.take(i as int)).contains_key(key),
                ledger_of(all).contains_key(key) ==> ledger_of(all)[key] == ledger_of(
                    all.take(i as int),
                )[key],
            decreases i,
        {
            i -= 1;
            let record = &self.records[i];
            proof {
                let longer = all.take(i + 1);
                assert(longer.drop_last() =~= all.take(i as int));
                assert(longer.last() == all[i as int]);
            }
            if record.user == *user && record.destination_chain == *destination_chain
                && record.destination_address == *destination_address {
                return Some(i);
            }
        }
        None
    }

    /// Tells whether a request is stored under the given key.
    pub fn contains(
        &self,
        user: &Pubkey,
        destination_chain: &String,
        destination_address: &String,
    ) -> (r: bool)
        ensures
            r == self@.contains_key(request_key(*user, destination_chain@, destination_address@)),
    {
        self.position(user, destination_chain, destination_address).is_some()
    }

    /// The request stored under the given key, if there is one.
    pub fn get(
        &self,
        user: &Pubkey,
        destination_chain: &String,
        destination_address: &String,
    ) -> (r: Option<&BridgeState>)
        ensures
            r is Some <==> self@.contains_key(
                request_key(*user, destination_chain@, destination_address@),
            ),
            r matches Some(record) ==> record@ == self@[request_key(
                *user,
                destination_chain@,
                destination_address@,
            )],
    {
        match self.position(user, destination_chain, destination_address) {
            Some(i) => Some(&self.records[i]),
            None => None,
        }
    }

    /// Stores `record` under its key, unless a request is stored there
    /// already: then nothing changes.
    pub fn insert(&mut self, record: BridgeState) -> (r: Result<(), BridgeError>)
        ensures
            old(self)@.contains_key(record@.key()) ==> r == Err::<(), BridgeError>(
                BridgeError::RequestAlreadyExists,
            ) && *final(self) == *old(self),
            !old(self)@.contains_key(record@.key()) ==> r == Ok::<(), BridgeError>(())
                && final(self)@ == old(self)@.insert(record@.key(), record@),
    {
        if self.contains(&record.user, &record.destination_chain, &record.destination_address) {
            return Err(BridgeError::RequestAlreadyExists);
        }
        let ghost before = self.records@;
        proof {
            use_type_invariant(&*self);
            lemma_ledger_of_contains(before, record@.key());
            assert(before.push(record).drop_last() =~= before);
            assert(keys_are_unique(before.push(record))) by {
                assert forall|i: int, j: int| 0 <= i < j < before.len() + 1 implies (
                #[trigger] before.push(record)[i])@.key() != (#[trigger] before.push(
                    record,
                )[j])@.key() by {
                    if j < before.len() {
                        assert(before[i]@.key() != before[j]@.key());
                    } else {
                        assert(before[i]@.key() != record@.key());
                    }
                }
            }
        }
        // The records are taken out while the new one is appended, so that
        // the ledger is whole at every step.
        let mut records: Vec<BridgeState> = Vec::new();
        core::mem::swap(&mut self.records, &mut records);
        records.push(record);
        self.records = records;
        Ok(())
    }
}

} // verus!
