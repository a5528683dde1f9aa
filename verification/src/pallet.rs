//! The registry: an executable map from fingerprints to claim records.

use vstd::prelude::*;
use crate::ledger::{respond, step, within_bound, Call, Ledger};
use crate::record::{outcome_view, AccountId, BlockNumber, ClaimRecord, Error, Event};
use crate::rules::{create, revoke, same_bytes, stored_view, transfer};

verus! {

/// What a registry is set up with.
#[derive(Clone, Copy, Debug, PartialEq, Eq, Structural)]
pub struct Config {
    /// The greatest length, in bytes, of a fingerprint that can be claimed.
    pub max_claim_length: u32,
}

impl Config {
    /// Whether `claim` is short enough to be claimed.
    pub fn admits(&self, claim: &Vec<u8>) -> (admitted: bool)
        ensures
            admitted == (claim@.len() <= self.max_claim_length),
    {
        claim.len() <= self.max_claim_length as usize
    }
}

/// A fingerprint with the record that is stored for it.
#[derive(Debug, PartialEq, Eq)]
struct Entry {
    claim: Vec<u8>,
    record: ClaimRecord,
}

/// The registry of claims.
///
/// It owns the records of all claims that were ever created. Its value is the
/// [`Ledger`] that maps each claimed fingerprint to its record. `==` compares
/// two registries claim by claim, in the order in which the claims were
/// created.
#[derive(Debug, PartialEq, Eq)]
pub struct Pallet {
    config: Config,
    entries: Vec<Entry>,
}

/// Whether `entries` holds a record for the fingerprint `claim`.
spec fn holds(entries: Seq<Entry>, claim: Seq<u8>) -> bool {
    exists|i: int| 0 <= i < entries.len() && #[trigger] entries[i].claim@ == claim
}

/// The place of the fingerprint `claim` in `entries`.
spec fn place(entries: Seq<Entry>, claim: Seq<u8>) -> int {
    choose|i: int| 0 <= i < entries.len() && #[trigger] entries[i].claim@ == claim
}

/// Whether `at` says where the fingerprint `claim` stands in `entries`: its
/// place, or that it has none.
spec fn locates(entries: Seq<Entry>, claim: Seq<u8>, at: Option<usize>) -> bool {
    match at {
        Some(i) => i < entries.len() && entries[i as int].claim@ == claim,
        None => !holds(entries, claim),
    }
}

/// Whether no fingerprint stands twice in `entries`.
spec fn distinct(entries: Seq<Entry>) -> bool {
    forall|i: int, j: int|
        0 <= i < j < entries.len() ==> #[trigger] entries[i].claim@ != #[trigger] entries[j].claim@
}

/// The ledger that `entries` stands for.
spec fn ledger_of(entries: Seq<Entry>) -> Ledger {
    Map::new(
        |claim: Seq<u8>| holds(entries, claim),
        |claim: Seq<u8>| entries[place(entries, claim)].record@,
    )
}

/// Where no fingerprint stands twice, each entry is what the ledger holds for
/// its fingerprint.
proof fn lemma_entry_in_ledger(entries: Seq<Entry>, i: int)
    requires
        distinct(entries),
        0 <= i < entries.len(),
    ensures
        ledger_of(entries).contains_key(entries[i].claim@),
        ledger_of(entries)[entries[i].claim@] == entries[i].record@,
{
    let claim = entries[i].claim@;
    assert(holds(entries, claim));
    let j = place(entries, claim);
    assert(i == j);
}

/// What the ledger holds for a fingerprint, by the place of the fingerprint
/// in `entries`.
proof fn lemma_lookup(entries: Seq<Entry>, claim: Seq<u8>, at: Option<usize>)
    requires
        distinct(entries),
        locates(entries, claim, at),
    ensures
        ledger_of(entries).get(claim) == match at {
            Some(i) => Some(entries[i as int].record@),
            None => None,
        },
{
    if let Some(i) = at {
        lemma_entry_in_ledger(entries, i as int);
    }
}

impl View for Pallet {
    type V = Ledger;

    closed spec fn view(&self) -> Ledger {
        ledger_of(self.entries@)
    }
}

impl Clone for Pallet {
    fn clone(&self) -> (copy: Self)
        ensures
            copy@ == self@,
            copy.spec_config() == self.spec_config(),
    {
        proof {
            use_type_invariant(self);
        }
        let mut entries: Vec<Entry> = Vec::new();
        let mut i: usize = 0;
        while i < self.entries.len()
            invariant
                i <= self.entries.len(),
                entries.len() == i,
                forall|k: int|
                    0 <= k < i ==> (#[trigger] entries[k]).claim@ == self.entries[k].claim@
                        && entries[k].record@ == self.entries[k].record@,
            decreases self.entries.len() - i,
        {
            let entry = &self.entries[i];
            entries.push(Entry { claim: entry.claim.clone(), record: entry.record.clone() });
            i += 1;
        }
        proof {
            assert forall|claim: Seq<u8>| holds(entries@, claim) <==> holds(
                self.entries@,
                claim,
            ) by {
                if holds(entries@, claim) {
                    assert(self.entries[place(entries@, claim)].claim@ == claim);
                }
                if holds(self.entries@, claim) {
                    assert(entries[place(self.entries@, claim)].claim@ == claim);
                }
            }
            assert forall|claim: Seq<u8>| holds(entries@, claim) implies #[trigger] ledger_of(
                entries@,
            )[claim] == ledger_of(self.entries@)[claim] by {
                let k = place(entries@, claim);
                lemma_entry_in_ledger(entries@, k);
                lemma_entry_in_ledger(self.entries@, k);
            }
            assert(ledger_of(entries@) =~= ledger_of(self.entries@));
        }
        Pallet { config: self.config, entries }
    }
}

impl Pallet {
    /// What holds of every registry: no fingerprint is stored twice, and none
    /// is longer than the registry allows.
    #[verifier::type_invariant]
    pub closed spec fn well_formed(self) -> bool {
        &&& distinct(self.entries@)
        &&& forall|i: int|
            0 <= i < self.entries.len() ==> (#[trigger] self.entries[i]).claim@.len()
                <= self.config.max_claim_length
    }

    /// No fingerprint of a registry is longer than the registry allows.
    pub proof fn lemma_claims_within_bound(self)
        requires
            self.well_formed(),
        ensures
            within_bound(self@, self.max_claim_length()),
    {
        assert forall|claim: Seq<u8>| #[trigger] self@.contains_key(claim) implies claim.len()
            <= self.max_claim_length() by {
            let i = place(self.entries@, claim);
            assert(self.entries[i].claim@ == claim);
        }
    }

    /// What the registry was set up with.
    pub closed spec fn spec_config(&self) -> Config {
        self.config
    }

    /// The greatest length of a fingerprint that the registry takes.
    pub open spec fn max_claim_length(&self) -> nat {
        self.spec_config().max_claim_length as nat
    }

    /// A registry without claims.
    pub fn new(config: Config) -> (pallet: Pallet)
        ensures
            pallet@ == Ledger::empty(),
            pallet.spec_config() == config,
    {
        let pallet = Pallet { config, entries: Vec::new() };
        assert(pallet@ =~= Ledger::empty());
        pallet
    }

    /// What the registry was set up with.
    #[verifier::when_used_as_spec(spec_config)]
    pub fn config(&self) -> (config: Config)
        ensures
            config == self.spec_config(),
    {
        self.config
    }

    /// The place of `claim` among the entries, if it has one.
    fn position(&self, claim: &Vec<u8>) -> (at: Option<usize>)
        ensures
            locates(self.entries@, claim@, at),
    {
        let mut i: usize = 0;
        while i < self.entries.len()
            invariant
                i <= self.entries.len(),
                forall|k: int| 0 <= k < i ==> self.entries[k].claim@ != claim@,
            decreases self.entries.len() - i,
        {
            if same_bytes(&self.entries[i].claim, claim) {
                return Some(i);
            }
            i += 1;
        }
        None
    }

    /// The record at the place `at`, which is the place of `claim`.
    fn record_at(&self, at: Option<usize>, claim: &Vec<u8>) -> (record: Option<&ClaimRecord>)
        requires
            locates(self.entries@, claim@, at),
        ensures
            stored_view(record) == self@.get(claim@),
    {
        proof {
            use_type_invariant(self);
            lemma_lookup(self.entries@, claim@, at);
        }
        match at {
            Some(i) => Some(&self.entries[i].record),
            None => None,
        }
    }

    /// Whether a claim on the fingerprint `claim` was ever created.
    pub fn contains_claim(&self, claim: &Vec<u8>) -> (found: bool)
        ensures
            found == self@.contains_key(claim@),
            found ==> claim@.len() <= self.max_claim_length(),
    {
        proof {
            use_type_invariant(self);
        }
        self.position(claim).is_some()
    }

    /// The record that is stored for the fingerprint `claim`.
    pub fn get(&self, claim: &Vec<u8>) -> (record: Option<&ClaimRecord>)
        ensures
            stored_view(record) == self@.get(claim@),
    {
        let at = self.position(claim);
        self.record_at(at, claim)
    }

    /// Stores `record` for the fingerprint `claim`, whose place is `at`.
    fn store(&mut self, at: Option<usize>, claim: &Vec<u8>, record: ClaimRecord)
        requires
            locates(old(self).entries@, claim@, at),
            claim@.len() <= old(self).config.max_claim_length,
        ensures
            final(self)@ == old(self)@.insert(claim@, record@),
            final(self).config == old(self).config,
    {
        proof {
            use_type_invariant(&*self);
        }
        let ghost before = self.entries@;
        let mut entries: Vec<Entry> = Vec::new();
        std::mem::swap(&mut entries, &mut self.entries);
        match at {
            Some(i) => {
                entries[i].record = record;
            },
            None => {
                entries.push(Entry { claim: claim.clone(), record });
            },
        }
        proof {
            let after = entries@;
            assert(distinct(after));
            assert forall|k: Seq<u8>| holds(after, k) <==> holds(before, k) || k == claim@ by {
                if holds(before, k) {
                    let j = place(before, k);
                    assert(after[j].claim@ == k);
                }
                if k == claim@ {
                    match at {
                        Some(i) => {
                            assert(after[i as int].claim@ == k);
                        },
                        None => {
                            assert(after[after.len() - 1].claim@ == k);
                        },
                    }
                }
                if holds(after, k) {
                    let j = place(after, k);
                    if j < before.len() {
                        assert(before[j].claim@ == k);
                    }
                }
            }
            assert forall|k: Seq<u8>| holds(after, k) implies #[trigger] ledger_of(after)[k]
                == ledger_of(before).insert(claim@, record@)[k] by {
                let j = place(after, k);
                lemma_entry_in_ledger(after, j);
                if k != claim@ {
                    assert(before[j].claim@ == k);
                    lemma_entry_in_ledger(before, j);
                }
            }
            assert(ledger_of(after) =~= ledger_of(before).insert(claim@, record@));
        }
        self.entries = entries;
    }

    /// Registers the claim of `who` on the fingerprint `claim` at the time
    /// `now`.
    ///
    /// Refused with `ProofAlreadyExists` where the fingerprint was claimed
    /// before, also where that claim is revoked. Otherwise the registry stores
    /// an active record that belongs to `who` and is stamped `now`, and
    /// reports `ClaimCreated`.
    pub fn create_claim(&mut self, who: AccountId, claim: Vec<u8>, now: BlockNumber) -> (outcome:
        Result<Event, Error>)
        requires
            claim@.len() <= old(self).max_claim_length(),
        ensures
            final(self)@ == step(
                old(self)@,
                (Call::CreateClaim { who: who@, claim: claim@, now }),
            ),
            outcome_view(outcome) == respond(
                old(self)@,
                (Call::CreateClaim { who: who@, claim: claim@, now }),
            ),
            outcome is Err <==> old(self)@.contains_key(claim@),
            outcome is Err ==> final(self)@ == old(self)@,
            final(self).spec_config() == old(self).spec_config(),
    {
        let at = self.position(&claim);
        match create(self.record_at(at, &claim), &who, now) {
            Ok(record) => {
                self.store(at, &claim, record);
                Ok(Event::ClaimCreated { owner: who, claim })
            },
            Err(error) => Err(error),
        }
    }

    /// Revokes the claim of `who` on the fingerprint `claim` at the time
    /// `now`.
    ///
    /// Refused with `ProofNotExist` where the fingerprint was never claimed,
    /// else with `NotProofOwner` where the claim belongs to another actor,
    /// else with `ProofAlreadyRevoked` where it is revoked already. Otherwise
    /// the record becomes inactive and is stamped `now`, its owner stays, and
    /// the registry reports `ClaimRevoked`.
    pub fn revoke_claim(&mut self, who: AccountId, claim: Vec<u8>, now: BlockNumber) -> (outcome:
        Result<Event, Error>)
        ensures
            final(self)@ == step(
                old(self)@,
                (Call::RevokeClaim { who: who@, claim: claim@, now }),
            ),
            outcome_view(outcome) == respond(
                old(self)@,
                (Call::RevokeClaim { who: who@, claim: claim@, now }),
            ),
            outcome is Err ==> final(self)@ == old(self)@,
            final(self).spec_config() == old(self).spec_config(),
    {
        proof {
            use_type_invariant(&*self);
        }
        let at = self.position(&claim);
        match revoke(self.record_at(at, &claim), &who, now) {
            Ok(record) => {
                self.store(at, &claim, record);
                Ok(Event::ClaimRevoked { owner: who, claim })
            },
            Err(error) => Err(error),
        }
    }

    /// Hands the claim of `who` on the fingerprint `claim` to `new_owner`.
    ///
    /// Refused with `ProofNotExist` where the fingerprint was never claimed,
    /// else with `NotProofOwner` where the claim belongs to another actor,
    /// else with `CannotTransferToSelf` where `new_owner` is `who`. Otherwise
    /// the record belongs to `new_owner` and is active, also where it was
    /// revoked, its stamp stays, and the registry reports `ClaimTransferred`.
    pub fn transfer_claim(
        &mut self,
        who: AccountId,
        claim: Vec<u8>,
        new_owner: AccountId,
    ) -> (outcome: Result<Event, Error>)
        ensures
            final(self)@ == step(
                old(self)@,
                (Call::TransferClaim { who: who@, claim: claim@, new_owner: new_owner@ }),
            ),
            outcome_view(outcome) == respond(
                old(self)@,
                (Call::TransferClaim { who: who@, claim: claim@, new_owner: new_owner@ }),
            ),
            outcome is Err ==> final(self)@ == old(self)@,
            final(self).spec_config() == old(self).spec_config(),
    {
        proof {
            use_type_invariant(&*self);
        }
        let at = self.position(&claim);
        match transfer(self.record_at(at, &claim), &who, &new_owner) {
            Ok(record) => {
                self.store(at, &claim, record);
                Ok(Event::ClaimTransferred { old_owner: who, new_owner, claim })
            },
            Err(error) => Err(error),
        }
    }
}

} // verus!
