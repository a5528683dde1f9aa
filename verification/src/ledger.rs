//! The registry as a mathematical map, and what holds of it.
//!
//! A [`Ledger`] maps each fingerprint that was ever claimed to its record. A
//! [`Call`] is one request to the registry. [`step`] says which ledger a call
//! leaves behind and [`respond`] what the caller is told; [`run`] applies a
//! whole sequence of calls. The proof functions of this module state what
//! holds of every ledger and every call, or of every sequence of calls.

use vstd::prelude::*;
use crate::record::{BlockNumber, ClaimRecordView, Error, EventView};
use crate::rules::{create_rule, revoke_rule, transfer_rule};

verus! {

/// The records of the registry by fingerprint.
pub type Ledger = Map<Seq<u8>, ClaimRecordView>;

/// One request to the registry, made by the actor `who`.
pub enum Call {
    /// Claim the fingerprint `claim` at the time `now`.
    CreateClaim { who: Seq<u8>, claim: Seq<u8>, now: BlockNumber },
    /// Revoke the claim on the fingerprint `claim` at the time `now`.
    RevokeClaim { who: Seq<u8>, claim: Seq<u8>, now: BlockNumber },
    /// Hand the claim on the fingerprint `claim` to `new_owner`.
    TransferClaim { who: Seq<u8>, claim: Seq<u8>, new_owner: Seq<u8> },
}

impl Call {
    /// The fingerprint that the call is about.
    pub open spec fn claim(self) -> Seq<u8> {
        match self {
            Call::CreateClaim { claim, .. } => claim,
            Call::RevokeClaim { claim, .. } => claim,
            Call::TransferClaim { claim, .. } => claim,
        }
    }

    /// The actor who makes the call.
    pub open spec fn who(self) -> Seq<u8> {
        match self {
            Call::CreateClaim { who, .. } => who,
            Call::RevokeClaim { who, .. } => who,
            Call::TransferClaim { who, .. } => who,
        }
    }

    /// The event that is reported where the call is carried out.
    pub open spec fn event(self) -> EventView {
        match self {
            Call::CreateClaim { who, claim, .. } => EventView::ClaimCreated { owner: who, claim },
            Call::RevokeClaim { who, claim, .. } => EventView::ClaimRevoked { owner: who, claim },
            Call::TransferClaim { who, claim, new_owner } => EventView::ClaimTransferred {
                old_owner: who,
                new_owner,
                claim,
            },
        }
    }
}

/// What the rules make of `call` on `ledger`: the record to store for the
/// call's fingerprint, or the refusal.
pub open spec fn decide(ledger: Ledger, call: Call) -> Result<ClaimRecordView, Error> {
    match call {
        Call::CreateClaim { who, claim, now } => create_rule(ledger.get(claim), who, now),
        Call::RevokeClaim { who, claim, now } => revoke_rule(ledger.get(claim), who, now),
        Call::TransferClaim { who, claim, new_owner } => transfer_rule(
            ledger.get(claim),
            who,
            new_owner,
        ),
    }
}

/// The ledger after `call`: the decided record is stored under the call's
/// fingerprint, and a refused call leaves the ledger as it is.
pub open spec fn step(ledger: Ledger, call: Call) -> Ledger {
    match decide(ledger, call) {
        Ok(record) => ledger.insert(call.claim(), record),
        Err(_) => ledger,
    }
}

/// What the caller of `call` is told: the event, or the refusal.
pub open spec fn respond(ledger: Ledger, call: Call) -> Result<EventView, Error> {
    match decide(ledger, call) {
        Ok(_) => Ok(call.event()),
        Err(error) => Err(error),
    }
}

/// The ledger after all of `calls`, in their order.
pub open spec fn run(ledger: Ledger, calls: Seq<Call>) -> Ledger
    decreases calls.len(),
{
    if calls.len() == 0 {
        ledger
    } else {
        step(run(ledger, calls.drop_last()), calls.last())
    }
}

/// Whether no fingerprint of `ledger` is longer than `max_claim_length`.
pub open spec fn within_bound(ledger: Ledger, max_claim_length: nat) -> bool {
    forall|claim: Seq<u8>| #[trigger] ledger.contains_key(claim) ==> claim.len() <= max_claim_length
}

/// A refused call changes nothing: the ledger after it is the ledger before
/// it, with every record as it was.
pub proof fn lemma_refusal_changes_nothing(ledger: Ledger, call: Call)
    ensures
        respond(ledger, call) is Err ==> step(ledger, call) == ledger,
        respond(ledger, call) is Err <==> decide(ledger, call) is Err,
{
}

/// A call touches no fingerprint but its own.
pub proof fn lemma_other_claims_untouched(ledger: Ledger, call: Call, other: Seq<u8>)
    requires
        other != call.claim(),
    ensures
        step(ledger, call).get(other) == ledger.get(other),
{
}

/// No call removes a claim: a fingerprint that has a record keeps one through
/// every sequence of calls.
pub proof fn lemma_claims_are_kept(ledger: Ledger, calls: Seq<Call>, claim: Seq<u8>)
    requires
        ledger.contains_key(claim),
    ensures
        run(ledger, calls).contains_key(claim),
    decreases calls.len(),
{
    if calls.len() > 0 {
        lemma_claims_are_kept(ledger, calls.drop_last(), claim);
    }
}

/// A fingerprint has a record exactly when a claim on it was ever created:
/// after any sequence of calls on a registry without claims, the fingerprints
/// with a record are those that some call of the sequence asked to claim.
pub proof fn lemma_claimed_iff_created(calls: Seq<Call>, claim: Seq<u8>)
    ensures
        run(Ledger::empty(), calls).contains_key(claim) <==> exists|i: int|
            0 <= i < calls.len() && #[trigger] calls[i] is CreateClaim && calls[i].claim() == claim,
    decreases calls.len(),
{
    if calls.len() > 0 {
        let earlier = calls.drop_last();
        lemma_claimed_iff_created(earlier, claim);
        if run(Ledger::empty(), earlier).contains_key(claim) {
            let i = choose|i: int|
                0 <= i < earlier.len() && #[trigger] earlier[i] is CreateClaim && earlier[i].claim()
                    == claim;
            assert(calls[i] is CreateClaim && calls[i].claim() == claim);
        } else {
            assert forall|i: int| 0 <= i < earlier.len() && #[trigger] calls[i] is CreateClaim
                implies calls[i].claim() != claim by {
                assert(earlier[i] is CreateClaim);
            }
            if calls.last() is CreateClaim && calls.last().claim() == claim {
                assert(calls[calls.len() - 1] is CreateClaim);
            }
        }
    }
}

/// A fingerprint can be claimed once only. Where creating a claim succeeds,
/// every later attempt to create a claim on the same fingerprint, by any actor
/// at any time and after any calls in between (revoking the claim among them),
/// is refused with `ProofAlreadyExists`.
pub proof fn lemma_created_at_most_once(
    ledger: Ledger,
    first: Call,
    between: Seq<Call>,
    second: Call,
)
    requires
        first is CreateClaim,
        second is CreateClaim,
        first.claim() == second.claim(),
        respond(ledger, first) is Ok,
    ensures
        respond(run(step(ledger, first), between), second) == Err::<EventView, Error>(
            Error::ProofAlreadyExists,
        ),
{
    lemma_claims_are_kept(step(ledger, first), between, first.claim());
}

/// Creating a claim is refused exactly where the fingerprint has a record,
/// active or revoked, and then with `ProofAlreadyExists`.
pub proof fn lemma_create_refused_iff_claimed(ledger: Ledger, call: Call)
    requires
        call is CreateClaim,
    ensures
        ledger.contains_key(call.claim()) <==> respond(ledger, call) is Err,
        respond(ledger, call) is Err ==> respond(ledger, call) == Err::<EventView, Error>(
            Error::ProofAlreadyExists,
        ),
{
}

/// Only the owner of a claim can revoke or transfer it. Such a call succeeds
/// only where its fingerprint has a record that belongs to the caller. Made by
/// anyone else on a fingerprint that has a record, it is refused with
/// `NotProofOwner` and the ledger stays as it is.
pub proof fn lemma_only_owner_revokes_or_transfers(ledger: Ledger, call: Call)
    requires
        call is RevokeClaim || call is TransferClaim,
    ensures
        respond(ledger, call) is Ok ==> ledger.contains_key(call.claim())
            && ledger[call.claim()].owner == call.who(),
        ledger.contains_key(call.claim()) && ledger[call.claim()].owner != call.who() ==> respond(
            ledger,
            call,
        ) == Err::<EventView, Error>(Error::NotProofOwner) && step(ledger, call) == ledger,
{
}

/// Revoking a revoked claim is refused: by its owner with
/// `ProofAlreadyRevoked`, by anyone else with `NotProofOwner`.
pub proof fn lemma_revoked_claim_is_not_revoked_again(ledger: Ledger, call: Call)
    requires
        call is RevokeClaim,
        ledger.contains_key(call.claim()),
        !ledger[call.claim()].active,
    ensures
        respond(ledger, call) is Err,
        ledger[call.claim()].owner == call.who() ==> respond(ledger, call) == Err::<
            EventView,
            Error,
        >(Error::ProofAlreadyRevoked),
        ledger[call.claim()].owner != call.who() ==> respond(ledger, call) == Err::<
            EventView,
            Error,
        >(Error::NotProofOwner),
{
}

/// Whether no call of `calls` asks to transfer the claim on `claim`.
pub open spec fn without_transfer_of(calls: Seq<Call>, claim: Seq<u8>) -> bool {
    forall|i: int|
        0 <= i < calls.len() ==> !(#[trigger] calls[i] is TransferClaim && calls[i].claim() == claim)
}

/// A revoked claim stays as it is until it is transferred: through every
/// sequence of calls that does not ask to transfer it, its record is kept
/// unchanged.
pub proof fn lemma_revoked_claim_is_frozen(ledger: Ledger, calls: Seq<Call>, claim: Seq<u8>)
    requires
        ledger.contains_key(claim),
        !ledger[claim].active,
        without_transfer_of(calls, claim),
    ensures
        run(ledger, calls).get(claim) == ledger.get(claim),
    decreases calls.len(),
{
    if calls.len() > 0 {
        let earlier = calls.drop_last();
        assert forall|i: int| 0 <= i < earlier.len() implies !(#[trigger] earlier[i]
            is TransferClaim && earlier[i].claim() == claim) by {
            assert(earlier[i] == calls[i]);
        }
        lemma_revoked_claim_is_frozen(ledger, earlier, claim);
        assert(!(calls[calls.len() - 1] is TransferClaim && calls.last().claim() == claim));
    }
}

/// Revoking does not succeed twice. After a claim was revoked, no attempt to
/// revoke it succeeds, whoever makes it and whenever, until the claim is
/// transferred; made by the actor who revoked it, the attempt is refused with
/// `ProofAlreadyRevoked`.
pub proof fn lemma_revoke_succeeds_once(
    ledger: Ledger,
    first: Call,
    between: Seq<Call>,
    second: Call,
)
    requires
        first is RevokeClaim,
        second is RevokeClaim,
        first.claim() == second.claim(),
        respond(ledger, first) is Ok,
        without_transfer_of(between, first.claim()),
    ensures
        respond(run(step(ledger, first), between), second) is Err,
        second.who() == first.who() ==> respond(run(step(ledger, first), between), second)
            == Err::<EventView, Error>(Error::ProofAlreadyRevoked),
{
    lemma_revoked_claim_is_frozen(step(ledger, first), between, first.claim());
}

/// Nobody can transfer a claim to itself. A transfer whose new owner is the
/// caller never succeeds. Where the caller owns the claim, active or revoked,
/// it is refused with `CannotTransferToSelf`.
pub proof fn lemma_transfer_to_self_is_refused(ledger: Ledger, call: Call)
    requires
        call matches Call::TransferClaim { who, new_owner, .. } && who == new_owner,
    ensures
        respond(ledger, call) is Err,
        step(ledger, call) == ledger,
        ledger.contains_key(call.claim()) && ledger[call.claim()].owner == call.who() ==> respond(
            ledger,
            call,
        ) == Err::<EventView, Error>(Error::CannotTransferToSelf),
{
}

/// Every call keeps the fingerprints of the ledger within the bound, where
/// the fingerprint of a call that creates a claim is within it.
pub proof fn lemma_step_keeps_bound(ledger: Ledger, call: Call, max_claim_length: nat)
    requires
        within_bound(ledger, max_claim_length),
        call is CreateClaim ==> call.claim().len() <= max_claim_length,
    ensures
        within_bound(step(ledger, call), max_claim_length),
{
}

} // verus!
