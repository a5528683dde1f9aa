//! Claim records, the events that the registry reports and the errors with
//! which it refuses an operation.

use vstd::prelude::*;

verus! {

/// The identity of an actor: an opaque byte string. Two identities are the
/// same actor exactly when they hold the same bytes.
pub type AccountId = Vec<u8>;

/// A point of logical time. The registry stores it and hands it back, and
/// never computes with it.
pub type BlockNumber = u64;

/// What the registry stores for a fingerprint.
#[derive(Debug, PartialEq, Eq)]
pub struct ClaimRecord {
    /// The actor who may revoke or transfer the claim.
    pub owner: AccountId,
    /// When the claim was created or, if it was revoked since, when it was
    /// revoked. A transfer leaves it as it is.
    pub registered_at: BlockNumber,
    /// `false` once the claim is revoked.
    pub active: bool,
}

/// The mathematical value of a [`ClaimRecord`].
pub struct ClaimRecordView {
    pub owner: Seq<u8>,
    pub registered_at: BlockNumber,
    pub active: bool,
}

impl View for ClaimRecord {
    type V = ClaimRecordView;

    open spec fn view(&self) -> ClaimRecordView {
        ClaimRecordView {
            owner: self.owner@,
            registered_at: self.registered_at,
            active: self.active,
        }
    }
}

impl Clone for ClaimRecord {
    fn clone(&self) -> (copy: Self)
        ensures
            copy@ == self@,
    {
        ClaimRecord {
            owner: self.owner.clone(),
            registered_at: self.registered_at,
            active: self.active,
        }
    }
}

/// Why the registry refused an operation. Every refusal leaves the registry
/// as it was.
#[derive(Clone, Copy, Debug, PartialEq, Eq, Structural)]
pub enum Error {
    /// A claim on this fingerprint was created before, whether or not it is
    /// still active.
    ProofAlreadyExists,
    /// No claim on this fingerprint was ever created.
    ProofNotExist,
    /// The requester does not own the claim.
    NotProofOwner,
    /// The claim is revoked already.
    ProofAlreadyRevoked,
    /// The requester named itself as the new owner.
    CannotTransferToSelf,
}

/// What the registry reports of an operation that it carried out.
#[derive(Debug, PartialEq, Eq)]
pub enum Event {
    /// `owner` registered a claim on the fingerprint `claim`.
    ClaimCreated { owner: AccountId, claim: Vec<u8> },
    /// `owner` revoked its claim on the fingerprint `claim`.
    ClaimRevoked { owner: AccountId, claim: Vec<u8> },
    /// `old_owner` handed its claim on the fingerprint `claim` to `new_owner`.
    ClaimTransferred { old_owner: AccountId, new_owner: AccountId, claim: Vec<u8> },
}

/// The mathematical value of an [`Event`].
pub enum EventView {
    ClaimCreated { owner: Seq<u8>, claim: Seq<u8> },
    ClaimRevoked { owner: Seq<u8>, claim: Seq<u8> },
    ClaimTransferred { old_owner: Seq<u8>, new_owner: Seq<u8>, claim: Seq<u8> },
}

impl View for Event {
    type V = EventView;

    open spec fn view(&self) -> EventView {
        match *self {
            Event::ClaimCreated { owner, claim } => EventView::ClaimCreated {
                owner: owner@,
                claim: claim@,
            },
            Event::ClaimRevoked { owner, claim } => EventView::ClaimRevoked {
                owner: owner@,
                claim: claim@,
            },
            Event::ClaimTransferred { old_owner, new_owner, claim } => EventView::ClaimTransferred {
                old_owner: old_owner@,
                new_owner: new_owner@,
                claim: claim@,
            },
        }
    }
}

impl Clone for Event {
    fn clone(&self) -> (copy: Self)
        ensures
            copy@ == self@,
    {
        match self {
            Event::ClaimCreated { owner, claim } => Event::ClaimCreated {
                owner: owner.clone(),
                claim: claim.clone(),
            },
            Event::ClaimRevoked { owner, claim } => Event::ClaimRevoked {
                owner: owner.clone(),
                claim: claim.clone(),
            },
            Event::ClaimTransferred { old_owner, new_owner, claim } => Event::ClaimTransferred {
                old_owner: old_owner.clone(),
                new_owner: new_owner.clone(),
                claim: claim.clone(),
            },
        }
    }
}

/// The value of what an operation of the registry returned.
pub open spec fn outcome_view(outcome: Result<Event, Error>) -> Result<EventView, Error> {
    match outcome {
        Ok(event) => Ok(event@),
        Err(error) => Err(error),
    }
}

} // verus!
