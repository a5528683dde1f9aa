//! The life cycle of a single claim.
//!
//! For one fingerprint the registry holds no record, an active record or a
//! revoked record. Each operation looks at what is stored and either refuses,
//! or says which record is stored from now on. The rules are stated once as
//! spec functions over record values, and once as executable functions that
//! are proved to follow them.

use vstd::prelude::*;
use crate::record::{AccountId, BlockNumber, ClaimRecord, ClaimRecordView, Error};

verus! {

/// Creating a claim: refused where a record exists, active or not. Otherwise
/// the new record belongs to `who`, is stamped `now` and is active.
pub open spec fn create_rule(
    existing: Option<ClaimRecordView>,
    who: Seq<u8>,
    now: BlockNumber,
) -> Result<ClaimRecordView, Error> {
    match existing {
        Some(_) => Err(Error::ProofAlreadyExists),
        None => Ok(ClaimRecordView { owner: who, registered_at: now, active: true }),
    }
}

/// Revoking a claim: the record must exist, belong to `who` and be active,
/// and the first of these that fails names the error. The revoked record keeps
/// its owner, is stamped `now` and is inactive.
pub open spec fn revoke_rule(
    existing: Option<ClaimRecordView>,
    who: Seq<u8>,
    now: BlockNumber,
) -> Result<ClaimRecordView, Error> {
    match existing {
        None => Err(Error::ProofNotExist),
        Some(record) => if record.owner != who {
            Err(Error::NotProofOwner)
        } else if !record.active {
            Err(Error::ProofAlreadyRevoked)
        } else {
            Ok(ClaimRecordView { owner: record.owner, registered_at: now, active: false })
        },
    }
}

/// Transferring a claim: the record must exist and belong to `who`, and
/// `new_owner` must be another actor; the first of these that fails names the
/// error. Whether the record is active is not asked. The new record belongs to
/// `new_owner`, keeps its stamp and is active, also where it was revoked.
pub open spec fn transfer_rule(
    existing: Option<ClaimRecordView>,
    who: Seq<u8>,
    new_owner: Seq<u8>,
) -> Result<ClaimRecordView, Error> {
    match existing {
        None => Err(Error::ProofNotExist),
        Some(record) => if record.owner != who {
            Err(Error::NotProofOwner)
        } else if who == new_owner {
            Err(Error::CannotTransferToSelf)
        } else {
            Ok(
                ClaimRecordView {
                    owner: new_owner,
                    registered_at: record.registered_at,
                    active: true,
                },
            )
        },
    }
}

/// The value of a record that may be missing.
pub open spec fn stored_view(existing: Option<&ClaimRecord>) -> Option<ClaimRecordView> {
    match existing {
        Some(record) => Some(record@),
        None => None,
    }
}

/// The value of what a rule decided.
pub open spec fn decision_view(decision: Result<ClaimRecord, Error>) -> Result<
    ClaimRecordView,
    Error,
> {
    match decision {
        Ok(record) => Ok(record@),
        Err(error) => Err(error),
    }
}

/// Whether two byte strings hold the same bytes.
pub(crate) fn same_bytes(a: &Vec<u8>, b: &Vec<u8>) -> (same: bool)
    ensures
        same == (a@ == b@),
{
    let same = *a == *b;
    proof {
        if same {
            assert(a@ =~= b@);
        }
    }
    same
}

/// Decides a request of `who` to claim a fingerprint for which `existing` is
/// stored, at the time `now`.
pub fn create(existing: Option<&ClaimRecord>, who: &AccountId, now: BlockNumber) -> (decision:
    Result<ClaimRecord, Error>)
    ensures
        decision_view(decision) == create_rule(stored_view(existing), who@, now),
{
    match existing {
        Some(_) => Err(Error::ProofAlreadyExists),
        None => Ok(ClaimRecord { owner: who.clone(), registered_at: now, active: true }),
    }
}

/// Decides a request of `who` to revoke the claim for which `existing` is
/// stored, at the time `now`.
pub fn revoke(existing: Option<&ClaimRecord>, who: &AccountId, now: BlockNumber) -> (decision:
    Result<ClaimRecord, Error>)
    ensures
        decision_view(decision) == revoke_rule(stored_view(existing), who@, now),
{
    match existing {
        None => Err(Error::ProofNotExist),
        Some(record) => {
            if !same_bytes(&record.owner, who) {
                Err(Error::NotProofOwner)
            } else if !record.active {
                Err(Error::ProofAlreadyRevoked)
            } else {
                Ok(ClaimRecord { owner: record.owner.clone(), registered_at: now, active: false })
            }
        },
    }
}

/// Decides a request of `who` to hand the claim for which `existing` is
/// stored to `new_owner`.
pub fn transfer(
    existing: Option<&ClaimRecord>,
    who: &AccountId,
    new_owner: &AccountId,
) -> (decision: Result<ClaimRecord, Error>)
    ensures
        decision_view(decision) == transfer_rule(stored_view(existing), who@, new_owner@),
{
    match existing {
        None => Err(Error::ProofNotExist),
        Some(record) => {
            if !same_bytes(&record.owner, who) {
                Err(Error::NotProofOwner)
            } else if same_bytes(who, new_owner) {
                Err(Error::CannotTransferToSelf)
            } else {
                Ok(
                    ClaimRecord {
                        owner: new_owner.clone(),
                        registered_at: record.registered_at,
                        active: true,
                    },
                )
            }
        },
    }
}

} // verus!
