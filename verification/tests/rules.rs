use pallet_poe::rules::{create, revoke, transfer};
use pallet_poe::{ClaimRecord, Error};

fn alice() -> Vec<u8> {
    b"Alice".to_vec()
}

fn bob() -> Vec<u8> {
    b"Bob".to_vec()
}

fn active(owner: Vec<u8>, at: u64) -> ClaimRecord {
    ClaimRecord { owner, registered_at: at, active: true }
}

fn revoked(owner: Vec<u8>, at: u64) -> ClaimRecord {
    ClaimRecord { owner, registered_at: at, active: false }
}

#[test]
fn create_on_no_record_gives_an_active_record() {
    assert_eq!(create(None, &alice(), 12), Ok(active(alice(), 12)));
    assert_eq!(create(None, &Vec::new(), 0), Ok(active(Vec::new(), 0)));
    assert_eq!(create(None, &bob(), u64::MAX), Ok(active(bob(), u64::MAX)));
}

#[test]
fn create_on_any_record_is_refused() {
    assert_eq!(create(Some(&active(alice(), 1)), &alice(), 2), Err(Error::ProofAlreadyExists));
    assert_eq!(create(Some(&active(alice(), 1)), &bob(), 2), Err(Error::ProofAlreadyExists));
    assert_eq!(create(Some(&revoked(alice(), 1)), &alice(), 2), Err(Error::ProofAlreadyExists));
    assert_eq!(create(Some(&revoked(alice(), 1)), &bob(), 2), Err(Error::ProofAlreadyExists));
}

#[test]
fn revoke_checks_existence_then_owner_then_activity() {
    assert_eq!(revoke(None, &alice(), 2), Err(Error::ProofNotExist));
    assert_eq!(revoke(Some(&active(alice(), 1)), &bob(), 2), Err(Error::NotProofOwner));
    assert_eq!(revoke(Some(&revoked(alice(), 1)), &bob(), 2), Err(Error::NotProofOwner));
    assert_eq!(revoke(Some(&revoked(alice(), 1)), &alice(), 2), Err(Error::ProofAlreadyRevoked));
}

#[test]
fn revoke_by_the_owner_gives_an_inactive_record_with_a_new_stamp() {
    assert_eq!(revoke(Some(&active(alice(), 1)), &alice(), 2), Ok(revoked(alice(), 2)));
    assert_eq!(revoke(Some(&active(bob(), 9)), &bob(), 3), Ok(revoked(bob(), 3)));
}

#[test]
fn transfer_checks_existence_then_owner_then_new_owner() {
    assert_eq!(transfer(None, &alice(), &bob()), Err(Error::ProofNotExist));
    assert_eq!(transfer(None, &alice(), &alice()), Err(Error::ProofNotExist));
    assert_eq!(transfer(Some(&active(alice(), 1)), &bob(), &bob()), Err(Error::NotProofOwner));
    assert_eq!(transfer(Some(&active(alice(), 1)), &bob(), &alice()), Err(Error::NotProofOwner));
    assert_eq!(
        transfer(Some(&active(alice(), 1)), &alice(), &alice()),
        Err(Error::CannotTransferToSelf)
    );
    assert_eq!(
        transfer(Some(&revoked(alice(), 1)), &alice(), &alice()),
        Err(Error::CannotTransferToSelf)
    );
}

#[test]
fn transfer_by_the_owner_gives_an_active_record_with_the_old_stamp() {
    assert_eq!(transfer(Some(&active(alice(), 5)), &alice(), &bob()), Ok(active(bob(), 5)));
    assert_eq!(transfer(Some(&revoked(alice(), 6)), &alice(), &bob()), Ok(active(bob(), 6)));
}

#[test]
fn rules_leave_the_stored_record_alone() {
    let stored = active(alice(), 1);
    let _ = revoke(Some(&stored), &alice(), 2);
    let _ = transfer(Some(&stored), &alice(), &bob());
    let _ = create(Some(&stored), &bob(), 3);
    assert_eq!(stored, active(alice(), 1));
}
