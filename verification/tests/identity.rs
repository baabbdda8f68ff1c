use commitment_vault::identity::{derive_vault_identity, verify_identity_proof};
use commitment_vault::{Vault, VaultError};

#[test]
fn derivation_is_deterministic() {
    let first = derive_vault_identity(7).expect("an identity must be derivable");
    let second = derive_vault_identity(7).expect("an identity must be derivable");
    assert_eq!(first.location, second.location);
    assert_eq!(first.proof, second.proof);
    assert_eq!(first.location.len(), 32);
}

#[test]
fn distinct_owners_derive_distinct_locations() {
    let a = derive_vault_identity(7).expect("an identity must be derivable");
    let b = derive_vault_identity(8).expect("an identity must be derivable");
    assert_ne!(a.location, b.location);
}

#[test]
fn proof_verification_matches_derivation() {
    let id = derive_vault_identity(7).expect("an identity must be derivable");
    assert!(verify_identity_proof(7, id.proof));
    assert!(!verify_identity_proof(7, id.proof.wrapping_add(1)));
}

#[test]
fn record_carries_unlock_time_and_proof() {
    let id = derive_vault_identity(3).expect("an identity must be derivable");
    let record = Vault::new(3, 100, 3500, id.proof);
    assert_eq!(record.owner, 3);
    assert_eq!(record.unlock_time, 3600);
    assert_eq!(record.bump, id.proof);
}

#[test]
fn release_check_gates_time_then_owner() {
    let record = Vault { owner: 3, unlock_time: 3600, bump: 0 };
    assert_eq!(record.check_release(3, 3599), Err(VaultError::VaultLocked));
    assert_eq!(record.check_release(3, 3600), Ok(()));
    assert_eq!(record.check_release(3, 4000), Ok(()));
    // The wrong caller is turned away even after the unlock instant.
    assert_eq!(record.check_release(4, 4000), Err(VaultError::Unauthorized));
    // Before the unlock instant the time gate answers first.
    assert_eq!(record.check_release(4, 10), Err(VaultError::VaultLocked));
}
