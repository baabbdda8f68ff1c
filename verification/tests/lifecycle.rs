use commitment_vault::{initialize_vault, withdraw, VaultError, VaultLedger};

const A: u64 = 7;
const B: u64 = 8;

#[test]
fn open_then_release_at_boundary() {
    // open(owner=A, lock_duration=3600, amount=1000) at t=0, then release at
    // t=3599 (locked) and t=3600 (inclusive boundary).
    let mut ledger = VaultLedger::new(0);
    ledger.fund_wallet(A, 5000);

    assert_eq!(initialize_vault(&mut ledger, A, 3600, 1000, 0), Ok(()));
    let account = ledger.vault_account(A).expect("record must be resident");
    assert_eq!(account.record.owner, A);
    assert_eq!(account.record.unlock_time, 3600);
    assert_eq!(account.amount, 1000);
    assert_eq!(ledger.wallet_balance(A), 4000);

    assert_eq!(withdraw(&mut ledger, A, 3599), Err(VaultError::VaultLocked));
    let untouched = ledger.vault_account(A).expect("failed release must leave the record");
    assert_eq!(untouched.amount, 1000);
    assert_eq!(ledger.wallet_balance(A), 4000);

    assert_eq!(withdraw(&mut ledger, A, 3600), Ok(()));
    assert_eq!(ledger.wallet_balance(A), 5000);
    assert!(ledger.vault_account(A).is_none());
}

#[test]
fn non_owner_cannot_release() {
    // open(owner=A, amount=1000); release(B) at any time fails and A's locked
    // balance remains 1000.
    let mut ledger = VaultLedger::new(0);
    ledger.fund_wallet(A, 1000);

    assert_eq!(initialize_vault(&mut ledger, A, 60, 1000, 0), Ok(()));
    assert_eq!(withdraw(&mut ledger, B, 0), Err(VaultError::NotFound));
    assert_eq!(withdraw(&mut ledger, B, 1_000_000), Err(VaultError::NotFound));
    let account = ledger.vault_account(A).expect("A's vault must survive B's attempts");
    assert_eq!(account.amount, 1000);
    assert_eq!(ledger.wallet_balance(B), 0);
}

#[test]
fn second_release_not_found() {
    let mut ledger = VaultLedger::new(0);
    ledger.fund_wallet(A, 300);

    assert_eq!(initialize_vault(&mut ledger, A, 10, 300, 0), Ok(()));
    assert_eq!(withdraw(&mut ledger, A, 10), Ok(()));
    assert_eq!(withdraw(&mut ledger, A, 11), Err(VaultError::NotFound));
    assert_eq!(ledger.wallet_balance(A), 300);
}

#[test]
fn reopen_after_release() {
    let mut ledger = VaultLedger::new(0);
    ledger.fund_wallet(A, 800);

    assert_eq!(initialize_vault(&mut ledger, A, 100, 800, 0), Ok(()));
    assert_eq!(withdraw(&mut ledger, A, 100), Ok(()));

    assert_eq!(initialize_vault(&mut ledger, A, 50, 200, 200), Ok(()));
    let fresh = ledger.vault_account(A).expect("re-open must create a fresh record");
    assert_eq!(fresh.record.unlock_time, 250);
    assert_eq!(fresh.amount, 200);
    assert_eq!(ledger.wallet_balance(A), 600);
}

#[test]
fn second_open_already_exists() {
    let mut ledger = VaultLedger::new(0);
    ledger.fund_wallet(A, 1000);

    assert_eq!(initialize_vault(&mut ledger, A, 60, 400, 0), Ok(()));
    assert_eq!(initialize_vault(&mut ledger, A, 60, 100, 1), Err(VaultError::AlreadyExists));
    let account = ledger.vault_account(A).expect("the first record must be untouched");
    assert_eq!(account.amount, 400);
    assert_eq!(ledger.wallet_balance(A), 600);
}

#[test]
fn open_with_insufficient_funds() {
    let mut ledger = VaultLedger::new(0);
    ledger.fund_wallet(A, 999);

    assert_eq!(initialize_vault(&mut ledger, A, 60, 1000, 0), Err(VaultError::InsufficientFunds));
    assert!(ledger.vault_account(A).is_none());
    assert_eq!(ledger.wallet_balance(A), 999);

    // An unfunded account cannot open at all.
    assert_eq!(initialize_vault(&mut ledger, B, 60, 1, 0), Err(VaultError::InsufficientFunds));
}

#[test]
fn open_needs_amount_plus_deposit() {
    // With an allocation deposit of 25, an amount of 1000 needs 1025.
    let mut ledger = VaultLedger::new(25);
    ledger.fund_wallet(A, 1024);

    assert_eq!(ledger.allocation_fee(), 25);
    assert_eq!(initialize_vault(&mut ledger, A, 60, 1000, 0), Err(VaultError::InsufficientFunds));

    ledger.fund_wallet(A, 1);
    assert_eq!(initialize_vault(&mut ledger, A, 60, 1000, 0), Ok(()));
    assert_eq!(ledger.wallet_balance(A), 0);
    let account = ledger.vault_account(A).expect("record must be resident");
    assert_eq!(account.amount, 1000);
    assert_eq!(account.fee, 25);
}

#[test]
fn release_refunds_allocation_deposit() {
    let mut ledger = VaultLedger::new(25);
    ledger.fund_wallet(A, 2000);

    assert_eq!(initialize_vault(&mut ledger, A, 60, 1000, 0), Ok(()));
    assert_eq!(ledger.wallet_balance(A), 975);
    assert_eq!(withdraw(&mut ledger, A, 60), Ok(()));
    assert_eq!(ledger.wallet_balance(A), 2000);
}

#[test]
fn huge_amount_is_insufficient_not_wrapped() {
    // amount + deposit would exceed u64::MAX: the open must fail cleanly.
    let mut ledger = VaultLedger::new(1);
    ledger.fund_wallet(A, u64::MAX - 1);

    assert_eq!(
        initialize_vault(&mut ledger, A, 60, u64::MAX, 0),
        Err(VaultError::InsufficientFunds)
    );
    assert_eq!(ledger.wallet_balance(A), u64::MAX - 1);
}

#[test]
fn zero_lock_duration_releases_at_once() {
    let mut ledger = VaultLedger::new(0);
    ledger.fund_wallet(A, 10);

    assert_eq!(initialize_vault(&mut ledger, A, 0, 10, 500), Ok(()));
    assert_eq!(withdraw(&mut ledger, A, 500), Ok(()));
    assert_eq!(ledger.wallet_balance(A), 10);
}

#[test]
fn vaults_of_distinct_owners_are_independent() {
    let mut ledger = VaultLedger::new(0);
    ledger.fund_wallet(A, 100);
    ledger.fund_wallet(B, 50);

    assert_eq!(initialize_vault(&mut ledger, A, 1000, 100, 0), Ok(()));
    assert_eq!(initialize_vault(&mut ledger, B, 10, 50, 0), Ok(()));

    assert_eq!(withdraw(&mut ledger, B, 10), Ok(()));
    assert_eq!(ledger.wallet_balance(B), 50);
    let a_account = ledger.vault_account(A).expect("A's vault must be untouched");
    assert_eq!(a_account.amount, 100);
    assert_eq!(withdraw(&mut ledger, A, 999), Err(VaultError::VaultLocked));
    assert_eq!(withdraw(&mut ledger, A, 1000), Ok(()));
    assert_eq!(ledger.wallet_balance(A), 100);
}

#[test]
fn fund_wallet_accumulates() {
    let mut ledger = VaultLedger::new(0);
    ledger.fund_wallet(A, 10);
    ledger.fund_wallet(A, 32);
    assert_eq!(ledger.wallet_balance(A), 42);
    assert_eq!(ledger.wallet_balance(B), 0);
}
