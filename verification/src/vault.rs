//! The vault record and the per-record release policy.

use vstd::prelude::*;

verus! {

/// One locked custody position. Every field is written once, at creation,
/// and never modified afterwards: there is no update operation by design.
#[derive(Clone, Copy, PartialEq, Eq, Structural, Debug)]
pub struct Vault {
    /// Identity of the depositor; only this party may ever release.
    pub owner: u64,
    /// Absolute instant (seconds since epoch) before which release fails.
    pub unlock_time: i64,
    /// Derivation proof recorded at creation, so that every later access can
    /// re-derive the expected storage identity and reject a substituted record.
    pub bump: u8,
}

/// Every way an `initialize_vault` or `withdraw` invocation can fail. All
/// errors are terminal for the invocation: no partial state is committed.
#[derive(Clone, Copy, PartialEq, Eq, Structural, Debug)]
pub enum VaultError {
    /// `initialize_vault` found a record already resident for this identity.
    AlreadyExists,
    /// `withdraw` came before the record's unlock instant.
    VaultLocked,
    /// The caller is not the party the operation is reserved to.
    Unauthorized,
    /// `withdraw` found no valid record: never created, already released,
    /// or failing the derivation-proof check.
    NotFound,
    /// The caller's balance cannot fund the deposit.
    InsufficientFunds,
}

impl Vault {
    /// The time and ownership gate of release: locked until `unlock_time`
    /// (inclusive boundary: the unlock instant itself succeeds), and reserved
    /// to the recorded owner. A hard gate with no override or bypass.
    pub open spec fn release_check(self, caller: u64, now: i64) -> Result<(), VaultError> {
        if now < self.unlock_time {
            Err(VaultError::VaultLocked)
        } else if self.owner != caller {
            Err(VaultError::Unauthorized)
        } else {
            Ok(())
        }
    }

    /// Create the record for a vault opened by `owner` at `current_time`,
    /// to stay locked for `lock_duration` seconds.
    pub fn new(owner: u64, current_time: i64, lock_duration: i64, bump: u8) -> (v: Vault)
        requires
            0 <= lock_duration,
            current_time + lock_duration <= i64::MAX,
        ensures
            v == (Vault { owner, unlock_time: (current_time + lock_duration) as i64, bump }),
    {
        Vault { owner, unlock_time: current_time + lock_duration, bump }
    }

    /// Decide whether `caller` may release this record at instant `now`.
    pub fn check_release(&self, caller: u64, now: i64) -> (r: Result<(), VaultError>)
        ensures
            r == self.release_check(caller, now),
    {
        if now < self.unlock_time {
            Err(VaultError::VaultLocked)
        } else if self.owner != caller {
            Err(VaultError::Unauthorized)
        } else {
            Ok(())
        }
    }
}

} // verus!
