//! A time-locked custody vault.
//!
//! A depositor opens a vault that holds a native-currency balance at a
//! storage location derived from the depositor's identity. The balance is
//! inaccessible to everyone, the depositor included, until a caller-chosen
//! unlock instant has passed; after that instant only the depositor may
//! release it, which pays out the whole balance and retires the record.
//!
//! The crate is organised as follows:
//! - [`vault`] holds the persisted record, the error taxonomy, and the
//!   per-record release policy;
//! - [`identity`] derives a vault's storage identity from its owner;
//! - [`ledger`] models the custody environment (records and balances) and
//!   carries the two lifecycle operations, `initialize_vault` and `withdraw`;
//! - [`laws`] proves the lifecycle guarantees: no early release, owner
//!   exclusivity, balance conservation, and the rest.

pub mod identity;
pub mod laws;
pub mod ledger;
pub mod vault;

pub use ledger::{initialize_vault, withdraw, VaultAccount, VaultLedger};
pub use vault::{Vault, VaultError};
