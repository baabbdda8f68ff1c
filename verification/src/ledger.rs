//! The custody ledger: vault records, their balances, and the two lifecycle
//! operations, `initialize_vault` (open) and `withdraw` (release).
//!
//! The ledger models the slice of the execution environment the vault policy
//! acts on: each account's free balance, and for each owner at most one vault
//! record together with the balance it holds in custody. Both operations are
//! all-or-nothing: an error leaves the ledger exactly as it was.

use std::collections::HashMap;

use vstd::prelude::*;

use crate::identity::{derived_proof, find_vault_address, identity_exists, verify_identity_proof};
use crate::vault::{Vault, VaultError};

verus! {

broadcast use vstd::std_specs::hash::group_hash_axioms;

/// One resident vault: the write-once record, the custody balance (exactly
/// the amount transferred in at creation), and the allocation deposit the
/// environment charged for the record's storage, refunded when the record
/// is destroyed.
#[derive(Clone, Copy, PartialEq, Eq, Structural, Debug)]
pub struct VaultAccount {
    /// The persisted record.
    pub record: Vault,
    /// The custody balance: the amount locked at creation, untouchable until
    /// release, then paid out whole.
    pub amount: u64,
    /// The allocation deposit paid by the depositor at creation and returned
    /// to them when the record is destroyed.
    pub fee: u64,
}

/// The mathematical state of a [`VaultLedger`]: at most one vault per owner,
/// a free balance per account, and the environment's allocation cost.
#[verifier::ext_equal]
pub struct LedgerView {
    /// The resident vaults, at their derived identity (one per owner).
    pub vaults: Map<u64, VaultAccount>,
    /// Each account's free balance. An absent account has balance zero.
    pub wallets: Map<u64, u64>,
    /// The allocation deposit the environment charges for one record.
    pub alloc_fee: u64,
}

/// The custody environment: all resident vault records with their balances,
/// and every account's free balance.
pub struct VaultLedger {
    vaults: HashMap<u64, VaultAccount>,
    wallets: HashMap<u64, u64>,
    alloc_fee: u64,
}

impl View for VaultLedger {
    type V = LedgerView;

    closed spec fn view(&self) -> LedgerView {
        LedgerView { vaults: self.vaults@, wallets: self.wallets@, alloc_fee: self.alloc_fee }
    }
}

impl LedgerView {
    /// The free balance of `who`: zero for an account the ledger has not seen.
    pub open spec fn wallet_of(self, who: u64) -> u64 {
        if self.wallets.contains_key(who) {
            self.wallets[who]
        } else {
            0
        }
    }

    /// Every resident vault sits at its owner's identity, and its recorded
    /// derivation proof is the one that identity re-derives to. Established
    /// at creation and never disturbed, this is what makes the re-derivation
    /// check of release pass for every genuine record.
    pub open spec fn wf(self) -> bool {
        forall|o: u64|
            #[trigger] self.vaults.contains_key(o) ==> {
                &&& self.vaults[o].record.owner == o
                &&& identity_exists(o)
                &&& self.vaults[o].record.bump == derived_proof(o)
            }
    }
}

/// Whether `initialize_vault` is owed success: no record resident for the
/// caller, an identity derivable for them, and a free balance covering the
/// amount plus the allocation deposit.
pub open spec fn open_permitted(pre: LedgerView, caller: u64, amount: u64) -> bool {
    &&& !pre.vaults.contains_key(caller)
    &&& identity_exists(caller)
    &&& amount + pre.alloc_fee <= pre.wallet_of(caller)
}

/// The open transition (`initialize_vault`): the ledger after the call and
/// the call's result. On success the caller's balance drops by the amount
/// plus the allocation deposit, and a fresh record holds both; every error
/// leaves the ledger unchanged.
pub open spec fn open_step(
    pre: LedgerView,
    caller: u64,
    lock_duration: i64,
    amount: u64,
    now: i64,
) -> (LedgerView, Result<(), VaultError>) {
    if pre.vaults.contains_key(caller) {
        (pre, Err(VaultError::AlreadyExists))
    } else if !identity_exists(caller) {
        (pre, Err(VaultError::Unauthorized))
    } else if pre.wallet_of(caller) < amount + pre.alloc_fee {
        (pre, Err(VaultError::InsufficientFunds))
    } else {
        let account = VaultAccount {
            record: Vault {
                owner: caller,
                unlock_time: (now + lock_duration) as i64,
                bump: derived_proof(caller),
            },
            amount,
            fee: pre.alloc_fee,
        };
        let post = LedgerView {
            vaults: pre.vaults.insert(caller, account),
            wallets: pre.wallets.insert(
                caller,
                (pre.wallet_of(caller) - amount - pre.alloc_fee) as u64,
            ),
            alloc_fee: pre.alloc_fee,
        };
        (post, Ok(()))
    }
}

/// Whether `withdraw` is owed success: a record resident for the caller
/// whose stored proof re-derives, its unlock instant reached (the instant
/// itself included), and the caller being the recorded owner.
pub open spec fn release_permitted(pre: LedgerView, caller: u64, now: i64) -> bool {
    &&& pre.vaults.contains_key(caller)
    &&& identity_exists(caller)
    &&& pre.vaults[caller].record.bump == derived_proof(caller)
    &&& pre.vaults[caller].record.unlock_time <= now
    &&& pre.vaults[caller].record.owner == caller
}

/// The release transition (`withdraw`): the ledger after the call and the
/// call's result. The gates, in order: a resident record whose derivation
/// proof re-derives (else `NotFound`), the unlock instant reached (else
/// `VaultLocked`), the caller being the recorded owner (else
/// `Unauthorized`). On success the record's whole custody balance and its
/// allocation deposit go back to the caller and the record is destroyed,
/// as one indivisible step; every error leaves the ledger unchanged.
pub open spec fn release_step(pre: LedgerView, caller: u64, now: i64) -> (
    LedgerView,
    Result<(), VaultError>,
) {
    if !pre.vaults.contains_key(caller) {
        (pre, Err(VaultError::NotFound))
    } else {
        let account = pre.vaults[caller];
        if !(identity_exists(caller) && account.record.bump == derived_proof(caller)) {
            (pre, Err(VaultError::NotFound))
        } else {
            match account.record.release_check(caller, now) {
                Err(e) => (pre, Err(e)),
                Ok(()) => {
                    let post = LedgerView {
                        vaults: pre.vaults.remove(caller),
                        wallets: pre.wallets.insert(
                            caller,
                            (pre.wallet_of(caller) + account.amount + account.fee) as u64,
                        ),
                        alloc_fee: pre.alloc_fee,
                    };
                    (post, Ok(()))
                },
            }
        }
    }
}

impl VaultLedger {
    /// An empty ledger for an environment that charges `alloc_fee` for the
    /// storage of one record.
    pub fn new(alloc_fee: u64) -> (l: VaultLedger)
        ensures
            l@ == (LedgerView {
                vaults: Map::<u64, VaultAccount>::empty(),
                wallets: Map::<u64, u64>::empty(),
                alloc_fee,
            }),
            l@.wf(),
    {
        VaultLedger { vaults: HashMap::new(), wallets: HashMap::new(), alloc_fee }
    }

    /// Credit `amount` to `who`'s free balance (the environment funding an
    /// account; no vault is touched).
    pub fn fund_wallet(&mut self, who: u64, amount: u64)
        requires
            old(self)@.wallet_of(who) + amount <= u64::MAX,
        ensures
            final(self)@.vaults == old(self)@.vaults,
            final(self)@.alloc_fee == old(self)@.alloc_fee,
            final(self)@.wallets == old(self)@.wallets.insert(
                who,
                (old(self)@.wallet_of(who) + amount) as u64,
            ),
            final(self)@.wallet_of(who) == old(self)@.wallet_of(who) + amount,
            old(self)@.wf() ==> final(self)@.wf(),
    {
        let balance = match self.wallets.get(&who) {
            None => 0u64,
            Some(b) => *b,
        };
        self.wallets.insert(who, balance + amount);
        proof {
            if old(self)@.wf() {
                assert forall|o: u64| #[trigger] self@.vaults.contains_key(o) implies {
                    &&& self@.vaults[o].record.owner == o
                    &&& identity_exists(o)
                    &&& self@.vaults[o].record.bump == derived_proof(o)
                } by {
                    assert(old(self)@.vaults.contains_key(o));
                }
            }
        }
    }

    /// The free balance of `who`.
    pub fn wallet_balance(&self, who: u64) -> (r: u64)
        ensures
            r == self@.wallet_of(who),
    {
        match self.wallets.get(&who) {
            None => 0u64,
            Some(b) => *b,
        }
    }

    /// The vault resident for `owner`, if any.
    pub fn vault_account(&self, owner: u64) -> (r: Option<VaultAccount>)
        ensures
            r == (if self@.vaults.contains_key(owner) {
                Some(self@.vaults[owner])
            } else {
                None::<VaultAccount>
            }),
    {
        match self.vaults.get(&owner) {
            None => None,
            Some(a) => Some(*a),
        }
    }

    /// The allocation deposit the environment charges for one record.
    pub fn allocation_fee(&self) -> (r: u64)
        ensures
            r == self@.alloc_fee,
    {
        self.alloc_fee
    }
}

/// Open a vault: derive the caller's identity, create the record with
/// `unlock_time = now + lock_duration`, and move `amount` plus the
/// allocation deposit out of the caller's balance into the record's custody,
/// atomically — or fail and change nothing.
pub fn initialize_vault(
    ledger: &mut VaultLedger,
    caller: u64,
    lock_duration: i64,
    amount: u64,
    now: i64,
) -> (r: Result<(), VaultError>)
    requires
        old(ledger)@.wf(),
        0 <= lock_duration,
        0 < amount,
        now + lock_duration <= i64::MAX,
    ensures
        final(ledger)@.wf(),
        final(ledger)@ == open_step(old(ledger)@, caller, lock_duration, amount, now).0,
        r == open_step(old(ledger)@, caller, lock_duration, amount, now).1,
        r is Ok <==> open_permitted(old(ledger)@, caller, amount),
        r is Err ==> final(ledger)@ == old(ledger)@,
{
    if ledger.vaults.contains_key(&caller) {
        return Err(VaultError::AlreadyExists);
    }
    let bump = match find_vault_address(caller) {
        None => {
            return Err(VaultError::Unauthorized);
        },
        Some((_, bump)) => bump,
    };
    let fee = ledger.alloc_fee;
    let balance = match ledger.wallets.get(&caller) {
        None => 0u64,
        Some(b) => *b,
    };
    if amount > u64::MAX - fee {
        return Err(VaultError::InsufficientFunds);
    }
    let needed = amount + fee;
    if balance < needed {
        return Err(VaultError::InsufficientFunds);
    }
    let record = Vault::new(caller, now, lock_duration, bump);
    ledger.vaults.insert(caller, VaultAccount { record, amount, fee });
    ledger.wallets.insert(caller, balance - needed);
    Ok(())
}

/// Release a vault: locate the caller's record, re-check its derivation
/// proof, gate on time and ownership, then pay the whole custody balance and
/// the allocation deposit back to the caller and destroy the record,
/// atomically — or fail and change nothing.
pub fn withdraw(ledger: &mut VaultLedger, caller: u64, now: i64) -> (r: Result<(), VaultError>)
    requires
        old(ledger)@.wf(),
        old(ledger)@.vaults.contains_key(caller) ==> old(ledger)@.wallet_of(caller) + old(
            ledger,
        )@.vaults[caller].amount + old(ledger)@.vaults[caller].fee <= u64::MAX,
    ensures
        final(ledger)@.wf(),
        final(ledger)@ == release_step(old(ledger)@, caller, now).0,
        r == release_step(old(ledger)@, caller, now).1,
        r is Ok <==> release_permitted(old(ledger)@, caller, now),
        r is Err ==> final(ledger)@ == old(ledger)@,
{
    let account = match ledger.vaults.get(&caller) {
        None => {
            return Err(VaultError::NotFound);
        },
        Some(a) => *a,
    };
    if !verify_identity_proof(caller, account.record.bump) {
        return Err(VaultError::NotFound);
    }
    match account.record.check_release(caller, now) {
        Err(e) => {
            return Err(e);
        },
        Ok(()) => {},
    }
    let balance = match ledger.wallets.get(&caller) {
        None => 0u64,
        Some(b) => *b,
    };
    let payout = account.amount + account.fee;
    ledger.wallets.insert(caller, balance + payout);
    ledger.vaults.remove(&caller);
    Ok(())
}

} // verus!
