//! The lifecycle guarantees, proved once and for all over the ledger
//! transitions that `initialize_vault` and `withdraw` are pinned to.

use vstd::prelude::*;

use crate::ledger::{open_step, release_step, LedgerView};
use crate::vault::{Vault, VaultError};

verus! {

/// No early release: once a vault is opened at `t_open` with a positive lock
/// duration, a release attempted by its owner at any instant before
/// `t_open + lock_duration` fails with `VaultLocked` and leaves the ledger —
/// record and balances — exactly as it was.
pub proof fn lemma_no_early_release(
    pre: LedgerView,
    caller: u64,
    lock_duration: i64,
    amount: u64,
    t_open: i64,
    t_release: i64,
)
    requires
        0 < lock_duration,
        t_open + lock_duration <= i64::MAX,
        open_step(pre, caller, lock_duration, amount, t_open).1 is Ok,
        t_release < t_open + lock_duration,
    ensures
        ({
            let mid = open_step(pre, caller, lock_duration, amount, t_open).0;
            release_step(mid, caller, t_release) == (
                mid,
                Err::<(), VaultError>(VaultError::VaultLocked),
            )
        }),
{
}

/// Exact-instant boundary: a release by the owner at exactly the unlock
/// instant `t_open + lock_duration` succeeds — the boundary is inclusive.
pub proof fn lemma_release_at_boundary(
    pre: LedgerView,
    caller: u64,
    lock_duration: i64,
    amount: u64,
    t_open: i64,
)
    requires
        0 <= lock_duration,
        t_open + lock_duration <= i64::MAX,
        open_step(pre, caller, lock_duration, amount, t_open).1 is Ok,
    ensures
        ({
            let mid = open_step(pre, caller, lock_duration, amount, t_open).0;
            release_step(mid, caller, (t_open + lock_duration) as i64).1 == Ok::<(), VaultError>(())
        }),
{
}

/// Owner exclusivity: a release attempted by anyone other than `owner` never
/// touches `owner`'s vault — record, custody balance and deposit stay
/// exactly as they were, and so does `owner`'s free balance. When the
/// intruder has no vault of their own, the call fails with `NotFound` and
/// changes nothing at all.
pub proof fn lemma_owner_exclusivity(pre: LedgerView, owner: u64, intruder: u64, now: i64)
    requires
        intruder != owner,
        pre.vaults.contains_key(owner),
    ensures
        ({
            let (post, r) = release_step(pre, intruder, now);
            &&& post.vaults.contains_key(owner)
            &&& post.vaults[owner] == pre.vaults[owner]
            &&& post.wallet_of(owner) == pre.wallet_of(owner)
            &&& !pre.vaults.contains_key(intruder) ==> (post, r) == (
                pre,
                Err::<(), VaultError>(VaultError::NotFound),
            )
        }),
{
}

/// Idempotent non-existence: after a successful release, a second release
/// for the same identity fails with `NotFound` and changes nothing, at any
/// later (or earlier) instant.
pub proof fn lemma_second_release_not_found(pre: LedgerView, caller: u64, t1: i64, t2: i64)
    requires
        release_step(pre, caller, t1).1 is Ok,
    ensures
        ({
            let mid = release_step(pre, caller, t1).0;
            release_step(mid, caller, t2) == (mid, Err::<(), VaultError>(VaultError::NotFound))
        }),
{
}

/// Balance conservation: an open followed by an eligible release is a
/// round trip. The release succeeds, every account's free balance — the
/// depositor's included, the allocation deposit refunded — is back to what
/// it was before the open, and the vault map is back to what it was. No
/// value is created or destroyed.
pub proof fn lemma_balance_conservation(
    pre: LedgerView,
    caller: u64,
    lock_duration: i64,
    amount: u64,
    t_open: i64,
    t_release: i64,
)
    requires
        0 <= lock_duration,
        t_open + lock_duration <= i64::MAX,
        open_step(pre, caller, lock_duration, amount, t_open).1 is Ok,
        t_open + lock_duration <= t_release,
    ensures
        ({
            let mid = open_step(pre, caller, lock_duration, amount, t_open).0;
            let (post, r) = release_step(mid, caller, t_release);
            &&& r is Ok
            &&& forall|w: u64| #[trigger] post.wallet_of(w) == pre.wallet_of(w)
            &&& post.vaults == pre.vaults
            &&& post.alloc_fee == pre.alloc_fee
        }),
{
    let mid = open_step(pre, caller, lock_duration, amount, t_open).0;
    let (post, r) = release_step(mid, caller, t_release);
    assert(post.vaults =~= pre.vaults);
    assert forall|w: u64| #[trigger] post.wallet_of(w) == pre.wallet_of(w) by {
        if w != caller {
            assert(post.wallet_of(w) == pre.wallet_of(w));
        }
    }
}

/// Re-open after release: once a vault is released, an open for the same
/// owner succeeds again — provided the freed balance covers the new deposit
/// — and produces a fresh, independent record with the new unlock time and
/// the new amount in custody.
pub proof fn lemma_reopen_after_release(
    pre: LedgerView,
    caller: u64,
    t1: i64,
    lock_duration: i64,
    amount: u64,
    t2: i64,
)
    requires
        release_step(pre, caller, t1).1 is Ok,
        amount + pre.alloc_fee <= release_step(pre, caller, t1).0.wallet_of(caller),
    ensures
        ({
            let mid = release_step(pre, caller, t1).0;
            let (post, r) = open_step(mid, caller, lock_duration, amount, t2);
            &&& r is Ok
            &&& post.vaults.contains_key(caller)
            &&& post.vaults[caller].record == (Vault {
                owner: caller,
                unlock_time: (t2 + lock_duration) as i64,
                bump: pre.vaults[caller].record.bump,
            })
            &&& post.vaults[caller].amount == amount
            &&& post.vaults[caller].fee == pre.alloc_fee
        }),
{
}

} // verus!
