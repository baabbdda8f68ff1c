//! Deterministic derivation of a vault's storage identity.
//!
//! A vault lives at a storage location derived from its owner's identity and
//! a fixed seed label. The derivation also yields a small proof value (the
//! bump seed) that is recorded in the vault record, so that every later
//! access can re-derive the expected identity and reject a record that does
//! not correspond to its claimed owner.

use vstd::prelude::*;

verus! {

/// The derived storage identity of one owner's vault: the location the
/// record must live at, and the proof value recorded inside the record.
pub struct VaultIdentity {
    /// The derived storage location, a 32-byte address.
    pub location: Vec<u8>,
    /// The derivation proof (bump seed) stored in the record.
    pub proof: u8,
}

/// What the program-address derivation returns for an owner: the 32-byte
/// location and the bump seed, or nothing in the statistically improbable
/// event that no bump seed yields a valid location. The derivation reads
/// nothing but the owner identity (the seed label and program id are fixed),
/// so the result is a function of `owner` alone.
pub uninterp spec fn derived_identity(owner: u64) -> Option<(Seq<u8>, u8)>;

/// Whether the derivation yields an identity for this owner at all. It does
/// for all practical purposes; the failure case exists only because the bump
/// search could in principle exhaust all 256 candidates.
pub open spec fn identity_exists(owner: u64) -> bool {
    derived_identity(owner) is Some
}

/// The derived storage location of `owner`'s vault.
pub open spec fn derived_location(owner: u64) -> Seq<u8> {
    match derived_identity(owner) {
        Some(q) => q.0,
        None => Seq::empty(),
    }
}

/// The derivation proof recorded in `owner`'s vault record.
pub open spec fn derived_proof(owner: u64) -> u8 {
    match derived_identity(owner) {
        Some(q) => q.1,
        None => 0,
    }
}

/// Relies on `Pubkey::try_find_program_address` (solana-address, re-exported
/// by anchor_lang): given the fixed seed label `vault`, the owner's key and
/// the fixed program id, it deterministically searches bump seeds from 255
/// downwards and returns the first off-curve 32-byte program address together
/// with the bump that produced it, or `None` if every bump fails. The owner's
/// `u64` identity is embedded as the first eight bytes of a 32-byte key.
#[verifier::external_body]
pub(crate) fn find_vault_address(owner: u64) -> (r: Option<(Vec<u8>, u8)>)
    ensures
        match (r, derived_identity(owner)) {
            (Some(p), Some(q)) => p.0@ == q.0 && p.1 == q.1 && q.0.len() == 32,
            (None, None) => true,
            _ => false,
        },
{
    let mut owner_bytes = [0u8; 32];
    owner_bytes[..8].copy_from_slice(&owner.to_le_bytes());
    let owner_key = anchor_lang::prelude::Pubkey::new_from_array(owner_bytes);
    let program_id = anchor_lang::prelude::Pubkey::from_str_const(
        "FP3Dz4vWctJg1kvx3DkuRDT1ToGBoRRegdrjxmEeW7GE",
    );
    let (address, bump) = anchor_lang::prelude::Pubkey::try_find_program_address(
        &[b"vault", owner_key.as_ref()],
        &program_id,
    )?;
    Some((address.to_bytes().to_vec(), bump))
}

/// Derive the storage identity of `owner`'s vault: the same owner always
/// maps to the same identity.
pub fn derive_vault_identity(owner: u64) -> (r: Option<VaultIdentity>)
    ensures
        r is Some <==> identity_exists(owner),
        r matches Some(id) ==> {
            &&& id.location@ == derived_location(owner)
            &&& id.location@.len() == 32
            &&& id.proof == derived_proof(owner)
        },
{
    match find_vault_address(owner) {
        None => None,
        Some((location, proof)) => Some(VaultIdentity { location, proof }),
    }
}

/// Re-derive `owner`'s identity and check a stored proof value against it.
/// This is the defence that rejects a record not genuinely derived from
/// `(owner, seed)`: a forged record's stored proof fails the comparison.
pub fn verify_identity_proof(owner: u64, proof: u8) -> (r: bool)
    ensures
        r <==> identity_exists(owner) && proof == derived_proof(owner),
{
    match find_vault_address(owner) {
        None => false,
        Some((_, expected)) => proof == expected,
    }
}

} // verus!
