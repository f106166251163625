//! The derived-address deriver.
//!
//! A derived address is computed deterministically from the owning program's
//! identity and the fixed seed `"escrow"`; it lies off the signing curve, so
//! it has no private key, and the owning program alone can authorize actions
//! on its behalf by re-presenting the same derivation at call time.

use vstd::prelude::*;
use crate::address::Address;

verus! {

/// The derived address and validity bump for a program identity, when one
/// exists; a deterministic function of the identity alone.
pub uninterp spec fn derived_authority_of(program_id: Seq<u8>) -> Option<(Seq<u8>, u8)>;

/// Whether a derived address exists for this program identity.
pub open spec fn derivable(program_id: Seq<u8>) -> bool {
    derived_authority_of(program_id) is Some
}

/// The derived address for this program identity.
pub open spec fn derived_address(program_id: Seq<u8>) -> Seq<u8> {
    match derived_authority_of(program_id) {
        Some(p) => p.0,
        None => Seq::empty(),
    }
}

/// Relies on `solana_program::pubkey::Pubkey::try_find_program_address` with
/// the fixed seed `b"escrow"`: it returns the highest-bump off-curve address
/// for (seed, program identity), a deterministic function of the program
/// identity alone, or `None` in the statistically improbable event that no
/// bump yields one.
#[verifier::external_body]
pub(crate) fn try_derive_escrow_authority(program_id: &Address) -> (r: Option<(Address, u8)>)
    ensures
        (r is Some) == derivable(program_id@),
        r matches Some(p) ==> derived_authority_of(program_id@) == Some((p.0@, p.1)),
{
    let pid = solana_program::pubkey::Pubkey::new_from_array(*program_id);
    solana_program::pubkey::Pubkey::try_find_program_address(&[b"escrow"], &pid)
        .map(|(address, bump)| (address.to_bytes(), bump))
}

} // verus!
