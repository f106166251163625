//! Plain-value models of the accounts a call supplies.
//!
//! The platform hands every invocation a fresh, order-significant list of
//! accounts and guarantees no referential integrity between them; the
//! handlers re-validate every cross-reference.  These types carry exactly
//! the plain values the handlers read and write.

use vstd::prelude::*;
use crate::address::Address;

verus! {

/// A participant or system account: an identity, a native balance, and
/// whether the identity signed the call.
#[derive(Clone, Copy, Debug, PartialEq, Eq)]
pub struct NativeAccount {
    pub address: Address,
    pub lamports: u64,
    pub is_signer: bool,
}

/// A token-holding account at the token-transfer service.
#[derive(Clone, Copy, Debug, PartialEq, Eq)]
pub struct TokenAccount {
    /// The account's own address.
    pub address: Address,
    /// The program that owns the account on the ledger.
    pub owner_program: Address,
    /// The authority that may move the account's tokens.
    pub authority: Address,
    /// The token balance.
    pub amount: u64,
    /// The native balance.
    pub lamports: u64,
    /// Whether the service has initialized the account; a closed account is
    /// no longer initialized.
    pub initialized: bool,
}

/// The caller-funded account that persists the escrow record.
#[derive(Clone, Debug, PartialEq, Eq)]
pub struct RecordAccount {
    pub lamports: u64,
    pub data: Vec<u8>,
}

/// Whether two native accounts hold the same values.
pub open spec fn native_account_eqv(a: NativeAccount, b: NativeAccount) -> bool {
    &&& a.address@ == b.address@
    &&& a.lamports == b.lamports
    &&& a.is_signer == b.is_signer
}

/// Whether two token accounts hold the same values.
pub open spec fn token_account_eqv(a: TokenAccount, b: TokenAccount) -> bool {
    &&& a.address@ == b.address@
    &&& a.owner_program@ == b.owner_program@
    &&& a.authority@ == b.authority@
    &&& a.amount == b.amount
    &&& a.lamports == b.lamports
    &&& a.initialized == b.initialized
}

/// Whether two record accounts hold the same values.
pub open spec fn record_account_eqv(a: RecordAccount, b: RecordAccount) -> bool {
    &&& a.lamports == b.lamports
    &&& a.data@ == b.data@
}

} // verus!
