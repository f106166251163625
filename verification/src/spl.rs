//! Bindings to the token-transfer service's client library.

use vstd::prelude::*;
use vstd::bytes::spec_u64_from_le_bytes;
use crate::accounts::TokenAccount;
use crate::address::Address;
use crate::error::ProcessError;
use solana_program::program_pack::Pack;

verus! {

/// The identity under which the token-transfer service is deployed.
pub open spec fn token_service_id() -> Seq<u8> {
    seq![
        6u8, 221, 246, 225, 215, 101, 161, 147, 217, 203, 225, 70, 206, 235, 121, 172, 28, 180,
        133, 237, 95, 91, 55, 145, 58, 140, 245, 133, 126, 255, 0, 169,
    ]
}

/// Relies on `spl_token::id`: the constant identity of the token program,
/// whose 32 bytes are fixed by the crate's `declare_id` invocation.
#[verifier::external_body]
pub(crate) fn spl_token_program_id() -> (r: Address)
    ensures
        r@ == token_service_id(),
{
    spl_token::id().to_bytes()
}

/// Whether four bytes are a well-formed optional-field tag in the token
/// account layout.
pub open spec fn coption_tag_wf(s: Seq<u8>, off: int) -> bool {
    (s[off] == 0 || s[off] == 1) && s[off + 1] == 0 && s[off + 2] == 0 && s[off + 3] == 0
}

/// Whether a byte sequence parses as a token account: 165 bytes, with
/// well-formed optional-field tags at 72 (delegate), 109 (native marker) and
/// 129 (close authority), and a state byte at 108 of at most 2.
pub open spec fn token_account_bytes_wf(s: Seq<u8>) -> bool {
    &&& s.len() == 165
    &&& coption_tag_wf(s, 72)
    &&& (s[108] == 0 || s[108] == 1 || s[108] == 2)
    &&& coption_tag_wf(s, 109)
    &&& coption_tag_wf(s, 129)
}

/// The authority stored in a token account's bytes.
pub open spec fn token_bytes_authority(s: Seq<u8>) -> Seq<u8> {
    s.subrange(32, 64)
}

/// The balance stored in a token account's bytes.
pub open spec fn token_bytes_amount(s: Seq<u8>) -> u64 {
    spec_u64_from_le_bytes(s.subrange(64, 72))
}

/// Relies on `spl_token::state::Account::unpack` (through the `Pack` trait):
/// a token account is 165 bytes with its authority at bytes 32..64 and its
/// balance at bytes 64..72, little endian; parsing checks the three
/// optional-field tags and the state byte, and an account whose state byte
/// is zero is uninitialized.
#[verifier::external_body]
fn unpack_token_account(data: &[u8]) -> (r: Result<(Address, u64), ProcessError>)
    ensures
        (r is Ok) == (token_account_bytes_wf(data@) && data@[108] != 0),
        r matches Ok(p) ==> p.0@ == token_bytes_authority(data@) && p.1 == token_bytes_amount(
            data@,
        ),
        r matches Err(pe) ==> (pe == ProcessError::UninitializedAccount) == (
        token_account_bytes_wf(data@) && data@[108] == 0) && (pe
            == ProcessError::InvalidAccountData) == !token_account_bytes_wf(data@),
{
    match spl_token::state::Account::unpack(data) {
        Ok(account) => Ok((account.owner.to_bytes(), account.amount)),
        Err(solana_program::program_error::ProgramError::UninitializedAccount) => {
            Err(ProcessError::UninitializedAccount)
        },
        Err(_) => Err(ProcessError::InvalidAccountData),
    }
}

/// Build the model of a live token account from the raw values the platform
/// supplies for it: its address, owning program, native balance, and data.
pub fn token_account_from_bytes(
    address: &Address,
    owner_program: &Address,
    lamports: u64,
    data: &[u8],
) -> (r: Result<TokenAccount, ProcessError>)
    ensures
        (r is Ok) == (token_account_bytes_wf(data@) && data@[108] != 0),
        r matches Ok(t) ==> {
            &&& t.address@ == address@
            &&& t.owner_program@ == owner_program@
            &&& t.authority@ == token_bytes_authority(data@)
            &&& t.amount == token_bytes_amount(data@)
            &&& t.lamports == lamports
            &&& t.initialized
        },
        r matches Err(pe) ==> (pe == ProcessError::UninitializedAccount) == (
        token_account_bytes_wf(data@) && data@[108] == 0) && (pe
            == ProcessError::InvalidAccountData) == !token_account_bytes_wf(data@),
{
    match unpack_token_account(data) {
        Err(pe) => Err(pe),
        Ok((authority, amount)) => Ok(
            TokenAccount {
                address: *address,
                owner_program: *owner_program,
                authority,
                amount,
                lamports,
                initialized: true,
            },
        ),
    }
}

} // verus!
