//! The escrow record and its fixed-layout codec.
//!
//! A record is persisted in 105 bytes: one flag byte (`0` or `1`), the
//! initializer's identity, the deposit account's address, the initializer's
//! receive-account address (32 bytes each), and the expected amount as a
//! little-endian `u64`.

use vstd::prelude::*;
use vstd::bytes::{spec_u64_from_le_bytes, spec_u64_to_le_bytes, u64_from_le_bytes, u64_to_le_bytes,
    lemma_auto_spec_u64_to_from_le_bytes};
use vstd::slice::{slice_index_get, slice_subrange};
use crate::address::Address;
use crate::error::ProcessError;

verus! {

/// The size of a persisted escrow record, in bytes.
pub const ESCROW_RECORD_LEN: usize = 105;

/// The persisted state of one escrow.
#[derive(Clone, Copy, Debug, PartialEq, Eq)]
pub struct Escrow {
    /// Whether Initialize has populated this record.
    pub is_initialized: bool,
    /// The party that deposited and set the terms.
    pub initializer_pubkey: Address,
    /// The custodial account that holds the deposit.
    pub temp_token_account_pubkey: Address,
    /// The account that must receive the requested token.
    pub initializer_token_to_receive_account_pubkey: Address,
    /// How much of the requested token the initializer expects.
    pub expected_amount: u64,
}

/// The flag byte that stands for an initialization state.
pub open spec fn init_flag_byte(b: bool) -> u8 {
    if b { 1 } else { 0 }
}

/// The 105 bytes that persist a record.
pub open spec fn escrow_bytes(e: Escrow) -> Seq<u8> {
    seq![init_flag_byte(e.is_initialized)] + e.initializer_pubkey@ + e.temp_token_account_pubkey@
        + e.initializer_token_to_receive_account_pubkey@ + spec_u64_to_le_bytes(e.expected_amount)
}

/// Whether a byte sequence is a well-formed persisted record.
pub open spec fn escrow_bytes_wf(s: Seq<u8>) -> bool {
    s.len() == 105 && (s[0] == 0 || s[0] == 1)
}

/// The initialization flag stored in a record's bytes.
pub open spec fn stored_initialized(s: Seq<u8>) -> bool {
    s[0] == 1
}

/// The initializer identity stored in a record's bytes.
pub open spec fn stored_initializer(s: Seq<u8>) -> Seq<u8> {
    s.subrange(1, 33)
}

/// The deposit-account address stored in a record's bytes.
pub open spec fn stored_deposit_account(s: Seq<u8>) -> Seq<u8> {
    s.subrange(33, 65)
}

/// The receive-account address stored in a record's bytes.
pub open spec fn stored_receive_account(s: Seq<u8>) -> Seq<u8> {
    s.subrange(65, 97)
}

/// The expected amount stored in a record's bytes.
pub open spec fn stored_amount(s: Seq<u8>) -> u64 {
    spec_u64_from_le_bytes(s.subrange(97, 105))
}

/// Read 32 consecutive bytes as an address.
fn read_address(data: &[u8], off: usize) -> (a: Address)
    requires
        off + 32 <= data@.len(),
    ensures
        a@ == data@.subrange(off as int, off + 32),
{
    let n = data.len();
    let mut a: Address = [0u8; 32];
    let mut i: usize = 0;
    while i < 32
        invariant
            i <= 32,
            off + 32 <= n == data@.len(),
            forall|j: int| 0 <= j < i ==> a@[j] == data@[off + j],
        decreases 32 - i,
    {
        a[i] = *slice_index_get(data, off + i);
        i += 1;
    }
    assert(a@ =~= data@.subrange(off as int, off + 32));
    a
}

/// Append 32 address bytes to a buffer.
fn push_address(out: &mut Vec<u8>, a: &Address)
    ensures
        final(out)@ == old(out)@ + a@,
{
    let ghost base = out@;
    let mut i: usize = 0;
    while i < 32
        invariant
            i <= 32,
            out@ == base + a@.subrange(0, i as int),
        decreases 32 - i,
    {
        out.push(a[i]);
        assert(out@ =~= base + a@.subrange(0, i + 1));
        i += 1;
    }
    assert(out@ =~= base + a@);
}

impl Escrow {
    /// Serialize the record into its 105-byte layout.
    pub fn pack(&self) -> (out: Vec<u8>)
        ensures
            out@ == escrow_bytes(*self),
    {
        let mut out: Vec<u8> = Vec::new();
        out.push(if self.is_initialized { 1 } else { 0 });
        push_address(&mut out, &self.initializer_pubkey);
        push_address(&mut out, &self.temp_token_account_pubkey);
        push_address(&mut out, &self.initializer_token_to_receive_account_pubkey);
        let mut amount_bytes = u64_to_le_bytes(self.expected_amount);
        out.append(&mut amount_bytes);
        assert(out@ =~= escrow_bytes(*self));
        out
    }

    /// Deserialize a record without insisting that it is initialized.
    pub fn unpack_unchecked(data: &[u8]) -> (r: Result<Escrow, ProcessError>)
        ensures
            (r is Ok) == escrow_bytes_wf(data@),
            r matches Ok(e) ==> {
                &&& e.is_initialized == stored_initialized(data@)
                &&& e.initializer_pubkey@ == stored_initializer(data@)
                &&& e.temp_token_account_pubkey@ == stored_deposit_account(data@)
                &&& e.initializer_token_to_receive_account_pubkey@ == stored_receive_account(data@)
                &&& e.expected_amount == stored_amount(data@)
            },
            r matches Err(pe) ==> pe == ProcessError::InvalidAccountData,
    {
        if data.len() != ESCROW_RECORD_LEN {
            return Err(ProcessError::InvalidAccountData);
        }
        let flag = *slice_index_get(data, 0);
        let is_initialized = if flag == 0 {
            false
        } else if flag == 1 {
            true
        } else {
            return Err(ProcessError::InvalidAccountData);
        };
        let initializer_pubkey = read_address(data, 1);
        let temp_token_account_pubkey = read_address(data, 33);
        let initializer_token_to_receive_account_pubkey = read_address(data, 65);
        let expected_amount = u64_from_le_bytes(slice_subrange(data, 97, 105));
        Ok(Escrow {
            is_initialized,
            initializer_pubkey,
            temp_token_account_pubkey,
            initializer_token_to_receive_account_pubkey,
            expected_amount,
        })
    }

    /// Deserialize a record and insist that it is initialized.
    pub fn unpack(data: &[u8]) -> (r: Result<Escrow, ProcessError>)
        ensures
            (r is Ok) == (escrow_bytes_wf(data@) && stored_initialized(data@)),
            r matches Ok(e) ==> {
                &&& e.is_initialized
                &&& e.initializer_pubkey@ == stored_initializer(data@)
                &&& e.temp_token_account_pubkey@ == stored_deposit_account(data@)
                &&& e.initializer_token_to_receive_account_pubkey@ == stored_receive_account(data@)
                &&& e.expected_amount == stored_amount(data@)
            },
            r matches Err(pe) ==> {
                &&& (pe == ProcessError::UninitializedAccount) == (escrow_bytes_wf(data@)
                    && !stored_initialized(data@))
                &&& (pe == ProcessError::InvalidAccountData) == !escrow_bytes_wf(data@)
            },
    {
        match Self::unpack_unchecked(data) {
            Err(pe) => Err(pe),
            Ok(e) => {
                if e.is_initialized {
                    Ok(e)
                } else {
                    Err(ProcessError::UninitializedAccount)
                }
            },
        }
    }
}

/// The codec round trip: what `pack` writes, the stored-field readers and
/// `unpack` recover exactly, for every record.
pub proof fn lemma_escrow_codec_roundtrip(e: Escrow)
    ensures
        escrow_bytes(e).len() == 105,
        escrow_bytes_wf(escrow_bytes(e)),
        stored_initialized(escrow_bytes(e)) == e.is_initialized,
        stored_initializer(escrow_bytes(e)) == e.initializer_pubkey@,
        stored_deposit_account(escrow_bytes(e)) == e.temp_token_account_pubkey@,
        stored_receive_account(escrow_bytes(e)) == e.initializer_token_to_receive_account_pubkey@,
        stored_amount(escrow_bytes(e)) == e.expected_amount,
{
    lemma_auto_spec_u64_to_from_le_bytes();
    let s = escrow_bytes(e);
    assert(stored_initializer(s) =~= e.initializer_pubkey@);
    assert(stored_deposit_account(s) =~= e.temp_token_account_pubkey@);
    assert(stored_receive_account(s) =~= e.initializer_token_to_receive_account_pubkey@);
    assert(s.subrange(97, 105) =~= spec_u64_to_le_bytes(e.expected_amount));
}

} // verus!
