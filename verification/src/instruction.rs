//! The instruction decoder.
//!
//! An instruction buffer is one opcode byte followed by a little-endian
//! `u64` amount: opcode `0` asks to initialize an escrow, opcode `1` to
//! exchange.  Anything else, or a buffer shorter than nine bytes, is
//! `InvalidInstruction`.

use vstd::prelude::*;
use vstd::bytes::{spec_u64_from_le_bytes, u64_from_le_bytes};
use vstd::slice::{slice_index_get, slice_subrange};
use crate::error::ProcessError;

verus! {

/// A decoded instruction.
#[derive(Clone, Copy, Debug, PartialEq, Eq, Structural)]
pub enum EscrowInstruction {
    /// Deposit a token and record the terms of the swap.
    InitEscrow { amount: u64 },
    /// Complete the swap by supplying the requested token.
    Exchange { amount: u64 },
}

/// What a given instruction buffer decodes to.
pub open spec fn parse_instruction(s: Seq<u8>) -> Result<EscrowInstruction, ProcessError> {
    if s.len() < 9 {
        Err(ProcessError::InvalidInstruction)
    } else if s[0] == 0 {
        Ok(EscrowInstruction::InitEscrow { amount: spec_u64_from_le_bytes(s.subrange(1, 9)) })
    } else if s[0] == 1 {
        Ok(EscrowInstruction::Exchange { amount: spec_u64_from_le_bytes(s.subrange(1, 9)) })
    } else {
        Err(ProcessError::InvalidInstruction)
    }
}

impl EscrowInstruction {
    /// Decode an instruction buffer.
    pub fn unpack(input: &[u8]) -> (r: Result<EscrowInstruction, ProcessError>)
        ensures
            r == parse_instruction(input@),
    {
        if input.len() < 9 {
            return Err(ProcessError::InvalidInstruction);
        }
        let tag = *slice_index_get(input, 0);
        let amount = u64_from_le_bytes(slice_subrange(input, 1, 9));
        if tag == 0 {
            Ok(EscrowInstruction::InitEscrow { amount })
        } else if tag == 1 {
            Ok(EscrowInstruction::Exchange { amount })
        } else {
            Err(ProcessError::InvalidInstruction)
        }
    }
}

} // verus!
