//! The typed failures of the escrow program.

use vstd::prelude::*;

verus! {

/// The failures specific to the escrow's own rules.
///
/// Every other failure a handler reports belongs to the platform's common
/// vocabulary and is a variant of [`ProcessError`] directly.
#[derive(Clone, Copy, Debug, PartialEq, Eq, Structural)]
pub enum EscrowError {
    /// The instruction buffer held no recognisable instruction.
    InvalidInstruction,
    /// The escrow-record account is not funded up to the rent-exemption
    /// threshold for its data length.
    NotRentExempt,
    /// Adding the record's native balance to the initializer's main account
    /// would overflow.
    AmountOverflow,
    /// The amount the taker declared does not equal the deposit account's
    /// live balance.
    ExpectedAmountMismatch,
}

/// The failures of the token-transfer service, propagated unmodified.
#[derive(Clone, Copy, Debug, PartialEq, Eq, Structural)]
pub enum TokenError {
    /// The account the operation touches is not an initialized token account.
    NotInitialized,
    /// The presented authority is not the account's authority.
    OwnerMismatch,
    /// The source account holds less than the requested amount.
    InsufficientFunds,
    /// The operation would push a balance past the representable maximum.
    BalanceOverflow,
    /// An account may only be closed once its token balance is zero.
    NonZeroBalance,
}

/// Every failure an instruction handler can report.
#[derive(Clone, Copy, Debug, PartialEq, Eq, Structural)]
pub enum ProcessError {
    /// The instruction buffer held no recognisable instruction.
    InvalidInstruction,
    /// A participant that must sign the call did not.
    MissingRequiredSignature,
    /// An account claimed to be owned by the token-transfer service is not.
    IncorrectProgramId,
    /// The escrow record was already populated by an earlier Initialize.
    AccountAlreadyInitialized,
    /// The escrow-record account is not funded up to the rent-exemption
    /// threshold for its data length.
    NotRentExempt,
    /// A record that must be read has not been initialized.
    UninitializedAccount,
    /// Stored account data does not match the accounts supplied with the call.
    InvalidAccountData,
    /// No valid derived address exists for the owning program's identity.
    InvalidSeeds,
    /// The amount the taker declared does not equal the deposit account's
    /// live balance.
    ExpectedAmountMismatch,
    /// Adding the record's native balance to the initializer's main account
    /// would overflow.
    AmountOverflow,
    /// A failure of the token-transfer service, propagated unmodified.
    TokenService(TokenError),
}

/// What each escrow-specific failure becomes in the common vocabulary.
pub open spec fn process_error_of(e: EscrowError) -> ProcessError {
    match e {
        EscrowError::InvalidInstruction => ProcessError::InvalidInstruction,
        EscrowError::NotRentExempt => ProcessError::NotRentExempt,
        EscrowError::AmountOverflow => ProcessError::AmountOverflow,
        EscrowError::ExpectedAmountMismatch => ProcessError::ExpectedAmountMismatch,
    }
}

impl From<EscrowError> for ProcessError {
    fn from(e: EscrowError) -> (r: ProcessError) {
        match e {
            EscrowError::InvalidInstruction => ProcessError::InvalidInstruction,
            EscrowError::NotRentExempt => ProcessError::NotRentExempt,
            EscrowError::AmountOverflow => ProcessError::AmountOverflow,
            EscrowError::ExpectedAmountMismatch => ProcessError::ExpectedAmountMismatch,
        }
    }
}

impl vstd::std_specs::convert::FromSpecImpl<EscrowError> for ProcessError {
    open spec fn obeys_from_spec() -> bool {
        true
    }

    open spec fn from_spec(e: EscrowError) -> ProcessError {
        process_error_of(e)
    }
}

} // verus!
