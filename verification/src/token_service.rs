//! A model of the token-transfer service's three operations.
//!
//! The service is an external collaborator; the handlers rely only on the
//! contracts below, which say for each operation exactly when it succeeds,
//! what it changes, and that a failed operation changes nothing.  Which
//! failure an operation reports is checked in this order: an uninitialized
//! account, a wrong authority, and then the operation's own conditions.

use vstd::prelude::*;
use crate::accounts::{NativeAccount, TokenAccount, token_account_eqv, native_account_eqv};
use crate::address::{Address, addr_eq};
use crate::error::TokenError;

verus! {

/// Whether reassigning `account`'s authority on `current_authority`'s word
/// succeeds, and with which failure it does not.
pub open spec fn set_authority_verdict(account: TokenAccount, current_authority: Seq<u8>) -> Result<
    (),
    TokenError,
> {
    if !account.initialized {
        Err(TokenError::NotInitialized)
    } else if account.authority@ != current_authority {
        Err(TokenError::OwnerMismatch)
    } else {
        Ok(())
    }
}

/// Whether moving `amount` tokens out of `source` into `destination` on
/// `authority`'s word succeeds, and with which failure it does not.
pub open spec fn transfer_verdict(
    source: TokenAccount,
    destination: TokenAccount,
    authority: Seq<u8>,
    amount: u64,
) -> Result<(), TokenError> {
    if !source.initialized || !destination.initialized {
        Err(TokenError::NotInitialized)
    } else if source.authority@ != authority {
        Err(TokenError::OwnerMismatch)
    } else if source.amount < amount {
        Err(TokenError::InsufficientFunds)
    } else if destination.amount + amount > u64::MAX {
        Err(TokenError::BalanceOverflow)
    } else {
        Ok(())
    }
}

/// Whether closing `account` and sending its native balance to an account
/// holding `destination_lamports` succeeds, and with which failure it does
/// not.
pub open spec fn close_account_verdict(
    account: TokenAccount,
    destination_lamports: u64,
    authority: Seq<u8>,
) -> Result<(), TokenError> {
    if !account.initialized {
        Err(TokenError::NotInitialized)
    } else if account.authority@ != authority {
        Err(TokenError::OwnerMismatch)
    } else if account.amount != 0 {
        Err(TokenError::NonZeroBalance)
    } else if destination_lamports + account.lamports > u64::MAX {
        Err(TokenError::BalanceOverflow)
    } else {
        Ok(())
    }
}

/// Reassign the authority over a token account.
pub fn set_authority(
    account: &mut TokenAccount,
    current_authority: &Address,
    new_authority: &Address,
) -> (r: Result<(), TokenError>)
    ensures
        r == set_authority_verdict(*old(account), current_authority@),
        r is Ok ==> token_account_eqv(
            *final(account),
            (TokenAccount { authority: *new_authority, ..*old(account) }),
        ),
        r is Err ==> token_account_eqv(*final(account), *old(account)),
{
    if !account.initialized {
        return Err(TokenError::NotInitialized);
    }
    if !addr_eq(&account.authority, current_authority) {
        return Err(TokenError::OwnerMismatch);
    }
    account.authority = *new_authority;
    Ok(())
}

/// Move tokens between two distinct token accounts.
pub fn transfer(
    source: &mut TokenAccount,
    destination: &mut TokenAccount,
    authority: &Address,
    amount: u64,
) -> (r: Result<(), TokenError>)
    ensures
        r == transfer_verdict(*old(source), *old(destination), authority@, amount),
        r is Ok ==> token_account_eqv(
            *final(source),
            (TokenAccount { amount: (old(source).amount - amount) as u64, ..*old(source) }),
        ) && token_account_eqv(
            *final(destination),
            (TokenAccount { amount: (old(destination).amount + amount) as u64, ..*old(destination) }),
        ),
        r is Err ==> token_account_eqv(*final(source), *old(source)) && token_account_eqv(
            *final(destination),
            *old(destination),
        ),
{
    if !source.initialized || !destination.initialized {
        return Err(TokenError::NotInitialized);
    }
    if !addr_eq(&source.authority, authority) {
        return Err(TokenError::OwnerMismatch);
    }
    if source.amount < amount {
        return Err(TokenError::InsufficientFunds);
    }
    if destination.amount > u64::MAX - amount {
        return Err(TokenError::BalanceOverflow);
    }
    source.amount = source.amount - amount;
    destination.amount = destination.amount + amount;
    Ok(())
}

/// Close a drained token account, sending its native balance to a
/// destination account.
pub fn close_account(
    account: &mut TokenAccount,
    destination: &mut NativeAccount,
    authority: &Address,
) -> (r: Result<(), TokenError>)
    ensures
        r == close_account_verdict(*old(account), old(destination).lamports, authority@),
        r is Ok ==> token_account_eqv(
            *final(account),
            (TokenAccount { lamports: 0u64, initialized: false, ..*old(account) }),
        ) && native_account_eqv(
            *final(destination),
            (NativeAccount {
                lamports: (old(destination).lamports + old(account).lamports) as u64,
                ..*old(destination)
            }),
        ),
        r is Err ==> token_account_eqv(*final(account), *old(account)) && native_account_eqv(
            *final(destination),
            *old(destination),
        ),
{
    if !account.initialized {
        return Err(TokenError::NotInitialized);
    }
    if !addr_eq(&account.authority, authority) {
        return Err(TokenError::OwnerMismatch);
    }
    if account.amount != 0 {
        return Err(TokenError::NonZeroBalance);
    }
    if destination.lamports > u64::MAX - account.lamports {
        return Err(TokenError::BalanceOverflow);
    }
    destination.lamports = destination.lamports + account.lamports;
    account.lamports = 0;
    account.initialized = false;
    Ok(())
}

} // verus!
