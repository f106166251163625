//! The instruction handlers.
//!
//! Each handler validates the supplied accounts, then applies every effect
//! of the instruction, or applies none: a handler that reports a failure
//! leaves every account exactly as it found it, so a caller only ever
//! observes total success or total failure.

use vstd::prelude::*;
use crate::accounts::{
    NativeAccount, RecordAccount, TokenAccount, native_account_eqv, record_account_eqv,
    token_account_eqv,
};
use crate::address::{Address, addr_eq};
use crate::error::ProcessError;
use crate::instruction::{EscrowInstruction, parse_instruction};
use crate::pda::{derivable, derived_address, try_derive_escrow_authority};
use crate::spl::{spl_token_program_id, token_service_id};
use crate::state::{
    Escrow, escrow_bytes, escrow_bytes_wf, lemma_escrow_codec_roundtrip, stored_amount,
    stored_deposit_account, stored_initialized, stored_initializer, stored_receive_account,
};
use crate::token_service;
use crate::token_service::{set_authority_verdict, transfer_verdict, close_account_verdict};

verus! {

/// The accounts an Initialize call supplies, already decoded from the
/// order-significant list: the initializer (who must sign), the deposit
/// account whose custody will move, the initializer's receive account, the
/// record account, the rent-exemption threshold for the record account's
/// data length (read from the rent information supplied with the call), and
/// the token-transfer service's identity.
#[derive(Clone, Debug, PartialEq, Eq)]
pub struct InitAccounts {
    pub initializer: NativeAccount,
    pub temp_token_account: TokenAccount,
    pub token_to_receive_account: TokenAccount,
    pub escrow_account: RecordAccount,
    pub rent_minimum_balance: u64,
    pub token_program: Address,
}

/// Whether two Initialize account sets hold the same values.
pub open spec fn init_accounts_eqv(a: InitAccounts, b: InitAccounts) -> bool {
    &&& native_account_eqv(a.initializer, b.initializer)
    &&& token_account_eqv(a.temp_token_account, b.temp_token_account)
    &&& token_account_eqv(a.token_to_receive_account, b.token_to_receive_account)
    &&& record_account_eqv(a.escrow_account, b.escrow_account)
    &&& a.rent_minimum_balance == b.rent_minimum_balance
    &&& a.token_program@ == b.token_program@
}

/// What an Initialize call returns, checked in order: the initializer must
/// have signed; the receive account must be owned by the token-transfer
/// service; the record account must already hold the rent-exemption
/// threshold; the record must parse and must not already be initialized; a
/// derived address must exist for the owning program; and the authority
/// transfer over the deposit account must be accepted by the service.
pub open spec fn init_verdict(a: InitAccounts, program_id: Seq<u8>) -> Result<(), ProcessError> {
    if !a.initializer.is_signer {
        Err(ProcessError::MissingRequiredSignature)
    } else if a.token_to_receive_account.owner_program@ != token_service_id() {
        Err(ProcessError::IncorrectProgramId)
    } else if a.escrow_account.lamports < a.rent_minimum_balance {
        Err(ProcessError::NotRentExempt)
    } else if !escrow_bytes_wf(a.escrow_account.data@) {
        Err(ProcessError::InvalidAccountData)
    } else if stored_initialized(a.escrow_account.data@) {
        Err(ProcessError::AccountAlreadyInitialized)
    } else if !derivable(program_id) {
        Err(ProcessError::InvalidSeeds)
    } else {
        match set_authority_verdict(a.temp_token_account, a.initializer.address@) {
            Err(e) => Err(ProcessError::TokenService(e)),
            Ok(()) => Ok(()),
        }
    }
}

/// The record a successful Initialize persists.
pub open spec fn init_record(a: InitAccounts, amount: u64) -> Escrow {
    Escrow {
        is_initialized: true,
        initializer_pubkey: a.initializer.address,
        temp_token_account_pubkey: a.temp_token_account.address,
        initializer_token_to_receive_account_pubkey: a.token_to_receive_account.address,
        expected_amount: amount,
    }
}

/// The post-state of a successful Initialize: the record is populated from
/// the inputs, custody of the deposit account now belongs to the derived
/// address, and nothing else changed — in particular, no balance moved.
pub open spec fn init_ok_post(
    pre: InitAccounts,
    amount: u64,
    program_id: Seq<u8>,
    post: InitAccounts,
) -> bool {
    &&& native_account_eqv(post.initializer, pre.initializer)
    &&& token_account_eqv(
        post.temp_token_account,
        (TokenAccount { authority: post.temp_token_account.authority, ..pre.temp_token_account }),
    )
    &&& post.temp_token_account.authority@ == derived_address(program_id)
    &&& token_account_eqv(post.token_to_receive_account, pre.token_to_receive_account)
    &&& post.escrow_account.lamports == pre.escrow_account.lamports
    &&& post.escrow_account.data@ == escrow_bytes(init_record(pre, amount))
    &&& post.rent_minimum_balance == pre.rent_minimum_balance
    &&& post.token_program@ == pre.token_program@
}

/// The accounts an Exchange call supplies, already decoded from the
/// order-significant list: the taker (who must sign), the taker's paying and
/// receiving token accounts, the deposit account under the derived address's
/// custody, the initializer's main account, the initializer's receive
/// account, the record account, the token-transfer service's identity, and
/// the derived-address placeholder presented with the call.
#[derive(Clone, Debug, PartialEq, Eq)]
pub struct ExchangeAccounts {
    pub taker: NativeAccount,
    pub takers_sending_token_account: TokenAccount,
    pub takers_token_to_receive_account: TokenAccount,
    pub pdas_temp_token_account: TokenAccount,
    pub initializers_main_account: NativeAccount,
    pub initializers_token_to_receive_account: TokenAccount,
    pub escrow_account: RecordAccount,
    pub token_program: Address,
    pub pda_account: Address,
}

/// Whether two Exchange account sets hold the same values.
pub open spec fn exchange_accounts_eqv(a: ExchangeAccounts, b: ExchangeAccounts) -> bool {
    &&& native_account_eqv(a.taker, b.taker)
    &&& token_account_eqv(a.takers_sending_token_account, b.takers_sending_token_account)
    &&& token_account_eqv(a.takers_token_to_receive_account, b.takers_token_to_receive_account)
    &&& token_account_eqv(a.pdas_temp_token_account, b.pdas_temp_token_account)
    &&& native_account_eqv(a.initializers_main_account, b.initializers_main_account)
    &&& token_account_eqv(
        a.initializers_token_to_receive_account,
        b.initializers_token_to_receive_account,
    )
    &&& record_account_eqv(a.escrow_account, b.escrow_account)
    &&& a.token_program@ == b.token_program@
    &&& a.pda_account@ == b.pda_account@
}

/// What an Exchange call returns.  The validations come in order: the taker
/// must have signed; the deposit account must be live; a derived address
/// must exist; the declared amount must equal the deposit account's live
/// balance; the record must parse and be initialized; and the record's
/// three stored addresses must equal the supplied accounts' addresses.
/// Then the effects must all be accepted: the taker's payment, the payout
/// of the whole deposit under the derived address's authority, the closing
/// of the drained deposit account, and the overflow-checked return of the
/// record account's native balance to the initializer.
pub open spec fn exchange_verdict(
    a: ExchangeAccounts,
    amount_expected_by_taker: u64,
    program_id: Seq<u8>,
) -> Result<(), ProcessError> {
    let data = a.escrow_account.data@;
    let deposit = a.pdas_temp_token_account;
    if !a.taker.is_signer {
        Err(ProcessError::MissingRequiredSignature)
    } else if !deposit.initialized {
        Err(ProcessError::UninitializedAccount)
    } else if !derivable(program_id) {
        Err(ProcessError::InvalidSeeds)
    } else if amount_expected_by_taker != deposit.amount {
        Err(ProcessError::ExpectedAmountMismatch)
    } else if !escrow_bytes_wf(data) {
        Err(ProcessError::InvalidAccountData)
    } else if !stored_initialized(data) {
        Err(ProcessError::UninitializedAccount)
    } else if stored_deposit_account(data) != deposit.address@ {
        Err(ProcessError::InvalidAccountData)
    } else if stored_initializer(data) != a.initializers_main_account.address@ {
        Err(ProcessError::InvalidAccountData)
    } else if stored_receive_account(data) != a.initializers_token_to_receive_account.address@ {
        Err(ProcessError::InvalidAccountData)
    } else {
        match transfer_verdict(
            a.takers_sending_token_account,
            a.initializers_token_to_receive_account,
            a.taker.address@,
            stored_amount(data),
        ) {
            Err(e) => Err(ProcessError::TokenService(e)),
            Ok(()) => match transfer_verdict(
                deposit,
                a.takers_token_to_receive_account,
                derived_address(program_id),
                deposit.amount,
            ) {
                Err(e) => Err(ProcessError::TokenService(e)),
                Ok(()) => match close_account_verdict(
                    (TokenAccount { amount: 0u64, ..deposit }),
                    a.initializers_main_account.lamports,
                    derived_address(program_id),
                ) {
                    Err(e) => Err(ProcessError::TokenService(e)),
                    Ok(()) => {
                        if a.initializers_main_account.lamports + deposit.lamports
                            + a.escrow_account.lamports > u64::MAX {
                            Err(ProcessError::AmountOverflow)
                        } else {
                            Ok(())
                        }
                    },
                },
            },
        }
    }
}

/// The post-state of a successful Exchange: the taker paid the expected
/// amount of the requested token to the initializer's receive account, the
/// whole deposit moved to the taker's receiving account, the drained deposit
/// account was closed with its native balance sent to the initializer's main
/// account, and the record account was zeroed and cleared.
pub open spec fn exchange_ok_post(
    pre: ExchangeAccounts,
    program_id: Seq<u8>,
    post: ExchangeAccounts,
) -> bool {
    let data = pre.escrow_account.data@;
    let expected = stored_amount(data);
    let deposit = pre.pdas_temp_token_account;
    &&& native_account_eqv(post.taker, pre.taker)
    &&& token_account_eqv(
        post.takers_sending_token_account,
        (TokenAccount {
            amount: (pre.takers_sending_token_account.amount - expected) as u64,
            ..pre.takers_sending_token_account
        }),
    )
    &&& token_account_eqv(
        post.initializers_token_to_receive_account,
        (TokenAccount {
            amount: (pre.initializers_token_to_receive_account.amount + expected) as u64,
            ..pre.initializers_token_to_receive_account
        }),
    )
    &&& token_account_eqv(
        post.takers_token_to_receive_account,
        (TokenAccount {
            amount: (pre.takers_token_to_receive_account.amount + deposit.amount) as u64,
            ..pre.takers_token_to_receive_account
        }),
    )
    &&& token_account_eqv(
        post.pdas_temp_token_account,
        (TokenAccount { amount: 0u64, lamports: 0u64, initialized: false, ..deposit }),
    )
    &&& native_account_eqv(
        post.initializers_main_account,
        (NativeAccount {
            lamports: (pre.initializers_main_account.lamports + deposit.lamports
                + pre.escrow_account.lamports) as u64,
            ..pre.initializers_main_account
        }),
    )
    &&& post.escrow_account.lamports == 0
    &&& post.escrow_account.data@ == Seq::<u8>::empty()
    &&& post.token_program@ == pre.token_program@
    &&& post.pda_account@ == pre.pda_account@
}

/// The typed account list a call supplies, decoded up front from the
/// order-significant sequence the platform hands over: which shape is
/// expected depends on the instruction.
#[derive(Clone, Debug, PartialEq, Eq)]
pub enum EscrowAccounts {
    InitEscrow(InitAccounts),
    Exchange(ExchangeAccounts),
}

/// Whether two supplied account lists hold the same values.
pub open spec fn escrow_accounts_eqv(a: EscrowAccounts, b: EscrowAccounts) -> bool {
    match (a, b) {
        (EscrowAccounts::InitEscrow(x), EscrowAccounts::InitEscrow(y)) => init_accounts_eqv(x, y),
        (EscrowAccounts::Exchange(x), EscrowAccounts::Exchange(y)) => exchange_accounts_eqv(x, y),
        _ => false,
    }
}

/// What a call to the program returns: the instruction buffer is decoded,
/// then the matching handler decides; an account list of the wrong shape for
/// the instruction is rejected as invalid account data.
pub open spec fn process_verdict(
    a: EscrowAccounts,
    instruction_data: Seq<u8>,
    program_id: Seq<u8>,
) -> Result<(), ProcessError> {
    match parse_instruction(instruction_data) {
        Err(e) => Err(e),
        Ok(EscrowInstruction::InitEscrow { amount }) => match a {
            EscrowAccounts::InitEscrow(ia) => init_verdict(ia, program_id),
            _ => Err(ProcessError::InvalidAccountData),
        },
        Ok(EscrowInstruction::Exchange { amount }) => match a {
            EscrowAccounts::Exchange(ea) => exchange_verdict(ea, amount, program_id),
            _ => Err(ProcessError::InvalidAccountData),
        },
    }
}

/// The escrow program's instruction handlers.
pub struct Processor;

impl Processor {
    /// Decode the instruction buffer and dispatch to the matching handler.
    pub fn process(
        program_id: &Address,
        accounts: &mut EscrowAccounts,
        instruction_data: &[u8],
    ) -> (r: Result<(), ProcessError>)
        ensures
            r == process_verdict(*old(accounts), instruction_data@, program_id@),
            r is Err ==> escrow_accounts_eqv(*final(accounts), *old(accounts)),
            r is Ok ==> match (*old(accounts), *final(accounts)) {
                (EscrowAccounts::InitEscrow(pre), EscrowAccounts::InitEscrow(post)) => {
                    &&& parse_instruction(instruction_data@) matches Ok(
                        EscrowInstruction::InitEscrow { amount },
                    )
                    &&& init_ok_post(pre, amount, program_id@, post)
                },
                (EscrowAccounts::Exchange(pre), EscrowAccounts::Exchange(post)) => exchange_ok_post(
                    pre,
                    program_id@,
                    post,
                ),
                _ => false,
            },
    {
        let instruction = match EscrowInstruction::unpack(instruction_data) {
            Err(e) => return Err(e),
            Ok(i) => i,
        };
        match instruction {
            EscrowInstruction::InitEscrow { amount } => match accounts {
                EscrowAccounts::InitEscrow(ia) => Self::process_init_escrow(ia, amount, program_id),
                _ => Err(ProcessError::InvalidAccountData),
            },
            EscrowInstruction::Exchange { amount } => match accounts {
                EscrowAccounts::Exchange(ea) => Self::process_exchange(ea, amount, program_id),
                _ => Err(ProcessError::InvalidAccountData),
            },
        }
    }

    /// Handle an Initialize instruction.
    pub fn process_init_escrow(
        accounts: &mut InitAccounts,
        amount: u64,
        program_id: &Address,
    ) -> (r: Result<(), ProcessError>)
        ensures
            r == init_verdict(*old(accounts), program_id@),
            r is Ok ==> init_ok_post(*old(accounts), amount, program_id@, *final(accounts)),
            r is Err ==> init_accounts_eqv(*final(accounts), *old(accounts)),
    {
        if !accounts.initializer.is_signer {
            return Err(ProcessError::MissingRequiredSignature);
        }
        let spl_id = spl_token_program_id();
        if !addr_eq(&accounts.token_to_receive_account.owner_program, &spl_id) {
            return Err(ProcessError::IncorrectProgramId);
        }
        if accounts.escrow_account.lamports < accounts.rent_minimum_balance {
            return Err(ProcessError::NotRentExempt);
        }
        let escrow_info = match Escrow::unpack_unchecked(accounts.escrow_account.data.as_slice()) {
            Err(pe) => return Err(pe),
            Ok(e) => e,
        };
        if escrow_info.is_initialized {
            return Err(ProcessError::AccountAlreadyInitialized);
        }
        let (pda, _bump_seed) = match try_derive_escrow_authority(program_id) {
            None => return Err(ProcessError::InvalidSeeds),
            Some(p) => p,
        };
        let mut temp_token_account = accounts.temp_token_account;
        match token_service::set_authority(
            &mut temp_token_account,
            &accounts.initializer.address,
            &pda,
        ) {
            Err(e) => return Err(ProcessError::TokenService(e)),
            Ok(()) => {},
        }
        let new_record = Escrow {
            is_initialized: true,
            initializer_pubkey: accounts.initializer.address,
            temp_token_account_pubkey: accounts.temp_token_account.address,
            initializer_token_to_receive_account_pubkey: accounts.token_to_receive_account.address,
            expected_amount: amount,
        };
        accounts.escrow_account.data = new_record.pack();
        accounts.temp_token_account = temp_token_account;
        Ok(())
    }

    /// Handle an Exchange instruction.
    pub fn process_exchange(
        accounts: &mut ExchangeAccounts,
        amount_expected_by_taker: u64,
        program_id: &Address,
    ) -> (r: Result<(), ProcessError>)
        ensures
            r == exchange_verdict(*old(accounts), amount_expected_by_taker, program_id@),
            r is Ok ==> exchange_ok_post(*old(accounts), program_id@, *final(accounts)),
            r is Err ==> exchange_accounts_eqv(*final(accounts), *old(accounts)),
    {
        if !accounts.taker.is_signer {
            return Err(ProcessError::MissingRequiredSignature);
        }
        if !accounts.pdas_temp_token_account.initialized {
            return Err(ProcessError::UninitializedAccount);
        }
        let (pda, _bump_seed) = match try_derive_escrow_authority(program_id) {
            None => return Err(ProcessError::InvalidSeeds),
            Some(p) => p,
        };
        if amount_expected_by_taker != accounts.pdas_temp_token_account.amount {
            return Err(ProcessError::ExpectedAmountMismatch);
        }
        let escrow_info = match Escrow::unpack(accounts.escrow_account.data.as_slice()) {
            Err(pe) => return Err(pe),
            Ok(e) => e,
        };
        if !addr_eq(
            &escrow_info.temp_token_account_pubkey,
            &accounts.pdas_temp_token_account.address,
        ) {
            return Err(ProcessError::InvalidAccountData);
        }
        if !addr_eq(&escrow_info.initializer_pubkey, &accounts.initializers_main_account.address) {
            return Err(ProcessError::InvalidAccountData);
        }
        if !addr_eq(
            &escrow_info.initializer_token_to_receive_account_pubkey,
            &accounts.initializers_token_to_receive_account.address,
        ) {
            return Err(ProcessError::InvalidAccountData);
        }
        let mut takers_sending = accounts.takers_sending_token_account;
        let mut initializers_receive = accounts.initializers_token_to_receive_account;
        match token_service::transfer(
            &mut takers_sending,
            &mut initializers_receive,
            &accounts.taker.address,
            escrow_info.expected_amount,
        ) {
            Err(e) => return Err(ProcessError::TokenService(e)),
            Ok(()) => {},
        }
        let mut deposit = accounts.pdas_temp_token_account;
        let mut takers_receive = accounts.takers_token_to_receive_account;
        let deposit_amount = deposit.amount;
        match token_service::transfer(&mut deposit, &mut takers_receive, &pda, deposit_amount) {
            Err(e) => return Err(ProcessError::TokenService(e)),
            Ok(()) => {},
        }
        let mut main = accounts.initializers_main_account;
        match token_service::close_account(&mut deposit, &mut main, &pda) {
            Err(e) => return Err(ProcessError::TokenService(e)),
            Ok(()) => {},
        }
        if main.lamports > u64::MAX - accounts.escrow_account.lamports {
            return Err(ProcessError::AmountOverflow);
        }
        main.lamports = main.lamports + accounts.escrow_account.lamports;
        accounts.takers_sending_token_account = takers_sending;
        accounts.initializers_token_to_receive_account = initializers_receive;
        accounts.pdas_temp_token_account = deposit;
        accounts.takers_token_to_receive_account = takers_receive;
        accounts.initializers_main_account = main;
        accounts.escrow_account.lamports = 0;
        accounts.escrow_account.data = Vec::new();
        Ok(())
    }
}

/// Initialize is one-shot.  Once a successful Initialize has populated a
/// record, a second Initialize that reads the same record bytes fails with
/// `AccountAlreadyInitialized`, however its other accounts pass the signer,
/// ownership and rent checks.
pub proof fn lemma_initialize_at_most_once(
    pre: InitAccounts,
    amount: u64,
    program_id: Seq<u8>,
    post: InitAccounts,
    second: InitAccounts,
    second_program_id: Seq<u8>,
)
    requires
        init_verdict(pre, program_id) is Ok,
        init_ok_post(pre, amount, program_id, post),
        second.escrow_account.data@ == post.escrow_account.data@,
        second.initializer.is_signer,
        second.token_to_receive_account.owner_program@ == token_service_id(),
        second.escrow_account.lamports >= second.rent_minimum_balance,
    ensures
        init_verdict(second, second_program_id) == Err::<(), ProcessError>(
            ProcessError::AccountAlreadyInitialized,
        ),
{
    lemma_escrow_codec_roundtrip(init_record(pre, amount));
}

/// An Exchange succeeds exactly when its five preconditions hold, provided
/// the supplied accounts are otherwise sound: a derived address exists, the
/// deposit account is live, the record parses as initialized, the
/// token-transfer service accepts both transfers, and the native balances
/// being summed fit.  And violating a single precondition yields its
/// matching typed failure.
pub proof fn lemma_exchange_succeeds_iff_preconditions(
    a: ExchangeAccounts,
    amount_expected_by_taker: u64,
    program_id: Seq<u8>,
)
    requires
        derivable(program_id),
        a.pdas_temp_token_account.initialized,
        escrow_bytes_wf(a.escrow_account.data@),
        stored_initialized(a.escrow_account.data@),
        transfer_verdict(
            a.takers_sending_token_account,
            a.initializers_token_to_receive_account,
            a.taker.address@,
            stored_amount(a.escrow_account.data@),
        ) is Ok,
        transfer_verdict(
            a.pdas_temp_token_account,
            a.takers_token_to_receive_account,
            derived_address(program_id),
            a.pdas_temp_token_account.amount,
        ) is Ok,
        a.initializers_main_account.lamports + a.pdas_temp_token_account.lamports
            + a.escrow_account.lamports <= u64::MAX,
    ensures
        exchange_verdict(a, amount_expected_by_taker, program_id) is Ok <==> {
            &&& a.taker.is_signer
            &&& amount_expected_by_taker == a.pdas_temp_token_account.amount
            &&& stored_deposit_account(a.escrow_account.data@)
                == a.pdas_temp_token_account.address@
            &&& stored_initializer(a.escrow_account.data@)
                == a.initializers_main_account.address@
            &&& stored_receive_account(a.escrow_account.data@)
                == a.initializers_token_to_receive_account.address@
        },
        !a.taker.is_signer ==> exchange_verdict(a, amount_expected_by_taker, program_id)
            == Err::<(), ProcessError>(ProcessError::MissingRequiredSignature),
        a.taker.is_signer && amount_expected_by_taker != a.pdas_temp_token_account.amount
            ==> exchange_verdict(a, amount_expected_by_taker, program_id) == Err::<(
            ),
            ProcessError,
        >(ProcessError::ExpectedAmountMismatch),
        a.taker.is_signer && amount_expected_by_taker == a.pdas_temp_token_account.amount
            && stored_deposit_account(a.escrow_account.data@)
            != a.pdas_temp_token_account.address@ ==> exchange_verdict(
            a,
            amount_expected_by_taker,
            program_id,
        ) == Err::<(), ProcessError>(ProcessError::InvalidAccountData),
        a.taker.is_signer && amount_expected_by_taker == a.pdas_temp_token_account.amount
            && stored_deposit_account(a.escrow_account.data@)
            == a.pdas_temp_token_account.address@ && stored_initializer(a.escrow_account.data@)
            != a.initializers_main_account.address@ ==> exchange_verdict(
            a,
            amount_expected_by_taker,
            program_id,
        ) == Err::<(), ProcessError>(ProcessError::InvalidAccountData),
        a.taker.is_signer && amount_expected_by_taker == a.pdas_temp_token_account.amount
            && stored_deposit_account(a.escrow_account.data@)
            == a.pdas_temp_token_account.address@ && stored_initializer(a.escrow_account.data@)
            == a.initializers_main_account.address@ && stored_receive_account(
            a.escrow_account.data@,
        ) != a.initializers_token_to_receive_account.address@ ==> exchange_verdict(
            a,
            amount_expected_by_taker,
            program_id,
        ) == Err::<(), ProcessError>(ProcessError::InvalidAccountData),
{
}

} // verus!
