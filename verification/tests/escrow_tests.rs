use escrow::accounts::{NativeAccount, RecordAccount, TokenAccount};
use escrow::address::Address;
use escrow::error::{EscrowError, ProcessError, TokenError};
use escrow::token_service;
use escrow::instruction::EscrowInstruction;
use escrow::processor::{EscrowAccounts, ExchangeAccounts, InitAccounts, Processor};
use escrow::spl::token_account_from_bytes;
use escrow::state::{Escrow, ESCROW_RECORD_LEN};

use solana_program::program_option::COption;
use solana_program::program_pack::Pack;
use solana_program::pubkey::Pubkey;
use spl_token::state::{Account as SplAccount, AccountState};

fn addr(n: u8) -> Address {
    let mut a = [0u8; 32];
    a[0] = n;
    a[31] = n;
    a
}

fn spl_id() -> Address {
    spl_token::id().to_bytes()
}

fn escrow_pda(program_id: &Address) -> Address {
    let (pda, _bump) =
        Pubkey::find_program_address(&[b"escrow"], &Pubkey::new_from_array(*program_id));
    pda.to_bytes()
}

fn init_fixture() -> (InitAccounts, u64, Address) {
    let program_id = addr(9);
    let accounts = InitAccounts {
        initializer: NativeAccount { address: addr(1), lamports: 10_000, is_signer: true },
        temp_token_account: TokenAccount {
            address: addr(2),
            owner_program: spl_id(),
            authority: addr(1),
            amount: 500,
            lamports: 2_039_280,
            initialized: true,
        },
        token_to_receive_account: TokenAccount {
            address: addr(3),
            owner_program: spl_id(),
            authority: addr(1),
            amount: 0,
            lamports: 2_039_280,
            initialized: true,
        },
        escrow_account: RecordAccount { lamports: 1_600_000, data: vec![0u8; ESCROW_RECORD_LEN] },
        rent_minimum_balance: 1_500_000,
        token_program: spl_id(),
    };
    (accounts, 200, program_id)
}

/// A post-Initialize Exchange fixture: the initializer deposited 500 of
/// token X and expects 200 of token Y; the taker pays with 200 of token Y.
fn exchange_fixture() -> (ExchangeAccounts, u64, Address) {
    let (mut init, amount, program_id) = init_fixture();
    let r = Processor::process_init_escrow(&mut init, amount, &program_id);
    assert_eq!(r, Ok(()));
    let accounts = ExchangeAccounts {
        taker: NativeAccount { address: addr(7), lamports: 5_000, is_signer: true },
        takers_sending_token_account: TokenAccount {
            address: addr(8),
            owner_program: spl_id(),
            authority: addr(7),
            amount: 200,
            lamports: 2_039_280,
            initialized: true,
        },
        takers_token_to_receive_account: TokenAccount {
            address: addr(10),
            owner_program: spl_id(),
            authority: addr(7),
            amount: 0,
            lamports: 2_039_280,
            initialized: true,
        },
        pdas_temp_token_account: init.temp_token_account,
        initializers_main_account: NativeAccount {
            address: addr(1),
            lamports: 10_000,
            is_signer: false,
        },
        initializers_token_to_receive_account: init.token_to_receive_account,
        escrow_account: init.escrow_account.clone(),
        token_program: spl_id(),
        pda_account: escrow_pda(&program_id),
    };
    (accounts, 500, program_id)
}

#[test]
fn instruction_unpack_init() {
    let mut buf = vec![0u8];
    buf.extend_from_slice(&777u64.to_le_bytes());
    assert_eq!(
        EscrowInstruction::unpack(&buf),
        Ok(EscrowInstruction::InitEscrow { amount: 777 })
    );
}

#[test]
fn instruction_unpack_exchange_ignores_trailing_bytes() {
    let mut buf = vec![1u8];
    buf.extend_from_slice(&300u64.to_le_bytes());
    buf.push(42);
    assert_eq!(
        EscrowInstruction::unpack(&buf),
        Ok(EscrowInstruction::Exchange { amount: 300 })
    );
}

#[test]
fn instruction_unpack_rejects_unknown_opcode_and_short_buffer() {
    let mut buf = vec![2u8];
    buf.extend_from_slice(&1u64.to_le_bytes());
    assert_eq!(EscrowInstruction::unpack(&buf), Err(ProcessError::InvalidInstruction));
    assert_eq!(EscrowInstruction::unpack(&[]), Err(ProcessError::InvalidInstruction));
    assert_eq!(EscrowInstruction::unpack(&[0, 1, 2, 3]), Err(ProcessError::InvalidInstruction));
}

#[test]
fn escrow_record_roundtrip() {
    let e = Escrow {
        is_initialized: true,
        initializer_pubkey: addr(1),
        temp_token_account_pubkey: addr(2),
        initializer_token_to_receive_account_pubkey: addr(3),
        expected_amount: 123_456_789,
    };
    let bytes = e.pack();
    assert_eq!(bytes.len(), ESCROW_RECORD_LEN);
    assert_eq!(bytes[0], 1);
    assert_eq!(&bytes[1..33], &addr(1));
    assert_eq!(&bytes[33..65], &addr(2));
    assert_eq!(&bytes[65..97], &addr(3));
    assert_eq!(&bytes[97..105], &123_456_789u64.to_le_bytes());
    assert_eq!(Escrow::unpack(&bytes), Ok(e));
    assert_eq!(Escrow::unpack_unchecked(&bytes), Ok(e));
}

#[test]
fn escrow_record_rejects_bad_bytes() {
    assert_eq!(Escrow::unpack_unchecked(&[0u8; 104]), Err(ProcessError::InvalidAccountData));
    let mut bytes = vec![0u8; ESCROW_RECORD_LEN];
    bytes[0] = 2;
    assert_eq!(Escrow::unpack_unchecked(&bytes), Err(ProcessError::InvalidAccountData));
    bytes[0] = 0;
    assert_eq!(Escrow::unpack(&bytes), Err(ProcessError::UninitializedAccount));
    assert!(Escrow::unpack_unchecked(&bytes).is_ok());
}

fn spl_account_bytes(owner: &Address, amount: u64, state: AccountState) -> Vec<u8> {
    let account = SplAccount {
        mint: Pubkey::new_from_array(addr(40)),
        owner: Pubkey::new_from_array(*owner),
        amount,
        delegate: COption::None,
        state,
        is_native: COption::None,
        delegated_amount: 0,
        close_authority: COption::None,
    };
    let mut buf = vec![0u8; SplAccount::LEN];
    SplAccount::pack(account, &mut buf).unwrap();
    buf
}

#[test]
fn token_account_from_real_layout() {
    let authority = addr(5);
    let data = spl_account_bytes(&authority, 321, AccountState::Initialized);
    let t = token_account_from_bytes(&addr(6), &spl_id(), 77, &data).unwrap();
    assert_eq!(t.address, addr(6));
    assert_eq!(t.owner_program, spl_id());
    assert_eq!(t.authority, authority);
    assert_eq!(t.amount, 321);
    assert_eq!(t.lamports, 77);
    assert!(t.initialized);
}

#[test]
fn token_account_from_bytes_rejects_bad_data() {
    assert_eq!(
        token_account_from_bytes(&addr(6), &spl_id(), 0, &[0u8; 164]),
        Err(ProcessError::InvalidAccountData)
    );
    let data = spl_account_bytes(&addr(5), 1, AccountState::Uninitialized);
    assert_eq!(
        token_account_from_bytes(&addr(6), &spl_id(), 0, &data),
        Err(ProcessError::UninitializedAccount)
    );
}

#[test]
fn initialize_populates_record_and_moves_authority() {
    let (mut accounts, amount, program_id) = init_fixture();
    let pre = accounts.clone();
    let r = Processor::process_init_escrow(&mut accounts, amount, &program_id);
    assert_eq!(r, Ok(()));
    let expected_record = Escrow {
        is_initialized: true,
        initializer_pubkey: pre.initializer.address,
        temp_token_account_pubkey: pre.temp_token_account.address,
        initializer_token_to_receive_account_pubkey: pre.token_to_receive_account.address,
        expected_amount: amount,
    };
    assert_eq!(accounts.escrow_account.data, expected_record.pack());
    assert_eq!(Escrow::unpack(&accounts.escrow_account.data), Ok(expected_record));
    // Custody of the deposit account now belongs to the derived address.
    assert_eq!(accounts.temp_token_account.authority, escrow_pda(&program_id));
    assert_ne!(accounts.temp_token_account.authority, pre.initializer.address);
    // No balance moved.
    assert_eq!(accounts.temp_token_account.amount, pre.temp_token_account.amount);
    assert_eq!(accounts.escrow_account.lamports, pre.escrow_account.lamports);
    assert_eq!(accounts.initializer, pre.initializer);
}

#[test]
fn initialize_twice_fails_and_leaves_record_unchanged() {
    let (mut accounts, amount, program_id) = init_fixture();
    assert_eq!(Processor::process_init_escrow(&mut accounts, amount, &program_id), Ok(()));
    let after_first = accounts.clone();
    let r = Processor::process_init_escrow(&mut accounts, 999, &program_id);
    assert_eq!(r, Err(ProcessError::AccountAlreadyInitialized));
    assert_eq!(accounts, after_first);
}

#[test]
fn initialize_requires_signer() {
    let (mut accounts, amount, program_id) = init_fixture();
    accounts.initializer.is_signer = false;
    let pre = accounts.clone();
    let r = Processor::process_init_escrow(&mut accounts, amount, &program_id);
    assert_eq!(r, Err(ProcessError::MissingRequiredSignature));
    assert_eq!(accounts, pre);
}

#[test]
fn initialize_requires_service_owned_receive_account() {
    let (mut accounts, amount, program_id) = init_fixture();
    accounts.token_to_receive_account.owner_program = addr(13);
    let pre = accounts.clone();
    let r = Processor::process_init_escrow(&mut accounts, amount, &program_id);
    assert_eq!(r, Err(ProcessError::IncorrectProgramId));
    assert_eq!(accounts, pre);
}

#[test]
fn initialize_requires_rent_exempt_record() {
    let (mut accounts, amount, program_id) = init_fixture();
    accounts.escrow_account.lamports = accounts.rent_minimum_balance - 1;
    let pre = accounts.clone();
    let r = Processor::process_init_escrow(&mut accounts, amount, &program_id);
    assert_eq!(r, Err(ProcessError::NotRentExempt));
    assert_eq!(accounts, pre);
}

#[test]
fn initialize_propagates_authority_failure() {
    let (mut accounts, amount, program_id) = init_fixture();
    // The initializer does not hold the deposit account's authority.
    accounts.temp_token_account.authority = addr(14);
    let pre = accounts.clone();
    let r = Processor::process_init_escrow(&mut accounts, amount, &program_id);
    assert_eq!(r, Err(ProcessError::TokenService(TokenError::OwnerMismatch)));
    assert_eq!(accounts, pre);
}

#[test]
fn exchange_happy_path_swaps_and_reclaims() {
    let (mut accounts, declared, program_id) = exchange_fixture();
    let pre = accounts.clone();
    let r = Processor::process_exchange(&mut accounts, declared, &program_id);
    assert_eq!(r, Ok(()));
    // The taker paid 200 of token Y and received the 500 of token X.
    assert_eq!(accounts.takers_sending_token_account.amount, 0);
    assert_eq!(accounts.initializers_token_to_receive_account.amount, 200);
    assert_eq!(accounts.takers_token_to_receive_account.amount, 500);
    // The deposit account was drained and closed.
    assert_eq!(accounts.pdas_temp_token_account.amount, 0);
    assert_eq!(accounts.pdas_temp_token_account.lamports, 0);
    assert!(!accounts.pdas_temp_token_account.initialized);
    // The initializer got back the custodial accounts' native balances.
    assert_eq!(
        accounts.initializers_main_account.lamports,
        pre.initializers_main_account.lamports
            + pre.pdas_temp_token_account.lamports
            + pre.escrow_account.lamports
    );
    // The record account was zeroed and cleared.
    assert_eq!(accounts.escrow_account.lamports, 0);
    assert!(accounts.escrow_account.data.is_empty());
    assert_eq!(accounts.taker, pre.taker);
}

#[test]
fn exchange_requires_signer() {
    let (mut accounts, declared, program_id) = exchange_fixture();
    accounts.taker.is_signer = false;
    let pre = accounts.clone();
    let r = Processor::process_exchange(&mut accounts, declared, &program_id);
    assert_eq!(r, Err(ProcessError::MissingRequiredSignature));
    assert_eq!(accounts, pre);
}

#[test]
fn exchange_amount_consistency() {
    // A record amount of 1,000,000 with a matching live balance and a
    // matching declared amount succeeds ...
    let (mut accounts, _declared, program_id) = exchange_fixture();
    accounts.pdas_temp_token_account.amount = 1_000_000;
    let record = Escrow::unpack(&accounts.escrow_account.data).unwrap();
    accounts.escrow_account.data = Escrow {
        expected_amount: 1_000_000,
        ..record
    }
    .pack();
    accounts.takers_sending_token_account.amount = 1_000_000;
    let mut stale = accounts.clone();
    assert_eq!(Processor::process_exchange(&mut accounts, 1_000_000, &program_id), Ok(()));
    // ... and a declared amount of 999,999 against the same live balance
    // fails with ExpectedAmountMismatch.
    let pre = stale.clone();
    let r = Processor::process_exchange(&mut stale, 999_999, &program_id);
    assert_eq!(r, Err(ProcessError::ExpectedAmountMismatch));
    assert_eq!(stale, pre);
}

#[test]
fn exchange_rejects_stale_declared_amount() {
    // The taker declares 300 while the deposit account holds 500.
    let (mut accounts, _declared, program_id) = exchange_fixture();
    let pre = accounts.clone();
    let r = Processor::process_exchange(&mut accounts, 300, &program_id);
    assert_eq!(r, Err(ProcessError::ExpectedAmountMismatch));
    assert_eq!(accounts, pre);
}

#[test]
fn exchange_rejects_wrong_deposit_account() {
    let (mut accounts, declared, program_id) = exchange_fixture();
    accounts.pdas_temp_token_account.address = addr(21);
    let pre = accounts.clone();
    let r = Processor::process_exchange(&mut accounts, declared, &program_id);
    assert_eq!(r, Err(ProcessError::InvalidAccountData));
    assert_eq!(accounts, pre);
}

#[test]
fn exchange_rejects_wrong_initializer_account() {
    let (mut accounts, declared, program_id) = exchange_fixture();
    accounts.initializers_main_account.address = addr(22);
    let pre = accounts.clone();
    let r = Processor::process_exchange(&mut accounts, declared, &program_id);
    assert_eq!(r, Err(ProcessError::InvalidAccountData));
    assert_eq!(accounts, pre);
}

#[test]
fn exchange_rejects_wrong_receive_account() {
    let (mut accounts, declared, program_id) = exchange_fixture();
    accounts.initializers_token_to_receive_account.address = addr(23);
    let pre = accounts.clone();
    let r = Processor::process_exchange(&mut accounts, declared, &program_id);
    assert_eq!(r, Err(ProcessError::InvalidAccountData));
    assert_eq!(accounts, pre);
}

#[test]
fn exchange_after_close_fails_and_moves_nothing() {
    let (mut accounts, declared, program_id) = exchange_fixture();
    assert_eq!(Processor::process_exchange(&mut accounts, declared, &program_id), Ok(()));
    let mut again = accounts.clone();
    // The deposit account is closed, so its balance no longer matches any
    // declared amount the validation path would accept; the record data is
    // gone as well.
    let r = Processor::process_exchange(&mut again, 0, &program_id);
    assert_eq!(r, Err(ProcessError::UninitializedAccount));
    assert_eq!(again, accounts);
    // Even a fresh set of live accounts fails against the cleared record.
    let (mut fresh, fresh_declared, _) = exchange_fixture();
    fresh.escrow_account = accounts.escrow_account.clone();
    let pre = fresh.clone();
    let r = Processor::process_exchange(&mut fresh, fresh_declared, &program_id);
    assert_eq!(r, Err(ProcessError::InvalidAccountData));
    assert_eq!(fresh, pre);
}

#[test]
fn exchange_overflow_rolls_back_as_one_unit() {
    let (mut accounts, declared, program_id) = exchange_fixture();
    accounts.initializers_main_account.lamports = u64::MAX;
    accounts.pdas_temp_token_account.lamports = 0;
    accounts.escrow_account.lamports = 1;
    let pre = accounts.clone();
    let r = Processor::process_exchange(&mut accounts, declared, &program_id);
    assert_eq!(r, Err(ProcessError::AmountOverflow));
    assert_eq!(accounts, pre);
}

#[test]
fn exchange_propagates_insufficient_taker_balance() {
    let (mut accounts, declared, program_id) = exchange_fixture();
    accounts.takers_sending_token_account.amount = 199;
    let pre = accounts.clone();
    let r = Processor::process_exchange(&mut accounts, declared, &program_id);
    assert_eq!(r, Err(ProcessError::TokenService(TokenError::InsufficientFunds)));
    assert_eq!(accounts, pre);
}

#[test]
fn exchange_requires_derived_authority_over_deposit() {
    let (mut accounts, declared, program_id) = exchange_fixture();
    accounts.pdas_temp_token_account.authority = addr(30);
    let record = Escrow::unpack(&accounts.escrow_account.data).unwrap();
    assert_eq!(record.temp_token_account_pubkey, accounts.pdas_temp_token_account.address);
    let pre = accounts.clone();
    let r = Processor::process_exchange(&mut accounts, declared, &program_id);
    assert_eq!(r, Err(ProcessError::TokenService(TokenError::OwnerMismatch)));
    assert_eq!(accounts, pre);
}

#[test]
fn initialize_rejects_uninitialized_deposit_account() {
    let (mut accounts, amount, program_id) = init_fixture();
    accounts.temp_token_account.initialized = false;
    let pre = accounts.clone();
    let r = Processor::process_init_escrow(&mut accounts, amount, &program_id);
    assert_eq!(r, Err(ProcessError::TokenService(TokenError::NotInitialized)));
    assert_eq!(accounts, pre);
}

#[test]
fn exchange_propagates_receive_balance_overflow() {
    let (mut accounts, declared, program_id) = exchange_fixture();
    accounts.takers_token_to_receive_account.amount = u64::MAX - 499;
    let pre = accounts.clone();
    let r = Processor::process_exchange(&mut accounts, declared, &program_id);
    assert_eq!(r, Err(ProcessError::TokenService(TokenError::BalanceOverflow)));
    assert_eq!(accounts, pre);
}

#[test]
fn close_account_requires_drained_balance() {
    let mut account = TokenAccount {
        address: addr(2),
        owner_program: spl_id(),
        authority: addr(4),
        amount: 1,
        lamports: 10,
        initialized: true,
    };
    let mut destination = NativeAccount { address: addr(1), lamports: 5, is_signer: false };
    let r = token_service::close_account(&mut account, &mut destination, &addr(4));
    assert_eq!(r, Err(TokenError::NonZeroBalance));
    assert_eq!(destination.lamports, 5);
    account.amount = 0;
    assert_eq!(token_service::close_account(&mut account, &mut destination, &addr(4)), Ok(()));
    assert_eq!(destination.lamports, 15);
    assert_eq!(account.lamports, 0);
    assert!(!account.initialized);
}

#[test]
fn escrow_errors_map_into_the_common_vocabulary() {
    assert_eq!(
        ProcessError::from(EscrowError::InvalidInstruction),
        ProcessError::InvalidInstruction
    );
    assert_eq!(ProcessError::from(EscrowError::NotRentExempt), ProcessError::NotRentExempt);
    assert_eq!(ProcessError::from(EscrowError::AmountOverflow), ProcessError::AmountOverflow);
    assert_eq!(
        ProcessError::from(EscrowError::ExpectedAmountMismatch),
        ProcessError::ExpectedAmountMismatch
    );
}

#[test]
fn process_dispatches_initialize() {
    let (accounts, amount, program_id) = init_fixture();
    let mut supplied = EscrowAccounts::InitEscrow(accounts);
    let mut buf = vec![0u8];
    buf.extend_from_slice(&amount.to_le_bytes());
    assert_eq!(Processor::process(&program_id, &mut supplied, &buf), Ok(()));
    match supplied {
        EscrowAccounts::InitEscrow(post) => {
            assert!(Escrow::unpack(&post.escrow_account.data).unwrap().is_initialized);
        }
        EscrowAccounts::Exchange(_) => panic!("the account list changed shape"),
    }
}

#[test]
fn process_dispatches_exchange() {
    let (accounts, declared, program_id) = exchange_fixture();
    let mut supplied = EscrowAccounts::Exchange(accounts);
    let mut buf = vec![1u8];
    buf.extend_from_slice(&declared.to_le_bytes());
    assert_eq!(Processor::process(&program_id, &mut supplied, &buf), Ok(()));
}

#[test]
fn process_rejects_unknown_instruction_and_wrong_shape() {
    let (accounts, _amount, program_id) = init_fixture();
    let mut supplied = EscrowAccounts::InitEscrow(accounts);
    let mut buf = vec![9u8];
    buf.extend_from_slice(&1u64.to_le_bytes());
    assert_eq!(
        Processor::process(&program_id, &mut supplied, &buf),
        Err(ProcessError::InvalidInstruction)
    );
    let mut exchange_buf = vec![1u8];
    exchange_buf.extend_from_slice(&1u64.to_le_bytes());
    assert_eq!(
        Processor::process(&program_id, &mut supplied, &exchange_buf),
        Err(ProcessError::InvalidAccountData)
    );
}
