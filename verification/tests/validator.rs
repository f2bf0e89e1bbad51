use escrow::account::Account;
use escrow::address::Address;
use escrow::error::{EscrowError, Failure};
use escrow::instructions::close_balances;
use escrow::rent::required_balance;
use escrow::token::{AccountState, MintInfo, TokenAccountInfo};
use escrow::validator::{
    account_at, check_custody_address, check_holding, check_mint, check_program,
    check_rederived_address, check_signer, validate_holding, validate_mint, validate_program,
    validate_signer,
};
use solana_program::program_error::ProgramError;
use solana_program::program_option::COption;
use solana_program::program_pack::Pack;
use solana_program::pubkey::Pubkey;
use solana_program::rent::Rent;

fn address(fill: u8) -> Address {
    Address { bytes: [fill; 32] }
}

fn token_program() -> Address {
    Address { bytes: spl_token::ID.to_bytes() }
}

fn account(key: Address, owner: Address, data: Vec<u8>) -> Account {
    Account {
        key,
        lamports: 1_000_000,
        data,
        owner,
        rent_epoch: 0,
        is_signer: false,
        is_writable: true,
        executable: false,
    }
}

fn mint_data(initialized: bool, decimals: u8) -> Vec<u8> {
    let mint = spl_token::state::Mint {
        mint_authority: COption::Some(Pubkey::new_from_array([9; 32])),
        supply: 1_000,
        decimals,
        is_initialized: initialized,
        freeze_authority: COption::None,
    };
    let mut data = vec![0u8; spl_token::state::Mint::LEN];
    mint.pack_into_slice(&mut data);
    data
}

fn holding_data(state: spl_token::state::AccountState, amount: u64) -> Vec<u8> {
    let holding = spl_token::state::Account {
        mint: Pubkey::new_from_array([2; 32]),
        owner: Pubkey::new_from_array([1; 32]),
        amount,
        delegate: COption::None,
        state,
        is_native: COption::None,
        delegated_amount: 0,
        close_authority: COption::None,
    };
    let mut data = vec![0u8; spl_token::state::Account::LEN];
    holding.pack_into_slice(&mut data);
    data
}

fn rent_data(rate: u64, threshold: f64, burn: u8) -> Vec<u8> {
    let mut data = rate.to_le_bytes().to_vec();
    data.extend(threshold.to_le_bytes());
    data.push(burn);
    data
}

fn rent_account(data: Vec<u8>) -> Account {
    account(
        Address { bytes: solana_program::sysvar::rent::ID.to_bytes() },
        Address { bytes: solana_program::sysvar::ID.to_bytes() },
        data,
    )
}

#[test]
fn account_at_reads_a_position_or_runs_out() {
    let list = vec![account(address(1), address(0), vec![]), account(address(2), address(0), vec![])];
    assert_eq!(account_at(&list, 0), Ok(&list[0]));
    assert_eq!(account_at(&list, 1), Ok(&list[1]));
    assert_eq!(account_at(&list, 2), Err(Failure::NotEnoughAccountKeys));
    assert_eq!(account_at(&[], 0), Err(Failure::NotEnoughAccountKeys));
}

#[test]
fn signer_is_asked_to_have_signed() {
    let mut a = account(address(1), address(0), vec![]);
    assert_eq!(check_signer(&a), Err(Failure::Escrow(EscrowError::InvalidSigner)));
    a.is_signer = true;
    assert_eq!(check_signer(&a), Ok(()));
    let list = vec![a];
    assert_eq!(validate_signer(&list, 0), Ok(&list[0]));
    assert_eq!(validate_signer(&list, 1), Err(Failure::NotEnoughAccountKeys));
}

#[test]
fn mint_is_accepted_when_initialised_and_owned_by_the_token_program() {
    let a = account(address(2), token_program(), vec![]);
    let good = MintInfo { is_initialized: true, decimals: 6 };
    assert_eq!(check_mint(&a, Ok(good), &token_program()), Ok(good));
}

#[test]
fn mint_is_refused_when_not_initialised() {
    let a = account(address(2), token_program(), vec![]);
    let raw = MintInfo { is_initialized: false, decimals: 6 };
    assert_eq!(check_mint(&a, Ok(raw), &token_program()), Err(Failure::Escrow(EscrowError::InvalidMint)));
}

#[test]
fn mint_is_refused_when_owned_by_another_module() {
    let a = account(address(2), address(0), vec![]);
    let good = MintInfo { is_initialized: true, decimals: 6 };
    assert_eq!(check_mint(&a, Ok(good), &token_program()), Err(Failure::Escrow(EscrowError::InvalidMint)));
}

#[test]
fn mint_error_of_the_module_is_passed_on() {
    let a = account(address(2), address(0), vec![]);
    assert_eq!(
        check_mint(&a, Err(ProgramError::InvalidAccountData), &token_program()),
        Err(Failure::Program(ProgramError::InvalidAccountData))
    );
}

#[test]
fn validate_mint_reads_what_the_module_packed() {
    let list = vec![account(address(2), token_program(), mint_data(true, 9))];
    let (found, info) = validate_mint(&list, 0).unwrap();
    assert_eq!(found, &list[0]);
    assert_eq!(info, MintInfo { is_initialized: true, decimals: 9 });
    let other = vec![account(address(2), token_program(), mint_data(true, 2))];
    assert_eq!(validate_mint(&other, 0).unwrap().1.decimals, 2);
}

#[test]
fn validate_mint_passes_on_what_the_module_says_of_bad_data() {
    let short = vec![account(address(2), token_program(), vec![0u8; 81])];
    assert_eq!(validate_mint(&short, 0), Err(Failure::Program(ProgramError::InvalidAccountData)));
    let raw = vec![account(address(2), token_program(), mint_data(false, 9))];
    assert_eq!(validate_mint(&raw, 0), Err(Failure::Program(ProgramError::UninitializedAccount)));
    let mut data = mint_data(true, 9);
    data[45] = 2;
    let odd = vec![account(address(2), token_program(), data)];
    assert_eq!(validate_mint(&odd, 0), Err(Failure::Program(ProgramError::InvalidAccountData)));
    assert_eq!(validate_mint(&odd, 1), Err(Failure::NotEnoughAccountKeys));
}

#[test]
fn validate_mint_refuses_another_owner() {
    let list = vec![account(address(2), address(0), mint_data(true, 9))];
    assert_eq!(validate_mint(&list, 0), Err(Failure::Escrow(EscrowError::InvalidMint)));
}

#[test]
fn holding_is_accepted_unless_frozen_or_owned_by_another_module() {
    let a = account(address(3), token_program(), vec![]);
    let live = TokenAccountInfo { state: AccountState::Initialized };
    let frozen = TokenAccountInfo { state: AccountState::Frozen };
    let raw = TokenAccountInfo { state: AccountState::Uninitialized };
    assert!(!live.is_frozen());
    assert!(frozen.is_frozen());
    assert!(!raw.is_frozen());
    assert_eq!(check_holding(&a, Ok(live), &token_program()), Ok(()));
    assert_eq!(check_holding(&a, Ok(raw), &token_program()), Ok(()));
    assert_eq!(
        check_holding(&a, Ok(frozen), &token_program()),
        Err(Failure::Escrow(EscrowError::InvalidTokenAccount))
    );
    let b = account(address(3), address(0), vec![]);
    assert_eq!(
        check_holding(&b, Ok(live), &token_program()),
        Err(Failure::Escrow(EscrowError::InvalidTokenAccount))
    );
    assert_eq!(
        check_holding(&a, Err(ProgramError::UninitializedAccount), &token_program()),
        Err(Failure::Program(ProgramError::UninitializedAccount))
    );
}

#[test]
fn validate_holding_reads_what_the_module_packed() {
    let live = vec![account(address(3), token_program(), holding_data(spl_token::state::AccountState::Initialized, 5))];
    assert_eq!(validate_holding(&live, 0), Ok(&live[0]));
    let frozen = vec![account(address(3), token_program(), holding_data(spl_token::state::AccountState::Frozen, 5))];
    assert_eq!(validate_holding(&frozen, 0), Err(Failure::Escrow(EscrowError::InvalidTokenAccount)));
    let foreign = vec![account(address(3), address(0), holding_data(spl_token::state::AccountState::Initialized, 5))];
    assert_eq!(validate_holding(&foreign, 0), Err(Failure::Escrow(EscrowError::InvalidTokenAccount)));
    let raw = vec![account(address(3), token_program(), holding_data(spl_token::state::AccountState::Uninitialized, 0))];
    assert_eq!(validate_holding(&raw, 0), Err(Failure::Program(ProgramError::UninitializedAccount)));
    let short = vec![account(address(3), token_program(), vec![0u8; 164])];
    assert_eq!(validate_holding(&short, 0), Err(Failure::Program(ProgramError::InvalidAccountData)));
    assert_eq!(validate_holding(&short, 3), Err(Failure::NotEnoughAccountKeys));
}

#[test]
fn program_is_asked_to_be_the_one_expected() {
    let a = account(token_program(), address(0), vec![]);
    assert_eq!(check_program(&a, &token_program()), Ok(()));
    assert_eq!(check_program(&a, &address(0)), Err(Failure::Escrow(EscrowError::InvalidProgram)));
    let list = vec![a];
    assert_eq!(validate_program(&list, 0, &token_program()), Ok(&list[0]));
    assert_eq!(validate_program(&list, 0, &address(1)), Err(Failure::Escrow(EscrowError::InvalidProgram)));
    assert_eq!(validate_program(&list, 1, &token_program()), Err(Failure::NotEnoughAccountKeys));
}

#[test]
fn custody_address_is_asked_to_be_the_derived_one() {
    assert_eq!(check_custody_address(&address(5), Some((address(5), 250))), Ok(250));
    assert_eq!(
        check_custody_address(&address(5), Some((address(6), 250))),
        Err(Failure::Escrow(EscrowError::InvalidPda))
    );
    assert_eq!(check_custody_address(&address(5), None), Err(Failure::Escrow(EscrowError::InvalidPda)));
    assert_eq!(check_rederived_address(&address(5), Some(address(5))), Ok(()));
    assert_eq!(
        check_rederived_address(&address(5), Some(address(6))),
        Err(Failure::Escrow(EscrowError::InvalidPda))
    );
    assert_eq!(check_rederived_address(&address(5), None), Err(Failure::Escrow(EscrowError::InvalidPda)));
}

#[test]
fn storage_fee_of_a_record_under_the_usual_rules() {
    let rules = rent_account(rent_data(3480, 2.0, 50));
    assert_eq!(required_balance(&rules, 146), Ok((128 + 146) * 3480 * 2));
    assert_eq!(required_balance(&rules, 146), Ok(1_907_040));
    assert_eq!(required_balance(&rules, 146), Ok(Rent::default().minimum_balance(146)));
    assert_eq!(required_balance(&rules, 0), Ok(128 * 3480 * 2));
}

#[test]
fn storage_fee_follows_the_rules_in_the_account() {
    assert_eq!(required_balance(&rent_account(rent_data(10, 1.5, 0)), 72), Ok(3000));
    assert_eq!(required_balance(&rent_account(rent_data(0, 2.0, 0)), 146), Ok(0));
    assert_eq!(required_balance(&rent_account(rent_data(1, 0.0, 0)), 146), Ok(0));
}

#[test]
fn storage_fee_needs_the_account_of_the_rules() {
    let mut elsewhere = rent_account(rent_data(3480, 2.0, 50));
    elsewhere.key = address(1);
    assert_eq!(required_balance(&elsewhere, 146), Err(Failure::Program(ProgramError::InvalidArgument)));
    let short = rent_account(vec![0u8; 16]);
    assert_eq!(required_balance(&short, 146), Err(Failure::Program(ProgramError::InvalidArgument)));
}

#[test]
fn storage_fee_that_does_not_fit_is_refused() {
    let steep = rent_account(rent_data(u64::MAX / 274 + 1, 2.0, 50));
    assert_eq!(required_balance(&steep, 146), Err(Failure::StorageFee));
    let edge = rent_account(rent_data(u64::MAX / 274, 1.0, 50));
    assert!(required_balance(&edge, 146).is_ok());
    let any = rent_account(rent_data(u64::MAX, 2.0, 50));
    assert_eq!(required_balance(&any, 146), Err(Failure::StorageFee));
    assert_eq!(required_balance(&rent_account(rent_data(0, 2.0, 0)), usize::MAX), Err(Failure::StorageFee));
}

#[test]
fn closing_credits_the_whole_balance() {
    assert_eq!(close_balances(10, 5), Ok((15, 0)));
    assert_eq!(close_balances(0, 0), Ok((0, 0)));
    assert_eq!(close_balances(u64::MAX - 5, 5), Ok((u64::MAX, 0)));
}

#[test]
fn closing_refuses_a_sum_that_does_not_fit() {
    assert_eq!(close_balances(u64::MAX, 1), Err(EscrowError::AdditionOverflow));
    assert_eq!(close_balances(u64::MAX - 5, 6), Err(EscrowError::AdditionOverflow));
    assert_eq!(close_balances(1, u64::MAX), Err(EscrowError::AdditionOverflow));
}
