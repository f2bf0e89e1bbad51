use escrow::address::Address;
use escrow::error::{EscrowError, Failure, FailureKind};
use escrow::state::{Escrow, ESCROW_LEN};
use solana_program::program_error::ProgramError;

fn address(fill: u8) -> Address {
    Address { bytes: [fill; 32] }
}

fn sample() -> Escrow {
    Escrow::new(address(1), address(2), address(3), 100, 50, address(4), 254)
}

#[test]
fn new_records_terms_and_marks_live() {
    let e = sample();
    assert!(e.is_initialized);
    assert_eq!(e.authority, address(1));
    assert_eq!(e.sell_mint, address(2));
    assert_eq!(e.buy_mint, address(3));
    assert_eq!(e.sell_amount, 100);
    assert_eq!(e.buy_amount, 50);
    assert_eq!(e.receive_account, address(4));
    assert_eq!(e.bump, 254);
}

#[test]
fn len_is_146() {
    assert_eq!(Escrow::len(), 146);
    assert_eq!(ESCROW_LEN, 146);
    assert_eq!(Escrow::len(), 1 + 32 + 32 + 32 + 8 + 8 + 32 + 1);
}

#[test]
fn to_bytes_has_the_fixed_layout() {
    let e = Escrow::new(address(0xAA), address(0xBB), address(0xCC), 0x0102030405060708, 50, address(0xDD), 7);
    let bytes = e.to_bytes();
    assert_eq!(bytes.len(), 146);
    assert_eq!(bytes[0], 1);
    assert_eq!(&bytes[1..33], &[0xAA; 32]);
    assert_eq!(&bytes[33..65], &[0xBB; 32]);
    assert_eq!(&bytes[65..97], &[0xCC; 32]);
    assert_eq!(&bytes[97..105], &[8, 7, 6, 5, 4, 3, 2, 1]);
    assert_eq!(&bytes[105..113], &[50, 0, 0, 0, 0, 0, 0, 0]);
    assert_eq!(&bytes[113..145], &[0xDD; 32]);
    assert_eq!(bytes[145], 7);
}

#[test]
fn to_bytes_is_what_borsh_writes_field_by_field() {
    let e = sample();
    let mut expected: Vec<u8> = Vec::new();
    expected.extend(borsh::to_vec(&e.is_initialized).unwrap());
    expected.extend(borsh::to_vec(&e.authority.bytes).unwrap());
    expected.extend(borsh::to_vec(&e.sell_mint.bytes).unwrap());
    expected.extend(borsh::to_vec(&e.buy_mint.bytes).unwrap());
    expected.extend(borsh::to_vec(&e.sell_amount).unwrap());
    expected.extend(borsh::to_vec(&e.buy_amount).unwrap());
    expected.extend(borsh::to_vec(&e.receive_account.bytes).unwrap());
    expected.extend(borsh::to_vec(&e.bump).unwrap());
    assert_eq!(e.to_bytes(), expected);
}

#[test]
fn try_from_slice_gives_back_what_was_stored() {
    let e = sample();
    assert_eq!(Escrow::try_from_slice(&e.to_bytes()), Some(e));
    let big = Escrow::new(address(9), address(8), address(7), u64::MAX, u64::MAX - 1, address(6), 0);
    assert_eq!(Escrow::try_from_slice(&big.to_bytes()), Some(big));
}

#[test]
fn try_from_slice_then_to_bytes_gives_the_bytes_back() {
    let mut data = vec![0u8; 146];
    for (i, b) in data.iter_mut().enumerate() {
        *b = (i * 7 % 251) as u8;
    }
    data[0] = 1;
    let e = Escrow::try_from_slice(&data).unwrap();
    assert_eq!(e.to_bytes(), data);
}

#[test]
fn try_from_slice_reads_storage_never_written_as_a_record_that_is_not_live() {
    let e = Escrow::try_from_slice(&[0u8; 146]).unwrap();
    assert!(!e.is_initialized);
    assert_eq!(e.authority, address(0));
    assert_eq!(e.sell_amount, 0);
    assert_eq!(e.bump, 0);
}

#[test]
fn try_from_slice_refuses_other_lengths() {
    let bytes = sample().to_bytes();
    assert_eq!(Escrow::try_from_slice(&[]), None);
    assert_eq!(Escrow::try_from_slice(&bytes[..145]), None);
    let mut longer = bytes.clone();
    longer.push(0);
    assert_eq!(Escrow::try_from_slice(&longer), None);
}

#[test]
fn try_from_slice_refuses_a_flag_that_is_not_0_or_1() {
    let mut bytes = sample().to_bytes();
    bytes[0] = 2;
    assert_eq!(Escrow::try_from_slice(&bytes), None);
    bytes[0] = 255;
    assert_eq!(Escrow::try_from_slice(&bytes), None);
}

#[test]
fn error_codes_count_from_zero() {
    assert_eq!(EscrowError::InvalidSigner.code(), 0);
    assert_eq!(EscrowError::InvalidProgram.code(), 1);
    assert_eq!(EscrowError::InvalidMint.code(), 2);
    assert_eq!(EscrowError::InvalidTokenAccount.code(), 3);
    assert_eq!(EscrowError::InvalidPda.code(), 4);
    assert_eq!(EscrowError::AdditionOverflow.code(), 5);
}

#[test]
fn error_codes_are_the_discriminants() {
    assert_eq!(EscrowError::InvalidSigner.code(), EscrowError::InvalidSigner as u32);
    assert_eq!(EscrowError::InvalidPda.code(), EscrowError::InvalidPda as u32);
    assert_eq!(EscrowError::AdditionOverflow.code(), EscrowError::AdditionOverflow as u32);
}

#[test]
fn error_messages() {
    assert_eq!(EscrowError::InvalidSigner.message(), "This account should be Signer");
    assert_eq!(EscrowError::InvalidProgram.message(), "Wrong Program Provided");
    assert_eq!(EscrowError::InvalidMint.message(), "Wrong Mint Provided");
    assert_eq!(EscrowError::InvalidTokenAccount.message(), "Wrong Token Account Provided");
    assert_eq!(EscrowError::InvalidPda.message(), "PDA is wrong");
    assert_eq!(EscrowError::AdditionOverflow.message(), "Overflow occured in addition");
}

#[test]
fn failure_kinds() {
    assert_eq!(Failure::Escrow(EscrowError::InvalidPda).kind(), FailureKind::Escrow(EscrowError::InvalidPda));
    assert_eq!(Failure::NotEnoughAccountKeys.kind(), FailureKind::NotEnoughAccountKeys);
    assert_eq!(Failure::MalformedRecord.kind(), FailureKind::MalformedRecord);
    assert_eq!(Failure::StorageFee.kind(), FailureKind::StorageFee);
    assert_eq!(Failure::Program(ProgramError::InvalidAccountData).kind(), FailureKind::Program);
}
