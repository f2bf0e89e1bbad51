//! The storage fee: the balance that keeps an account alive.

use crate::account::Account;
use crate::error::{Failure, FailureKind};
use solana_program::account_info::AccountInfo;
use solana_program::program_error::ProgramError;
use solana_program::pubkey::Pubkey;
use solana_program::sysvar::rent::Rent;
use solana_program::sysvar::Sysvar;
use vstd::prelude::*;

verus! {

/// The bytes that the host counts for every account on top of its data.
pub const ACCOUNT_STORAGE_OVERHEAD: u64 = 128;

/// The fee rate per byte and year that `Rent::from_account_info` reads from an account with
/// this address and data, or `None` where it reports an error.
pub uninterp spec fn rent_rate_loaded(key: Seq<u8>, data: Seq<u8>) -> Option<u64>;

/// What `Rent::minimum_balance` returns for `data_len` bytes on the fee rules that
/// `Rent::from_account_info` reads from an account with this address and data, or `None`
/// where the rules cannot be read.
pub uninterp spec fn rent_minimum_loaded(key: Seq<u8>, data: Seq<u8>, data_len: usize) -> Option<
    u64,
>;

/// Calls `Rent::from_account_info` on the account and returns the rate per byte and year of
/// the rules it reads. The contract names the result.
#[verifier::external_body]
pub(crate) fn rent_rate(account: &Account) -> (r: Result<u64, ProgramError>)
    ensures
        r matches Ok(rate) ==> rent_rate_loaded(account.key@, account.data@) == Some(rate),
        r is Err ==> rent_rate_loaded(account.key@, account.data@) is None,
{
    let key = Pubkey::new_from_array(account.key.bytes);
    let owner = Pubkey::new_from_array(account.owner.bytes);
    let (mut lamports, mut data) = (account.lamports, account.data.clone());
    let (signer, writable) = (account.is_signer, account.is_writable);
    let (executable, epoch) = (account.executable, account.rent_epoch);
    let info = AccountInfo::new(
        &key, signer, writable, &mut lamports, &mut data, &owner, executable, epoch,
    );
    Ok(Rent::from_account_info(&info)?.lamports_per_byte_year)
}

/// Calls `Rent::from_account_info` on the account and `Rent::minimum_balance` on the rules it
/// reads. `minimum_balance` adds the overhead to the data length and multiplies the sum by the
/// rate, both in 64 bits, so the contract asks that sum and product fit. It names the result,
/// and says that the rules can be read exactly where their rate can.
#[verifier::external_body]
pub(crate) fn rent_minimum_balance(account: &Account, data_len: usize) -> (r: Result<
    u64,
    ProgramError,
>)
    requires
        ACCOUNT_STORAGE_OVERHEAD + data_len <= u64::MAX,
        rent_rate_loaded(account.key@, account.data@) matches Some(rate) ==> (
        ACCOUNT_STORAGE_OVERHEAD + data_len) * rate <= u64::MAX,
    ensures
        r matches Ok(minimum) ==> rent_minimum_loaded(account.key@, account.data@, data_len)
            == Some(minimum),
        r is Err ==> rent_minimum_loaded(account.key@, account.data@, data_len) is None,
        r is Ok <==> rent_rate_loaded(account.key@, account.data@) is Some,
{
    let key = Pubkey::new_from_array(account.key.bytes);
    let owner = Pubkey::new_from_array(account.owner.bytes);
    let (mut lamports, mut data) = (account.lamports, account.data.clone());
    let (signer, writable) = (account.is_signer, account.is_writable);
    let (executable, epoch) = (account.executable, account.rent_epoch);
    let info = AccountInfo::new(
        &key, signer, writable, &mut lamports, &mut data, &owner, executable, epoch,
    );
    Ok(Rent::from_account_info(&info)?.minimum_balance(data_len))
}

/// The balance that keeps an account with `data_len` bytes of data alive under the fee rules
/// stored in `rent_account`; or why there is none: the rules cannot be read, or the bytes
/// counted for the account, or their number times the rate per byte, do not fit in 64 bits.
pub open spec fn storage_fee(rent_account: Account, data_len: usize) -> Result<u64, FailureKind> {
    match rent_rate_loaded(rent_account.key@, rent_account.data@) {
        None => Err(FailureKind::Program),
        Some(rate) => if ACCOUNT_STORAGE_OVERHEAD + data_len > u64::MAX || (
        ACCOUNT_STORAGE_OVERHEAD + data_len) * rate > u64::MAX {
            Err(FailureKind::StorageFee)
        } else {
            Ok(rent_minimum_loaded(rent_account.key@, rent_account.data@, data_len)->Some_0)
        },
    }
}

/// Computes the balance that keeps an account with `data_len` bytes of data alive, under the
/// fee rules stored in `rent_account`.
pub fn required_balance(rent_account: &Account, data_len: usize) -> (r: Result<u64, Failure>)
    ensures
        storage_fee(*rent_account, data_len) matches Ok(fee) ==> r == Ok::<u64, Failure>(fee),
        storage_fee(*rent_account, data_len) matches Err(kind) ==> r matches Err(f) && f@ == kind,
{
    let rate = match rent_rate(rent_account) {
        Ok(rate) => rate,
        Err(e) => { return Err(Failure::Program(e)); },
    };
    let counted = match ACCOUNT_STORAGE_OVERHEAD.checked_add(data_len as u64) {
        Some(counted) => counted,
        None => { return Err(Failure::StorageFee); },
    };
    if counted.checked_mul(rate).is_none() {
        return Err(Failure::StorageFee);
    }
    match rent_minimum_balance(rent_account, data_len) {
        Ok(fee) => Ok(fee),
        Err(e) => Err(Failure::Program(e)),
    }
}

} // verus!
