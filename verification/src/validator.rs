//! The checks that gate a transition: each account is what its position says.

use crate::account::Account;
use crate::address::Address;
use crate::error::{EscrowError, Failure, FailureKind};
use crate::programs::{token_program, token_program_id};
use crate::token::{
    mint_unpacked, token_account_unpacked, unpack_mint, unpack_token_account, AccountState,
    MintInfo, TokenAccountInfo,
};
use solana_program::program_error::ProgramError;
use vstd::prelude::*;

verus! {

/// The first of two checks that fails.
pub open spec fn or_else(first: Option<FailureKind>, second: Option<FailureKind>) -> Option<
    FailureKind,
> {
    if first is Some {
        first
    } else {
        second
    }
}

/// Fails where the list has no account at position `i`.
pub open spec fn presence_failure(accounts: Seq<Account>, i: int) -> Option<FailureKind> {
    if i < accounts.len() {
        None
    } else {
        Some(FailureKind::NotEnoughAccountKeys)
    }
}

/// Fails where the account at `i` is missing or has not signed.
pub open spec fn signer_failure(accounts: Seq<Account>, i: int) -> Option<FailureKind> {
    if accounts.len() <= i {
        Some(FailureKind::NotEnoughAccountKeys)
    } else if !accounts[i].is_signer {
        Some(FailureKind::Escrow(EscrowError::InvalidSigner))
    } else {
        None
    }
}

/// Whether an asset definition, as read from an account, is initialised and the account
/// belongs to the asset-ledger module.
pub open spec fn mint_accepted(owner: Seq<u8>, mint: MintInfo, token_program: Seq<u8>) -> bool {
    mint.is_initialized && owner == token_program
}

/// Whether a holding account, as read from an account, is not frozen and the account belongs
/// to the asset-ledger module.
pub open spec fn holding_accepted(
    owner: Seq<u8>,
    holding: TokenAccountInfo,
    token_program: Seq<u8>,
) -> bool {
    holding.state != AccountState::Frozen && owner == token_program
}

/// Fails where the account at `i` is missing, where its data cannot be read as an asset
/// definition, or where the definition is not accepted.
pub open spec fn mint_failure(accounts: Seq<Account>, i: int) -> Option<FailureKind> {
    if accounts.len() <= i {
        Some(FailureKind::NotEnoughAccountKeys)
    } else {
        match mint_unpacked(accounts[i].data@) {
            None => Some(FailureKind::Program),
            Some(mint) => if mint_accepted(accounts[i].owner@, mint, token_program_id()) {
                None
            } else {
                Some(FailureKind::Escrow(EscrowError::InvalidMint))
            },
        }
    }
}

/// Fails where the account at `i` is missing, where its data cannot be read as a holding
/// account, or where the holding account is not accepted.
pub open spec fn holding_failure(accounts: Seq<Account>, i: int) -> Option<FailureKind> {
    if accounts.len() <= i {
        Some(FailureKind::NotEnoughAccountKeys)
    } else {
        match token_account_unpacked(accounts[i].data@) {
            None => Some(FailureKind::Program),
            Some(holding) => if holding_accepted(
                accounts[i].owner@,
                holding,
                token_program_id(),
            ) {
                None
            } else {
                Some(FailureKind::Escrow(EscrowError::InvalidTokenAccount))
            },
        }
    }
}

/// Whether the account at `i` is a holding account that is frozen or does not belong to the
/// asset-ledger module.
pub open spec fn bad_holding(accounts: Seq<Account>, i: int) -> bool {
    &&& 0 <= i < accounts.len()
    &&& token_account_unpacked(accounts[i].data@) matches Some(holding)
    &&& !holding_accepted(accounts[i].owner@, holding, token_program_id())
}

/// Fails where the account at `i` is missing or is not the module `expected`.
pub open spec fn program_failure(accounts: Seq<Account>, i: int, expected: Seq<u8>) -> Option<
    FailureKind,
> {
    if accounts.len() <= i {
        Some(FailureKind::NotEnoughAccountKeys)
    } else if accounts[i].key@ != expected {
        Some(FailureKind::Escrow(EscrowError::InvalidProgram))
    } else {
        None
    }
}

/// The bump of a derivation whose address is the one supplied; none where nothing was derived
/// or the address is another.
pub open spec fn custody_bump(supplied: Seq<u8>, derived: Option<(Seq<u8>, u8)>) -> Option<u8> {
    match derived {
        Some((address, bump)) => if supplied == address {
            Some(bump)
        } else {
            None
        },
        None => None,
    }
}

/// The account at position `i` of the list.
pub fn account_at(accounts: &[Account], i: usize) -> (r: Result<&Account, Failure>)
    ensures
        i < accounts@.len() ==> r == Ok::<&Account, Failure>(&accounts@[i as int]),
        i >= accounts@.len() ==> r == Err::<&Account, Failure>(Failure::NotEnoughAccountKeys),
{
    if i < accounts.len() {
        Ok(&accounts[i])
    } else {
        Err(Failure::NotEnoughAccountKeys)
    }
}

/// Accepts an account that has signed the transaction.
pub fn check_signer(account: &Account) -> (r: Result<(), Failure>)
    ensures
        account.is_signer ==> r == Ok::<(), Failure>(()),
        !account.is_signer ==> r == Err::<(), Failure>(
            Failure::Escrow(EscrowError::InvalidSigner),
        ),
{
    if !account.is_signer {
        return Err(Failure::Escrow(EscrowError::InvalidSigner));
    }
    Ok(())
}

/// Decides on an asset definition, given what the asset-ledger module read from the account's
/// data: an error of the module is passed on, and a definition is accepted where it is
/// initialised and the account belongs to `token_program`.
pub fn check_mint(
    account: &Account,
    unpacked: Result<MintInfo, ProgramError>,
    token_program: &Address,
) -> (r: Result<MintInfo, Failure>)
    ensures
        match unpacked {
            Err(e) => r == Err::<MintInfo, Failure>(Failure::Program(e)),
            Ok(mint) => if mint_accepted(account.owner@, mint, token_program@) {
                r == Ok::<MintInfo, Failure>(mint)
            } else {
                r == Err::<MintInfo, Failure>(Failure::Escrow(EscrowError::InvalidMint))
            },
        },
{
    match unpacked {
        Err(e) => Err(Failure::Program(e)),
        Ok(mint) => {
            if !mint.is_initialized || !account.owner.same(token_program) {
                Err(Failure::Escrow(EscrowError::InvalidMint))
            } else {
                Ok(mint)
            }
        },
    }
}

/// Decides on a holding account, given what the asset-ledger module read from the account's
/// data: an error of the module is passed on, and a holding account is accepted where it is
/// not frozen and the account belongs to `token_program`.
pub fn check_holding(
    account: &Account,
    unpacked: Result<TokenAccountInfo, ProgramError>,
    token_program: &Address,
) -> (r: Result<(), Failure>)
    ensures
        match unpacked {
            Err(e) => r == Err::<(), Failure>(Failure::Program(e)),
            Ok(holding) => if holding_accepted(account.owner@, holding, token_program@) {
                r == Ok::<(), Failure>(())
            } else {
                r == Err::<(), Failure>(Failure::Escrow(EscrowError::InvalidTokenAccount))
            },
        },
{
    match unpacked {
        Err(e) => Err(Failure::Program(e)),
        Ok(holding) => {
            if holding.is_frozen() || !account.owner.same(token_program) {
                Err(Failure::Escrow(EscrowError::InvalidTokenAccount))
            } else {
                Ok(())
            }
        },
    }
}

/// Accepts an account whose address is that of the module `expected`.
pub fn check_program(account: &Account, expected: &Address) -> (r: Result<(), Failure>)
    ensures
        account.key@ == expected@ ==> r == Ok::<(), Failure>(()),
        account.key@ != expected@ ==> r == Err::<(), Failure>(
            Failure::Escrow(EscrowError::InvalidProgram),
        ),
{
    if !account.key.same(expected) {
        return Err(Failure::Escrow(EscrowError::InvalidProgram));
    }
    Ok(())
}

/// Decides on a custody address that the caller supplied, given what the derivation returned:
/// accepted, with the bump, where an address was derived and it is the one supplied.
pub fn check_custody_address(supplied: &Address, derived: Option<(Address, u8)>) -> (r: Result<
    u8,
    Failure,
>)
    ensures
        match derived {
            Some((address, bump)) => if supplied@ == address@ {
                r == Ok::<u8, Failure>(bump)
            } else {
                r == Err::<u8, Failure>(Failure::Escrow(EscrowError::InvalidPda))
            },
            None => r == Err::<u8, Failure>(Failure::Escrow(EscrowError::InvalidPda)),
        },
{
    match derived {
        Some((address, bump)) => {
            if supplied.same(&address) {
                Ok(bump)
            } else {
                Err(Failure::Escrow(EscrowError::InvalidPda))
            }
        },
        None => Err(Failure::Escrow(EscrowError::InvalidPda)),
    }
}

/// Decides on a custody address that the caller supplied, given what deriving it again with a
/// known bump returned: accepted where an address was derived and it is the one supplied.
pub fn check_rederived_address(supplied: &Address, rederived: Option<Address>) -> (r: Result<
    (),
    Failure,
>)
    ensures
        rederived matches Some(address) && supplied@ == address@ ==> r == Ok::<(), Failure>(()),
        !(rederived matches Some(address) && supplied@ == address@) ==> r == Err::<(), Failure>(
            Failure::Escrow(EscrowError::InvalidPda),
        ),
{
    match rederived {
        Some(address) => {
            if supplied.same(&address) {
                Ok(())
            } else {
                Err(Failure::Escrow(EscrowError::InvalidPda))
            }
        },
        None => Err(Failure::Escrow(EscrowError::InvalidPda)),
    }
}

/// Checks that the account at `i` has signed, and returns it.
pub fn validate_signer(accounts: &[Account], i: usize) -> (r: Result<&Account, Failure>)
    ensures
        signer_failure(accounts@, i as int) matches Some(kind) ==> r matches Err(f) && f@ == kind,
        signer_failure(accounts@, i as int) is None ==> r == Ok::<&Account, Failure>(
            &accounts@[i as int],
        ),
{
    let account = match account_at(accounts, i) {
        Ok(a) => a,
        Err(f) => { return Err(f); },
    };
    match check_signer(account) {
        Ok(()) => Ok(account),
        Err(f) => Err(f),
    }
}

/// Reads the asset definition in the account at `i` and checks it.
pub fn validate_mint(accounts: &[Account], i: usize) -> (r: Result<(&Account, MintInfo), Failure>)
    ensures
        mint_failure(accounts@, i as int) matches Some(kind) ==> r matches Err(f) && f@ == kind,
        mint_failure(accounts@, i as int) is None ==> r == Ok::<(&Account, MintInfo), Failure>(
            (&accounts@[i as int], mint_unpacked(accounts@[i as int].data@)->Some_0),
        ),
{
    let account = match account_at(accounts, i) {
        Ok(a) => a,
        Err(f) => { return Err(f); },
    };
    let unpacked = unpack_mint(account.data.as_slice());
    match check_mint(account, unpacked, &token_program()) {
        Ok(mint) => Ok((account, mint)),
        Err(f) => Err(f),
    }
}

/// Reads the holding account in the account at `i` and checks it.
pub fn validate_holding(accounts: &[Account], i: usize) -> (r: Result<&Account, Failure>)
    ensures
        holding_failure(accounts@, i as int) matches Some(kind) ==> r matches Err(f) && f@ == kind,
        holding_failure(accounts@, i as int) is None ==> r == Ok::<&Account, Failure>(
            &accounts@[i as int],
        ),
{
    let account = match account_at(accounts, i) {
        Ok(a) => a,
        Err(f) => { return Err(f); },
    };
    let unpacked = unpack_token_account(account.data.as_slice());
    match check_holding(account, unpacked, &token_program()) {
        Ok(()) => Ok(account),
        Err(f) => Err(f),
    }
}

/// Checks that the account at `i` is the module `expected`, and returns it.
pub fn validate_program<'a>(accounts: &'a [Account], i: usize, expected: &Address) -> (r: Result<
    &'a Account,
    Failure,
>)
    ensures
        program_failure(accounts@, i as int, expected@) matches Some(kind) ==> r matches Err(f)
            && f@ == kind,
        program_failure(accounts@, i as int, expected@) is None ==> r == Ok::<&Account, Failure>(
            &accounts@[i as int],
        ),
{
    let account = match account_at(accounts, i) {
        Ok(a) => a,
        Err(f) => { return Err(f); },
    };
    match check_program(account, expected) {
        Ok(()) => Ok(account),
        Err(f) => Err(f),
    }
}

} // verus!
