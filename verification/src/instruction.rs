//! What a transition asks of other modules, and the instructions that carry the requests.

use crate::address::Address;
use crate::derivation::{find_program_address, search_from, seeds_view};
use crate::error::{EscrowError, Failure, FailureKind};
use crate::programs::{associated_token_program, associated_token_program_id, token_program_id};
use solana_program::program_error::ProgramError;
use solana_program::system_instruction;
use vstd::prelude::*;

verus! {

/// How an instruction refers to one account.
#[derive(Clone, Copy, Debug, PartialEq, Eq)]
pub struct AccountMeta {
    /// The address of the account.
    pub pubkey: Address,
    /// Whether the instruction needs the account's signature.
    pub is_signer: bool,
    /// Whether the instruction may change the account.
    pub is_writable: bool,
}

/// An instruction for another module.
#[derive(Clone, Debug, PartialEq, Eq)]
pub struct Instruction {
    /// The module that carries it out.
    pub program_id: Address,
    /// The accounts it works on.
    pub accounts: Vec<AccountMeta>,
    /// What it asks, in the module's own encoding.
    pub data: Vec<u8>,
}

/// An instruction with its lists as sequences.
pub struct InstructionView {
    pub program_id: Seq<u8>,
    pub accounts: Seq<AccountMeta>,
    pub data: Seq<u8>,
}

impl View for Instruction {
    type V = InstructionView;

    open spec fn view(&self) -> InstructionView {
        InstructionView {
            program_id: self.program_id@,
            accounts: self.accounts@,
            data: self.data@,
        }
    }
}

/// The instruction that `system_instruction::create_account` builds.
pub uninterp spec fn create_account_built(
    from: Seq<u8>,
    to: Seq<u8>,
    lamports: u64,
    space: u64,
    owner: Seq<u8>,
) -> InstructionView;

/// The instruction that `create_associated_token_account` of the associated-account module
/// builds.
pub uninterp spec fn create_associated_token_account_built(
    funder: Seq<u8>,
    wallet: Seq<u8>,
    mint: Seq<u8>,
    token_program: Seq<u8>,
) -> InstructionView;

/// The instruction that `transfer_checked` of the asset-ledger module builds for one signer, or
/// `None` where it reports an error.
pub uninterp spec fn transfer_checked_built(
    token_program: Seq<u8>,
    source: Seq<u8>,
    mint: Seq<u8>,
    destination: Seq<u8>,
    authority: Seq<u8>,
    signer: Seq<u8>,
    amount: u64,
    decimals: u8,
) -> Option<InstructionView>;

/// The instruction that `close_account` of the asset-ledger module builds for one signer, or
/// `None` where it reports an error.
pub uninterp spec fn close_account_built(
    token_program: Seq<u8>,
    account: Seq<u8>,
    destination: Seq<u8>,
    owner: Seq<u8>,
    signer: Seq<u8>,
) -> Option<InstructionView>;

/// The seeds from which the associated-account module derives the address of the holding
/// account of `wallet` for `mint`.
pub open spec fn associated_seeds(wallet: Seq<u8>, token_program: Seq<u8>, mint: Seq<u8>) -> Seq<
    Seq<u8>,
> {
    seq![wallet, token_program, mint]
}

/// Calls `solana_program::system_instruction::create_account`. The contract names the result.
#[verifier::external_body]
pub(crate) fn build_create_account(
    from: &Address,
    to: &Address,
    lamports: u64,
    space: u64,
    owner: &Address,
) -> (ix: Instruction)
    ensures
        ix@ == create_account_built(from@, to@, lamports, space, owner@),
{
    let (from, to, owner) = (from.bytes.into(), to.bytes.into(), owner.bytes.into());
    let built = system_instruction::create_account(&from, &to, lamports, space, &owner);
    let metas = built.accounts.iter().map(|m| AccountMeta {
        pubkey: Address { bytes: m.pubkey.to_bytes() },
        is_signer: m.is_signer,
        is_writable: m.is_writable,
    });
    let program_id = Address { bytes: built.program_id.to_bytes() };
    Instruction { program_id, accounts: metas.collect(), data: built.data }
}

/// Calls `spl_associated_token_account::instruction::create_associated_token_account`. That
/// function derives the address of the new account with `Pubkey::find_program_address`, from
/// the wallet, the asset-ledger module and the asset, and panics where no bump derives one: the
/// contract asks that one does. It names the result.
#[verifier::external_body]
pub(crate) fn build_create_associated_token_account(
    funder: &Address,
    wallet: &Address,
    mint: &Address,
    token_program: &Address,
) -> (ix: Instruction)
    requires
        search_from(
            associated_seeds(wallet@, token_program@, mint@),
            associated_token_program_id(),
            255,
        ) is Some,
    ensures
        ix@ == create_associated_token_account_built(funder@, wallet@, mint@, token_program@),
{
    let (funder, wallet) = (funder.bytes.into(), wallet.bytes.into());
    let (mint, token_program) = (mint.bytes.into(), token_program.bytes.into());
    let built = spl_associated_token_account::instruction::create_associated_token_account(
        &funder, &wallet, &mint, &token_program,
    );
    let metas = built.accounts.iter().map(|m| AccountMeta {
        pubkey: Address { bytes: m.pubkey.to_bytes() },
        is_signer: m.is_signer,
        is_writable: m.is_writable,
    });
    let program_id = Address { bytes: built.program_id.to_bytes() };
    Instruction { program_id, accounts: metas.collect(), data: built.data }
}

/// Calls `spl_token::instruction::transfer_checked` with one signer. The contract names the
/// result, and says that the call fails exactly where `token_program` is not the asset-ledger
/// module.
#[verifier::external_body]
pub(crate) fn build_transfer_checked(
    token_program: &Address,
    source: &Address,
    mint: &Address,
    destination: &Address,
    authority: &Address,
    signer: &Address,
    amount: u64,
    decimals: u8,
) -> (r: Result<Instruction, ProgramError>)
    ensures
        r matches Ok(ix) ==> transfer_checked_built(
            token_program@,
            source@,
            mint@,
            destination@,
            authority@,
            signer@,
            amount,
            decimals,
        ) == Some(ix@),
        r is Err ==> transfer_checked_built(
            token_program@,
            source@,
            mint@,
            destination@,
            authority@,
            signer@,
            amount,
            decimals,
        ) is None,
        r is Ok <==> token_program@ == token_program_id(),
{
    let (token_program, source) = (token_program.bytes.into(), source.bytes.into());
    let (mint, destination) = (mint.bytes.into(), destination.bytes.into());
    let (authority, signers) = (authority.bytes.into(), [&signer.bytes.into()]);
    let built = spl_token::instruction::transfer_checked(
        &token_program, &source, &mint, &destination, &authority, &signers, amount, decimals,
    )?;
    let metas = built.accounts.iter().map(|m| AccountMeta {
        pubkey: Address { bytes: m.pubkey.to_bytes() },
        is_signer: m.is_signer,
        is_writable: m.is_writable,
    });
    let program_id = Address { bytes: built.program_id.to_bytes() };
    Ok(Instruction { program_id, accounts: metas.collect(), data: built.data })
}

/// Calls `spl_token::instruction::close_account` with one signer. The contract names the
/// result, and says that the call fails exactly where `token_program` is not the asset-ledger
/// module.
#[verifier::external_body]
pub(crate) fn build_close_account(
    token_program: &Address,
    account: &Address,
    destination: &Address,
    owner: &Address,
    signer: &Address,
) -> (r: Result<Instruction, ProgramError>)
    ensures
        r matches Ok(ix) ==> close_account_built(
            token_program@,
            account@,
            destination@,
            owner@,
            signer@,
        ) == Some(ix@),
        r is Err ==> close_account_built(token_program@, account@, destination@, owner@, signer@)
            is None,
        r is Ok <==> token_program@ == token_program_id(),
{
    let (token_program, account) = (token_program.bytes.into(), account.bytes.into());
    let (destination, owner) = (destination.bytes.into(), owner.bytes.into());
    let signers = [&signer.bytes.into()];
    let built = spl_token::instruction::close_account(
        &token_program, &account, &destination, &owner, &signers,
    )?;
    let metas = built.accounts.iter().map(|m| AccountMeta {
        pubkey: Address { bytes: m.pubkey.to_bytes() },
        is_signer: m.is_signer,
        is_writable: m.is_writable,
    });
    let program_id = Address { bytes: built.program_id.to_bytes() };
    Ok(Instruction { program_id, accounts: metas.collect(), data: built.data })
}

/// What a transition asks of another module.
#[derive(Clone, Copy, Debug, PartialEq, Eq)]
pub enum Request {
    /// The system module creates `account` with `space` bytes of storage, owned by `owner`, and
    /// moves `lamports` from `payer` to it.
    CreateAccount { payer: Address, account: Address, lamports: u64, space: u64, owner: Address },
    /// The associated-account module creates the holding account of `wallet` for the asset
    /// `mint`, paid by `payer`.
    CreateAssociatedTokenAccount {
        payer: Address,
        wallet: Address,
        mint: Address,
        token_program: Address,
    },
    /// The asset-ledger module moves `amount` of the asset `mint` from `source` to
    /// `destination` on the word of `authority`, if the asset has `decimals` decimal places.
    TransferChecked {
        token_program: Address,
        source: Address,
        mint: Address,
        destination: Address,
        authority: Address,
        amount: u64,
        decimals: u8,
    },
    /// The asset-ledger module closes the holding account `account` on the word of `owner` and
    /// moves its reserved balance to `destination`.
    CloseAccount { token_program: Address, account: Address, destination: Address, owner: Address },
}

impl Request {
    /// The instruction that carries the request, as the module that takes it builds it; or how
    /// building it fails. The authority of a transfer and the owner of an account to close are
    /// named as the one signer.
    pub open spec fn built(self) -> Result<InstructionView, FailureKind> {
        match self {
            Request::CreateAccount { payer, account, lamports, space, owner } => Ok(
                create_account_built(payer@, account@, lamports, space, owner@),
            ),
            Request::CreateAssociatedTokenAccount { payer, wallet, mint, token_program } => {
                if search_from(
                    associated_seeds(wallet@, token_program@, mint@),
                    associated_token_program_id(),
                    255,
                ) is None {
                    Err(FailureKind::Escrow(EscrowError::InvalidPda))
                } else {
                    Ok(
                        create_associated_token_account_built(
                            payer@,
                            wallet@,
                            mint@,
                            token_program@,
                        ),
                    )
                }
            },
            Request::TransferChecked {
                token_program,
                source,
                mint,
                destination,
                authority,
                amount,
                decimals,
            } => match transfer_checked_built(
                token_program@,
                source@,
                mint@,
                destination@,
                authority@,
                authority@,
                amount,
                decimals,
            ) {
                Some(ix) => Ok(ix),
                None => Err(FailureKind::Program),
            },
            Request::CloseAccount { token_program, account, destination, owner } => {
                match close_account_built(token_program@, account@, destination@, owner@, owner@) {
                    Some(ix) => Ok(ix),
                    None => Err(FailureKind::Program),
                }
            },
        }
    }

    /// Whether the request is one to the asset-ledger module, addressed to `token_program`.
    pub open spec fn addressed_to(self, token_program: Seq<u8>) -> bool {
        match self {
            Request::TransferChecked { token_program: to, .. } => to@ == token_program,
            Request::CloseAccount { token_program: to, .. } => to@ == token_program,
            _ => false,
        }
    }

    /// Whether the request is one to the asset-ledger module.
    pub open spec fn for_token_program(self) -> bool {
        self is TransferChecked || self is CloseAccount
    }

    /// Builds the instruction that carries the request. A request to create an account is
    /// always built. One to create an associated account is refused where no address can be
    /// derived for that account. One to the asset-ledger module is built exactly where it is
    /// addressed to that module; otherwise the module's error is passed on.
    pub fn instruction(&self) -> (r: Result<Instruction, Failure>)
        ensures
            self.built() matches Ok(view) ==> r matches Ok(ix) && ix@ == view,
            self.built() matches Err(kind) ==> r matches Err(f) && f@ == kind,
            self.for_token_program() ==> (r is Ok <==> self.addressed_to(token_program_id())),
    {
        match self {
            Request::CreateAccount { payer, account, lamports, space, owner } => Ok(
                build_create_account(payer, account, *lamports, *space, owner),
            ),
            Request::CreateAssociatedTokenAccount { payer, wallet, mint, token_program } => {
                let mut seeds: Vec<Vec<u8>> = Vec::new();
                seeds.push(wallet.to_vec());
                seeds.push(token_program.to_vec());
                seeds.push(mint.to_vec());
                assert(seeds_view(seeds@) =~= associated_seeds(wallet@, token_program@, mint@));
                match find_program_address(&seeds, &associated_token_program()) {
                    None => Err(Failure::Escrow(EscrowError::InvalidPda)),
                    Some(_) => Ok(
                        build_create_associated_token_account(payer, wallet, mint, token_program),
                    ),
                }
            },
            Request::TransferChecked {
                token_program,
                source,
                mint,
                destination,
                authority,
                amount,
                decimals,
            } => match build_transfer_checked(
                token_program,
                source,
                mint,
                destination,
                authority,
                authority,
                *amount,
                *decimals,
            ) {
                Ok(ix) => Ok(ix),
                Err(e) => Err(Failure::Program(e)),
            },
            Request::CloseAccount { token_program, account, destination, owner } => {
                match build_close_account(token_program, account, destination, owner, owner) {
                    Ok(ix) => Ok(ix),
                    Err(e) => Err(Failure::Program(e)),
                }
            },
        }
    }
}

} // verus!
