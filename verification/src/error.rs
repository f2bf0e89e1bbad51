//! The failures of the two transitions.

use solana_program::program_error::ProgramError;
use vstd::prelude::*;

verus! {

/// The checks of the protocol itself, each with the code under which the host reports it.
#[derive(Clone, Copy, Debug, PartialEq, Eq, Structural)]
pub enum EscrowError {
    /// An account that has to sign the transaction did not.
    InvalidSigner,
    /// A module account is not the well-known module expected at its position.
    InvalidProgram,
    /// An asset definition is not initialised or does not belong to the asset-ledger module.
    InvalidMint,
    /// A holding account is frozen or does not belong to the asset-ledger module.
    InvalidTokenAccount,
    /// The custody address supplied is not the one derived from the offer.
    InvalidPda,
    /// Crediting the maker would exceed what a balance can hold.
    AdditionOverflow,
}

impl EscrowError {
    /// The code of each failure: its position in the list, from 0.
    pub open spec fn spec_code(self) -> u32 {
        match self {
            EscrowError::InvalidSigner => 0,
            EscrowError::InvalidProgram => 1,
            EscrowError::InvalidMint => 2,
            EscrowError::InvalidTokenAccount => 3,
            EscrowError::InvalidPda => 4,
            EscrowError::AdditionOverflow => 5,
        }
    }

    /// The number under which the host reports this failure as a custom program error.
    pub fn code(self) -> (c: u32)
        ensures
            c == self.spec_code(),
    {
        match self {
            EscrowError::InvalidSigner => 0,
            EscrowError::InvalidProgram => 1,
            EscrowError::InvalidMint => 2,
            EscrowError::InvalidTokenAccount => 3,
            EscrowError::InvalidPda => 4,
            EscrowError::AdditionOverflow => 5,
        }
    }

    /// The message shown for this failure.
    pub fn message(self) -> (m: &'static str)
        ensures
            m@ == self.spec_message(),
    {
        match self {
            EscrowError::InvalidSigner => "This account should be Signer",
            EscrowError::InvalidProgram => "Wrong Program Provided",
            EscrowError::InvalidMint => "Wrong Mint Provided",
            EscrowError::InvalidTokenAccount => "Wrong Token Account Provided",
            EscrowError::InvalidPda => "PDA is wrong",
            EscrowError::AdditionOverflow => "Overflow occured in addition",
        }
    }

    /// The message of each failure.
    pub open spec fn spec_message(self) -> Seq<char> {
        match self {
            EscrowError::InvalidSigner => "This account should be Signer"@,
            EscrowError::InvalidProgram => "Wrong Program Provided"@,
            EscrowError::InvalidMint => "Wrong Mint Provided"@,
            EscrowError::InvalidTokenAccount => "Wrong Token Account Provided"@,
            EscrowError::InvalidPda => "PDA is wrong"@,
            EscrowError::AdditionOverflow => "Overflow occured in addition"@,
        }
    }
}

/// No two failures share a code.
pub proof fn lemma_codes_are_distinct(a: EscrowError, b: EscrowError)
    requires
        a != b,
    ensures
        a.spec_code() != b.spec_code(),
{
}

/// `ProgramError` of `solana_program`, the host's error type: carried through unread.
#[verifier::external_type_specification]
#[verifier::external_body]
pub struct ExProgramError(ProgramError);

/// Why a transition was refused.
#[derive(Debug, PartialEq, Eq)]
pub enum Failure {
    /// One of the protocol's own checks failed.
    Escrow(EscrowError),
    /// The account list ends before a position that the transition reads.
    NotEnoughAccountKeys,
    /// The record's storage does not hold a well-formed record.
    MalformedRecord,
    /// The reserved balance for the record does not fit in 64 bits.
    StorageFee,
    /// An error of the asset-ledger module or of the host, passed on as it came.
    Program(ProgramError),
}

/// A failure without what it carries from outside.
#[derive(Clone, Copy, Debug, PartialEq, Eq, Structural)]
pub enum FailureKind {
    Escrow(EscrowError),
    NotEnoughAccountKeys,
    MalformedRecord,
    StorageFee,
    Program,
}

impl View for Failure {
    type V = FailureKind;

    open spec fn view(&self) -> FailureKind {
        match *self {
            Failure::Escrow(e) => FailureKind::Escrow(e),
            Failure::NotEnoughAccountKeys => FailureKind::NotEnoughAccountKeys,
            Failure::MalformedRecord => FailureKind::MalformedRecord,
            Failure::StorageFee => FailureKind::StorageFee,
            Failure::Program(_) => FailureKind::Program,
        }
    }
}

impl Failure {
    /// Which kind of failure this is.
    pub fn kind(&self) -> (k: FailureKind)
        ensures
            k == self@,
    {
        match self {
            Failure::Escrow(e) => FailureKind::Escrow(*e),
            Failure::NotEnoughAccountKeys => FailureKind::NotEnoughAccountKeys,
            Failure::MalformedRecord => FailureKind::MalformedRecord,
            Failure::StorageFee => FailureKind::StorageFee,
            Failure::Program(_) => FailureKind::Program,
        }
    }
}

} // verus!
