//! The addresses of the modules that the protocol works with.

use crate::address::Address;
use vstd::prelude::*;

verus! {

/// The address of the system module, which creates accounts: 32 zero bytes.
pub open spec fn system_program_id() -> Seq<u8> {
    Seq::new(32, |i: int| 0u8)
}

/// The address of the asset-ledger module, `TokenkegQfeZyiNwAJbNbGKPFXCWuBvf9Ss623VQ5DA` in
/// base 58.
pub open spec fn token_program_id() -> Seq<u8> {
    seq![
        6u8, 221, 246, 225, 215, 101, 161, 147, 217, 203, 225, 70, 206, 235, 121, 172,
        28, 180, 133, 237, 95, 91, 55, 145, 58, 140, 245, 133, 126, 255, 0, 169,
    ]
}

/// The address of the associated-account module,
/// `ATokenGPvbdGVxr1b2hvZbsiqW5xWH25efTNsLJA8knL` in base 58.
pub open spec fn associated_token_program_id() -> Seq<u8> {
    seq![
        140u8, 151, 37, 143, 78, 36, 137, 241, 187, 61, 16, 41, 20, 142, 13, 131,
        11, 90, 19, 153, 218, 255, 16, 132, 4, 142, 123, 216, 219, 233, 248, 89,
    ]
}

/// Reads `solana_program::system_program::ID`. The contract gives its bytes.
#[verifier::external_body]
pub(crate) fn system_program() -> (id: Address)
    ensures
        id@ == system_program_id(),
{
    Address { bytes: solana_program::system_program::ID.to_bytes() }
}

/// Reads `spl_token::ID`. The contract gives its bytes.
#[verifier::external_body]
pub(crate) fn token_program() -> (id: Address)
    ensures
        id@ == token_program_id(),
{
    Address { bytes: spl_token::ID.to_bytes() }
}

/// Reads `spl_associated_token_account::ID`. The contract gives its bytes.
#[verifier::external_body]
pub(crate) fn associated_token_program() -> (id: Address)
    ensures
        id@ == associated_token_program_id(),
{
    Address { bytes: spl_associated_token_account::ID.to_bytes() }
}

} // verus!
