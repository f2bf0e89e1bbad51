//! What the protocol reads of the asset-ledger module's accounts.

use solana_program::program_error::ProgramError;
use solana_program::program_pack::Pack;
use vstd::prelude::*;

verus! {

/// What the protocol reads of an asset definition.
#[derive(Clone, Copy, Debug, PartialEq, Eq, Structural)]
pub struct MintInfo {
    /// Whether the definition has been initialised.
    pub is_initialized: bool,
    /// The number of decimal places of an amount of the asset.
    pub decimals: u8,
}

/// The state of a holding account.
#[derive(Clone, Copy, Debug, PartialEq, Eq, Structural)]
pub enum AccountState {
    /// Not yet initialised.
    Uninitialized,
    /// In use.
    Initialized,
    /// Frozen by the asset's freeze authority: nothing moves in or out.
    Frozen,
}

/// What the protocol reads of a holding account.
#[derive(Clone, Copy, Debug, PartialEq, Eq, Structural)]
pub struct TokenAccountInfo {
    pub state: AccountState,
}

impl TokenAccountInfo {
    /// Whether the account is frozen.
    pub fn is_frozen(&self) -> (r: bool)
        ensures
            r == (self.state == AccountState::Frozen),
    {
        match self.state {
            AccountState::Frozen => true,
            _ => false,
        }
    }
}

/// What `Mint::unpack` of the asset-ledger module reads from `data`, or `None` where it
/// reports an error.
pub uninterp spec fn mint_unpacked(data: Seq<u8>) -> Option<MintInfo>;

/// What `Account::unpack` of the asset-ledger module reads from `data`, or `None` where it
/// reports an error.
pub uninterp spec fn token_account_unpacked(data: Seq<u8>) -> Option<TokenAccountInfo>;

/// Calls `spl_token::state::Mint::unpack` and keeps the two fields that the protocol reads.
/// The contract names the result.
#[verifier::external_body]
pub(crate) fn unpack_mint(data: &[u8]) -> (r: Result<MintInfo, ProgramError>)
    ensures
        r matches Ok(mint) ==> mint_unpacked(data@) == Some(mint),
        r is Err ==> mint_unpacked(data@) is None,
{
    let mint = spl_token::state::Mint::unpack(data)?;
    Ok(MintInfo { is_initialized: mint.is_initialized, decimals: mint.decimals })
}

/// Calls `spl_token::state::Account::unpack` and keeps the state of the account. The contract
/// names the result.
#[verifier::external_body]
pub(crate) fn unpack_token_account(data: &[u8]) -> (r: Result<TokenAccountInfo, ProgramError>)
    ensures
        r matches Ok(account) ==> token_account_unpacked(data@) == Some(account),
        r is Err ==> token_account_unpacked(data@) is None,
{
    let state = match spl_token::state::Account::unpack(data)?.state {
        spl_token::state::AccountState::Uninitialized => AccountState::Uninitialized,
        spl_token::state::AccountState::Initialized => AccountState::Initialized,
        spl_token::state::AccountState::Frozen => AccountState::Frozen,
    };
    Ok(TokenAccountInfo { state })
}

} // verus!
