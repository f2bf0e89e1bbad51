//! Accounts as a transition sees them.

use crate::address::Address;
use vstd::prelude::*;

verus! {

/// One account of the list handed to a transition: what the host knows of it when the
/// transition starts.
#[derive(Clone, Debug, PartialEq, Eq)]
pub struct Account {
    /// The address of the account.
    pub key: Address,
    /// Its balance in the base currency of the ledger.
    pub lamports: u64,
    /// The bytes it stores.
    pub data: Vec<u8>,
    /// The module that owns it.
    pub owner: Address,
    /// The epoch at which it next owes a storage fee.
    pub rent_epoch: u64,
    /// Whether the transaction was signed for this account.
    pub is_signer: bool,
    /// Whether the transaction may change it.
    pub is_writable: bool,
    /// Whether its data is a loaded program.
    pub executable: bool,
}

} // verus!
