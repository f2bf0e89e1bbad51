//! A two-party token escrow on an account-based ledger.
//!
//! A maker locks an amount of one asset under a custody address that the protocol derives and
//! signs for, and records the terms there. A taker later pays the maker and receives what was
//! locked, and custody and record are destroyed in the maker's favour.
//!
//! The library decides and the host acts: each transition checks the accounts it is handed and
//! returns the steps to carry out, in order. What the steps do to a ledger is modelled in
//! `ledger`, where the properties of the protocol are proved.

pub mod account;
pub mod address;
pub mod derivation;
pub mod error;
pub mod instruction;
pub mod instructions;
pub mod ledger;
pub mod programs;
pub mod rent;
pub mod state;
pub mod token;
pub mod validator;
