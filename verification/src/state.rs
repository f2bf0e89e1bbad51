//! The record of one outstanding offer and its 146-byte layout.

use crate::address::Address;
use vstd::bytes::{
    lemma_auto_spec_u64_to_from_le_bytes, spec_u64_from_le_bytes, spec_u64_to_le_bytes,
    u64_from_le_bytes, u64_to_le_bytes,
};
use vstd::prelude::*;
use vstd::slice::slice_subrange;

verus! {

/// The number of bytes of a stored record.
pub const ESCROW_LEN: usize = 146;

/// One outstanding offer, as it is stored at its custody address.
#[derive(Clone, Copy, Debug, PartialEq, Eq)]
pub struct Escrow {
    /// Tells a live record from storage that was never written.
    pub is_initialized: bool,
    /// The maker.
    pub authority: Address,
    /// The asset that the maker locked.
    pub sell_mint: Address,
    /// The asset that the maker wants.
    pub buy_mint: Address,
    /// How much is locked.
    pub sell_amount: u64,
    /// How much the maker expects.
    pub buy_amount: u64,
    /// The maker's account that is to receive the wanted asset.
    pub receive_account: Address,
    /// The bump that completes the derivation of the custody address.
    pub bump: u8,
}

/// A record with its addresses as byte sequences.
pub struct EscrowView {
    pub is_initialized: bool,
    pub authority: Seq<u8>,
    pub sell_mint: Seq<u8>,
    pub buy_mint: Seq<u8>,
    pub sell_amount: u64,
    pub buy_amount: u64,
    pub receive_account: Seq<u8>,
    pub bump: u8,
}

impl View for Escrow {
    type V = EscrowView;

    open spec fn view(&self) -> EscrowView {
        EscrowView {
            is_initialized: self.is_initialized,
            authority: self.authority@,
            sell_mint: self.sell_mint@,
            buy_mint: self.buy_mint@,
            sell_amount: self.sell_amount,
            buy_amount: self.buy_amount,
            receive_account: self.receive_account@,
            bump: self.bump,
        }
    }
}

impl EscrowView {
    /// Every address of the record has 32 bytes.
    pub open spec fn well_formed(self) -> bool {
        &&& self.authority.len() == 32
        &&& self.sell_mint.len() == 32
        &&& self.buy_mint.len() == 32
        &&& self.receive_account.len() == 32
    }

    /// The stored form: the fields in their order, a flag as one byte, an address as its 32
    /// bytes, an amount as 8 bytes with the least significant first.
    pub open spec fn to_bytes(self) -> Seq<u8> {
        seq![if self.is_initialized { 1u8 } else { 0u8 }] + self.authority + self.sell_mint
            + self.buy_mint + spec_u64_to_le_bytes(self.sell_amount) + spec_u64_to_le_bytes(
            self.buy_amount,
        ) + self.receive_account + seq![self.bump]
    }

    /// The record that `data` stores: `data` has exactly 146 bytes and its flag byte is 0 or 1.
    pub open spec fn from_bytes(data: Seq<u8>) -> Option<EscrowView> {
        if data.len() != 146 || data[0] > 1 {
            None
        } else {
            Some(
                EscrowView {
                    is_initialized: data[0] == 1,
                    authority: data.subrange(1, 33),
                    sell_mint: data.subrange(33, 65),
                    buy_mint: data.subrange(65, 97),
                    sell_amount: spec_u64_from_le_bytes(data.subrange(97, 105)),
                    buy_amount: spec_u64_from_le_bytes(data.subrange(105, 113)),
                    receive_account: data.subrange(113, 145),
                    bump: data[145],
                },
            )
        }
    }
}

/// The stored form of a record has 146 bytes.
pub proof fn lemma_to_bytes_len(v: EscrowView)
    requires
        v.well_formed(),
    ensures
        v.to_bytes().len() == 146,
{
    lemma_auto_spec_u64_to_from_le_bytes();
}

/// Reading what was stored gives the record back.
pub proof fn lemma_from_bytes_of_to_bytes(v: EscrowView)
    requires
        v.well_formed(),
    ensures
        EscrowView::from_bytes(v.to_bytes()) == Some(v),
{
    lemma_auto_spec_u64_to_from_le_bytes();
    let b = v.to_bytes();
    let w = EscrowView::from_bytes(b)->Some_0;
    assert(b.len() == 146);
    assert(b.subrange(1, 33) =~= v.authority);
    assert(b.subrange(33, 65) =~= v.sell_mint);
    assert(b.subrange(65, 97) =~= v.buy_mint);
    assert(b.subrange(97, 105) =~= spec_u64_to_le_bytes(v.sell_amount));
    assert(b.subrange(105, 113) =~= spec_u64_to_le_bytes(v.buy_amount));
    assert(b.subrange(113, 145) =~= v.receive_account);
    assert(b[145] == v.bump);
    assert(b[0] == if v.is_initialized { 1u8 } else { 0u8 });
}

/// Storing what was read gives the bytes back: no two byte strings hold the same record.
pub proof fn lemma_to_bytes_of_from_bytes(data: Seq<u8>)
    requires
        EscrowView::from_bytes(data) is Some,
    ensures
        EscrowView::from_bytes(data)->Some_0.well_formed(),
        EscrowView::from_bytes(data)->Some_0.to_bytes() == data,
{
    lemma_auto_spec_u64_to_from_le_bytes();
    let v = EscrowView::from_bytes(data)->Some_0;
    assert(spec_u64_to_le_bytes(v.sell_amount) == data.subrange(97, 105));
    assert(spec_u64_to_le_bytes(v.buy_amount) == data.subrange(105, 113));
    assert(v.to_bytes() =~= data);
}

/// Copies the 32 bytes of `data` that start at `at` into an address.
fn read_address(data: &[u8], at: usize) -> (a: Address)
    requires
        at + 32 <= data@.len(),
    ensures
        a@ == data@.subrange(at as int, at + 32),
{
    let n: usize = data.len();
    let mut bytes: [u8; 32] = [0u8; 32];
    let mut i: usize = 0;
    while i < 32
        invariant
            i <= 32,
            at + 32 <= data@.len() == n,
            forall|j: int| 0 <= j < i ==> bytes@[j] == data@[at + j],
        decreases 32 - i,
    {
        bytes[i] = data[at + i];
        i += 1;
    }
    assert(bytes@ =~= data@.subrange(at as int, at + 32));
    Address { bytes }
}

/// Appends the second list to the first.
fn append(out: &mut Vec<u8>, more: &Vec<u8>)
    ensures
        final(out)@ == old(out)@ + more@,
{
    let mut i: usize = 0;
    while i < more.len()
        invariant
            i <= more@.len(),
            out@ == old(out)@ + more@.subrange(0, i as int),
        decreases more@.len() - i,
    {
        out.push(more[i]);
        i += 1;
    }
}

impl Escrow {
    /// A live record with the given terms.
    pub fn new(
        authority: Address,
        sell_mint: Address,
        buy_mint: Address,
        sell_amount: u64,
        buy_amount: u64,
        receive_account: Address,
        bump: u8,
    ) -> (e: Escrow)
        ensures
            e == (Escrow {
                is_initialized: true,
                authority,
                sell_mint,
                buy_mint,
                sell_amount,
                buy_amount,
                receive_account,
                bump,
            }),
    {
        Escrow {
            is_initialized: true,
            authority,
            sell_mint,
            buy_mint,
            sell_amount,
            buy_amount,
            receive_account,
            bump,
        }
    }

    /// The number of bytes of a stored record: 1 + 32 + 32 + 32 + 8 + 8 + 32 + 1.
    pub fn len() -> (n: usize)
        ensures
            n == 146,
            forall|v: EscrowView| v.well_formed() ==> #[trigger] v.to_bytes().len() == n,
    {
        proof {
            assert forall|v: EscrowView| v.well_formed() implies #[trigger] v.to_bytes().len()
                == 146 by {
                lemma_to_bytes_len(v);
            }
        }
        1 + 32 + 32 + 32 + 8 + 8 + 32 + 1
    }

    /// The stored form of the record.
    pub fn to_bytes(&self) -> (out: Vec<u8>)
        ensures
            out@ == self@.to_bytes(),
            out@.len() == 146,
    {
        let mut out: Vec<u8> = Vec::new();
        out.push(if self.is_initialized { 1u8 } else { 0u8 });
        append(&mut out, &self.authority.to_vec());
        append(&mut out, &self.sell_mint.to_vec());
        append(&mut out, &self.buy_mint.to_vec());
        append(&mut out, &u64_to_le_bytes(self.sell_amount));
        append(&mut out, &u64_to_le_bytes(self.buy_amount));
        append(&mut out, &self.receive_account.to_vec());
        out.push(self.bump);
        proof {
            lemma_to_bytes_len(self@);
            assert(out@ =~= self@.to_bytes());
        }
        out
    }

    /// Reads a record from its storage. The storage has to hold exactly one record: 146 bytes,
    /// the first of them 0 or 1.
    pub fn try_from_slice(data: &[u8]) -> (r: Option<Escrow>)
        ensures
            r matches Some(e) ==> EscrowView::from_bytes(data@) == Some(e@),
            r is None <==> EscrowView::from_bytes(data@) is None,
    {
        if data.len() != ESCROW_LEN || data[0] > 1 {
            return None;
        }
        Some(
            Escrow {
                is_initialized: data[0] == 1,
                authority: read_address(data, 1),
                sell_mint: read_address(data, 33),
                buy_mint: read_address(data, 65),
                sell_amount: u64_from_le_bytes(slice_subrange(data, 97, 105)),
                buy_amount: u64_from_le_bytes(slice_subrange(data, 105, 113)),
                receive_account: read_address(data, 113),
                bump: data[145],
            },
        )
    }
}

} // verus!
