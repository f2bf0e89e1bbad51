//! Custody addresses: addresses derived from seeds for which no private key exists.

use crate::address::Address;
use solana_program::pubkey::Pubkey;
use vstd::prelude::*;
use vstd::slice::slice_to_vec;

verus! {

/// The address that `Pubkey::create_program_address` derives from `seeds` for the program
/// `program_id`, or `None` where it reports an error.
pub uninterp spec fn created_address(seeds: Seq<Seq<u8>>, program_id: Seq<u8>) -> Option<Seq<u8>>;

/// The views of a list of seeds.
pub open spec fn seeds_view(seeds: Seq<Vec<u8>>) -> Seq<Seq<u8>> {
    seeds.map_values(|s: Vec<u8>| s@)
}

/// The first bump, going down from `bump` to 1, that completes `seeds` to a derivable
/// address, together with that address.
pub open spec fn search_from(seeds: Seq<Seq<u8>>, program_id: Seq<u8>, bump: nat) -> Option<
    (Seq<u8>, u8),
>
    decreases bump,
{
    if bump == 0 || bump > 255 {
        None
    } else {
        match created_address(seeds.push(seq![bump as u8]), program_id) {
            Some(address) => Some((address, bump as u8)),
            None => search_from(seeds, program_id, (bump - 1) as nat),
        }
    }
}

/// Calls `Pubkey::create_program_address`. The contract names its result.
#[verifier::external_body]
pub(crate) fn create_program_address(seeds: &Vec<Vec<u8>>, program_id: &Address) -> (r: Option<
    Address,
>)
    ensures
        r matches Some(a) ==> created_address(seeds_view(seeds@), program_id@) == Some(a@),
        r is None ==> created_address(seeds_view(seeds@), program_id@) is None,
{
    let parts: Vec<&[u8]> = seeds.iter().map(|s| s.as_slice()).collect();
    match Pubkey::create_program_address(&parts, &Pubkey::new_from_array(program_id.bytes)) {
        Ok(key) => Some(Address { bytes: key.to_bytes() }),
        Err(_) => None,
    }
}

/// Calls `Pubkey::try_find_program_address`, which tries the bumps 255 down to 1 with
/// `Pubkey::create_program_address` and returns the first that derives an address. The
/// contract states that search over the named result of `create_program_address`.
#[verifier::external_body]
pub(crate) fn find_program_address(seeds: &Vec<Vec<u8>>, program_id: &Address) -> (r: Option<
    (Address, u8),
>)
    ensures
        r matches Some(found) ==> search_from(seeds_view(seeds@), program_id@, 255) == Some(
            (found.0@, found.1),
        ),
        r is None ==> search_from(seeds_view(seeds@), program_id@, 255) is None,
{
    let parts: Vec<&[u8]> = seeds.iter().map(|s| s.as_slice()).collect();
    match Pubkey::try_find_program_address(&parts, &Pubkey::new_from_array(program_id.bytes)) {
        Some((key, bump)) => Some((Address { bytes: key.to_bytes() }, bump)),
        None => None,
    }
}

/// The tag under which the protocol derives its custody addresses: the text `escrow`.
pub open spec fn escrow_tag() -> Seq<u8> {
    seq![101u8, 115, 99, 114, 111, 119]
}

/// The seeds of the custody address of an offer: the tag, the maker and the locked asset.
pub open spec fn offer_seeds(tag: Seq<u8>, authority: Seq<u8>, asset: Seq<u8>) -> Seq<Seq<u8>> {
    seq![tag, authority, asset]
}

/// The seeds with which the protocol signs for a custody address: those of the offer and the
/// bump.
pub open spec fn signing_seeds(tag: Seq<u8>, authority: Seq<u8>, asset: Seq<u8>, bump: u8) -> Seq<
    Seq<u8>,
> {
    offer_seeds(tag, authority, asset).push(seq![bump])
}

/// The custody address of an offer and its bump: the first bump from 255 down that derives an
/// address from the offer's seeds.
pub open spec fn derive_spec(
    tag: Seq<u8>,
    authority: Seq<u8>,
    asset: Seq<u8>,
    program_id: Seq<u8>,
) -> Option<(Seq<u8>, u8)> {
    search_from(offer_seeds(tag, authority, asset), program_id, 255)
}

/// The address that the offer's seeds and a given bump derive.
pub open spec fn rederive_spec(
    tag: Seq<u8>,
    authority: Seq<u8>,
    asset: Seq<u8>,
    bump: u8,
    program_id: Seq<u8>,
) -> Option<Seq<u8>> {
    created_address(signing_seeds(tag, authority, asset, bump), program_id)
}

/// The tag `escrow` as bytes.
pub fn escrow_tag_bytes() -> (tag: Vec<u8>)
    ensures
        tag@ == escrow_tag(),
{
    let mut tag: Vec<u8> = Vec::new();
    tag.push(101);
    tag.push(115);
    tag.push(99);
    tag.push(114);
    tag.push(111);
    tag.push(119);
    assert(tag@ =~= escrow_tag());
    tag
}

/// The seeds of an offer, as the list that a derivation takes.
fn offer_seed_list(tag: &[u8], authority: &Address, asset: &Address) -> (seeds: Vec<Vec<u8>>)
    ensures
        seeds_view(seeds@) == offer_seeds(tag@, authority@, asset@),
{
    let mut seeds: Vec<Vec<u8>> = Vec::new();
    seeds.push(slice_to_vec(tag));
    seeds.push(authority.to_vec());
    seeds.push(asset.to_vec());
    assert(seeds_view(seeds@) =~= offer_seeds(tag@, authority@, asset@));
    seeds
}

/// The seeds with which the protocol signs for the custody address of an offer.
pub fn signer_seeds(tag: &[u8], authority: &Address, asset: &Address, bump: u8) -> (seeds: Vec<
    Vec<u8>,
>)
    ensures
        seeds_view(seeds@) == signing_seeds(tag@, authority@, asset@, bump),
{
    let mut seeds = offer_seed_list(tag, authority, asset);
    let mut last: Vec<u8> = Vec::new();
    last.push(bump);
    seeds.push(last);
    assert(seeds_view(seeds@) =~= signing_seeds(tag@, authority@, asset@, bump));
    seeds
}

/// Derives the custody address of an offer and the bump that completes it. The result depends
/// on the tag, the maker, the locked asset and the program alone. It is `None` where no bump
/// from 255 down to 1 derives an address.
pub fn derive(tag: &[u8], authority: &Address, asset: &Address, program_id: &Address) -> (r:
    Option<(Address, u8)>)
    ensures
        r matches Some(found) ==> derive_spec(tag@, authority@, asset@, program_id@) == Some(
            (found.0@, found.1),
        ),
        r is None ==> derive_spec(tag@, authority@, asset@, program_id@) is None,
{
    let seeds = offer_seed_list(tag, authority, asset);
    find_program_address(&seeds, program_id)
}

/// Derives the custody address of an offer once more, with a bump that is already known.
pub fn rederive(
    tag: &[u8],
    authority: &Address,
    asset: &Address,
    bump: u8,
    program_id: &Address,
) -> (r: Option<Address>)
    ensures
        r matches Some(a) ==> rederive_spec(tag@, authority@, asset@, bump, program_id@) == Some(
            a@,
        ),
        r is None ==> rederive_spec(tag@, authority@, asset@, bump, program_id@) is None,
{
    let seeds = signer_seeds(tag, authority, asset, bump);
    create_program_address(&seeds, program_id)
}

/// What a search finds is what its bump derives, and no higher bump derives anything.
pub proof fn lemma_search_found(seeds: Seq<Seq<u8>>, program_id: Seq<u8>, from: nat)
    requires
        from <= 255,
        search_from(seeds, program_id, from) is Some,
    ensures
        ({
            let (address, bump) = search_from(seeds, program_id, from)->Some_0;
            &&& 1 <= bump <= from
            &&& created_address(seeds.push(seq![bump]), program_id) == Some(address)
            &&& forall|b: u8|
                bump < b <= from ==> created_address(seeds.push(seq![b]), program_id) is None
        }),
    decreases from,
{
    if from > 0 {
        if created_address(seeds.push(seq![from as u8]), program_id) is None {
            lemma_search_found(seeds, program_id, (from - 1) as nat);
        }
    }
}

/// Deriving again with the bump that the derivation returned gives the same address.
pub proof fn lemma_rederive_reproduces(
    tag: Seq<u8>,
    authority: Seq<u8>,
    asset: Seq<u8>,
    program_id: Seq<u8>,
)
    requires
        derive_spec(tag, authority, asset, program_id) is Some,
    ensures
        ({
            let (address, bump) = derive_spec(tag, authority, asset, program_id)->Some_0;
            rederive_spec(tag, authority, asset, bump, program_id) == Some(address)
        }),
{
    lemma_search_found(offer_seeds(tag, authority, asset), program_id, 255);
}

} // verus!
