use crate::key::{keys_equal, Key};
use vstd::prelude::*;
use vstd::slice::slice_to_vec;
use vstd::string::StringSliceAdditionalSpecFns;

verus! {

/// The address derived from seeds under a program, with the bump that makes it
/// fall off the curve, or nothing when no bump does.
pub uninterp spec fn program_address_of(seeds: Seq<Seq<u8>>, program_id: Seq<u8>) -> Option<
    (Seq<u8>, u8),
>;

pub open spec fn seeds_view(seeds: Seq<Vec<u8>>) -> Seq<Seq<u8>> {
    seeds.map_values(|s: Vec<u8>| s@)
}

pub open spec fn found_view(found: Option<(Key, u8)>) -> Option<(Seq<u8>, u8)> {
    match found {
        Some((k, bump)) => Some((k@, bump)),
        None => None,
    }
}

/// Relies on Pubkey::try_find_program_address of solana_program (re-exported
/// by anchor_lang): a deterministic search for the derived address and bump.
#[verifier::external_body]
fn try_find_program_address(seeds: &Vec<Vec<u8>>, program_id: &Key) -> (r: Option<(Key, u8)>)
    ensures
        found_view(r) == program_address_of(seeds_view(seeds@), program_id@),
{
    let mut refs: Vec<&[u8]> = Vec::new();
    for s in seeds.iter() {
        refs.push(s.as_slice());
    }
    let id = anchor_lang::prelude::Pubkey::new_from_array(*program_id);
    match anchor_lang::prelude::Pubkey::try_find_program_address(&refs, &id) {
        Some((k, bump)) => Some((k.to_bytes(), bump)),
        None => None,
    }
}

/// Seeds of an auction's address: its tag and the seller.
pub open spec fn auction_seeds(seller: Seq<u8>) -> Seq<Seq<u8>> {
    seq!["auction".spec_bytes(), seller]
}

/// Seeds of a bid record's address: its tag, the auction and the bidder.
pub open spec fn bid_seeds(auction: Seq<u8>, bidder: Seq<u8>) -> Seq<Seq<u8>> {
    seq!["bid".spec_bytes(), auction, bidder]
}

/// Why a supplied record address was refused.
#[derive(Clone, Copy, Debug, PartialEq, Eq, Structural)]
pub enum AddressError {
    /// The address is not the one derived from the record's seeds.
    ConstraintSeeds,
    /// No bump gives an address off the curve for these seeds.
    NoViableBump,
}

/// The outcome of checking a supplied address against a derivation.
pub open spec fn address_check(found: Option<(Seq<u8>, u8)>, supplied: Seq<u8>) -> Result<
    u8,
    AddressError,
> {
    match found {
        None => Err(AddressError::NoViableBump),
        Some((k, bump)) => if k == supplied {
            Ok(bump)
        } else {
            Err(AddressError::ConstraintSeeds)
        },
    }
}

/// The address of the auction that `seller` creates, and its bump.
pub fn find_auction_address(program_id: &Key, seller: &Key) -> (r: Option<(Key, u8)>)
    ensures
        found_view(r) == program_address_of(auction_seeds(seller@), program_id@),
{
    let mut seeds: Vec<Vec<u8>> = Vec::new();
    seeds.push(slice_to_vec("auction".as_bytes()));
    seeds.push(slice_to_vec(seller.as_slice()));
    assert(seeds_view(seeds@) =~= auction_seeds(seller@));
    try_find_program_address(&seeds, program_id)
}

/// The address of `bidder`'s record in the auction at `auction`, and its bump.
pub fn find_bid_address(program_id: &Key, auction: &Key, bidder: &Key) -> (r: Option<(Key, u8)>)
    ensures
        found_view(r) == program_address_of(bid_seeds(auction@, bidder@), program_id@),
{
    let mut seeds: Vec<Vec<u8>> = Vec::new();
    seeds.push(slice_to_vec("bid".as_bytes()));
    seeds.push(slice_to_vec(auction.as_slice()));
    seeds.push(slice_to_vec(bidder.as_slice()));
    assert(seeds_view(seeds@) =~= bid_seeds(auction@, bidder@));
    try_find_program_address(&seeds, program_id)
}

/// Checks a supplied address against the outcome of a derivation; on a match
/// gives the bump that lets the record sign for itself.
pub fn check_address(found: Option<(Key, u8)>, supplied: &Key) -> (r: Result<u8, AddressError>)
    ensures
        r == address_check(found_view(found), supplied@),
{
    match found {
        None => Err(AddressError::NoViableBump),
        Some((k, bump)) => {
            if keys_equal(&k, supplied) {
                Ok(bump)
            } else {
                Err(AddressError::ConstraintSeeds)
            }
        },
    }
}

/// Checks that `supplied` is the address of the auction created by `seller`.
pub fn validate_auction_address(program_id: &Key, seller: &Key, supplied: &Key) -> (r: Result<
    u8,
    AddressError,
>)
    ensures
        r == address_check(program_address_of(auction_seeds(seller@), program_id@), supplied@),
{
    let found = find_auction_address(program_id, seller);
    check_address(found, supplied)
}

/// Checks that `supplied` is the address of `bidder`'s record in the auction
/// at `auction`.
pub fn validate_bid_address(program_id: &Key, auction: &Key, bidder: &Key, supplied: &Key) -> (r:
    Result<u8, AddressError>)
    ensures
        r == address_check(program_address_of(bid_seeds(auction@, bidder@), program_id@), supplied@),
{
    let found = find_bid_address(program_id, auction, bidder);
    check_address(found, supplied)
}

} // verus!
