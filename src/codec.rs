use crate::auction::{Auction, BidAccount};
use crate::key::{key_from, lemma_key_from_view, Key};
use vstd::prelude::*;
use vstd::string::StringSliceAdditionalSpecFns;

verus! {

/// Size of an encoded auction record: discriminator, three identities, two
/// flags and two amounts.
pub const AUCTION_LEN: usize = 122;

/// Size of an encoded bid record: discriminator, one identity, one amount.
pub const BID_ACCOUNT_LEN: usize = 48;

/// Why a byte string is not a record of the expected kind.
#[derive(Clone, Copy, Debug, PartialEq, Eq, Structural)]
pub enum CodecError {
    /// Fewer bytes than a discriminator.
    DiscriminatorNotFound,
    /// The first eight bytes name another kind of record.
    DiscriminatorMismatch,
    /// The fields are cut short or a flag byte is neither 0 nor 1.
    DidNotDeserialize,
}

/// SHA-256 of a byte string.
pub uninterp spec fn sha256_of(data: Seq<u8>) -> Seq<u8>;

/// Relies on solana_program::hash::hash (re-exported by anchor_lang): the
/// SHA-256 digest of the bytes.
#[verifier::external_body]
fn sha256(data: &[u8]) -> (r: [u8; 32])
    ensures
        r@ == sha256_of(data@),
{
    anchor_lang::solana_program::hash::hash(data).to_bytes()
}

/// The first eight bytes of the digest of a record kind's name.
pub open spec fn discriminator_of(preimage: Seq<u8>) -> Seq<u8> {
    Seq::new(8, |i: int| sha256_of(preimage)[i])
}

pub open spec fn auction_discriminator() -> Seq<u8> {
    discriminator_of("account:Auction".spec_bytes())
}

pub open spec fn bid_account_discriminator() -> Seq<u8> {
    discriminator_of("account:BidAccount".spec_bytes())
}

/// Little-endian bytes of an amount.
pub open spec fn le_bytes(x: u64) -> Seq<u8> {
    seq![
        x as u8,
        (x >> 8u64) as u8,
        (x >> 16u64) as u8,
        (x >> 24u64) as u8,
        (x >> 32u64) as u8,
        (x >> 40u64) as u8,
        (x >> 48u64) as u8,
        (x >> 56u64) as u8,
    ]
}

/// The amount whose little-endian bytes start at `off`.
pub open spec fn from_le(s: Seq<u8>, off: int) -> u64 {
    (s[off] as u64) | ((s[off + 1] as u64) << 8u64) | ((s[off + 2] as u64) << 16u64) | ((s[off
        + 3] as u64) << 24u64) | ((s[off + 4] as u64) << 32u64) | ((s[off + 5] as u64) << 40u64)
        | ((s[off + 6] as u64) << 48u64) | ((s[off + 7] as u64) << 56u64)
}

pub open spec fn bool_byte(b: bool) -> u8 {
    if b {
        1
    } else {
        0
    }
}

/// The stored form of an auction.
pub open spec fn auction_bytes(a: Auction) -> Seq<u8> {
    auction_discriminator() + a.nft_mint@ + a.seller@ + seq![
        bool_byte(a.is_started),
        bool_byte(a.is_ended),
    ] + le_bytes(a.starting_bid) + a.highest_bidder@ + le_bytes(a.highest_bid)
}

/// The stored form of a bid record.
pub open spec fn bid_account_bytes(b: BidAccount) -> Seq<u8> {
    bid_account_discriminator() + b.bidder@ + le_bytes(b.amount)
}

/// What reading an auction from stored bytes gives; bytes past the record are
/// ignored.
pub open spec fn parse_auction(d: Seq<u8>) -> Result<Auction, CodecError> {
    if d.len() < 8 {
        Err(CodecError::DiscriminatorNotFound)
    } else if d.subrange(0, 8) != auction_discriminator() {
        Err(CodecError::DiscriminatorMismatch)
    } else if d.len() < AUCTION_LEN || d[72] > 1 || d[73] > 1 {
        Err(CodecError::DidNotDeserialize)
    } else {
        Ok(
            Auction {
                nft_mint: key_from(d.subrange(8, 40)),
                seller: key_from(d.subrange(40, 72)),
                is_started: d[72] == 1,
                is_ended: d[73] == 1,
                starting_bid: from_le(d, 74),
                highest_bidder: key_from(d.subrange(82, 114)),
                highest_bid: from_le(d, 114),
            },
        )
    }
}

/// What reading a bid record from stored bytes gives; bytes past the record
/// are ignored.
pub open spec fn parse_bid_account(d: Seq<u8>) -> Result<BidAccount, CodecError> {
    if d.len() < 8 {
        Err(CodecError::DiscriminatorNotFound)
    } else if d.subrange(0, 8) != bid_account_discriminator() {
        Err(CodecError::DiscriminatorMismatch)
    } else if d.len() < BID_ACCOUNT_LEN {
        Err(CodecError::DidNotDeserialize)
    } else {
        Ok(BidAccount { bidder: key_from(d.subrange(8, 40)), amount: from_le(d, 40) })
    }
}

proof fn lemma_le_round_trip(x: u64)
    ensures
        from_le(le_bytes(x), 0) == x,
{
    let s = le_bytes(x);
    let b0 = x as u8;
    let b1 = (x >> 8u64) as u8;
    let b2 = (x >> 16u64) as u8;
    let b3 = (x >> 24u64) as u8;
    let b4 = (x >> 32u64) as u8;
    let b5 = (x >> 40u64) as u8;
    let b6 = (x >> 48u64) as u8;
    let b7 = (x >> 56u64) as u8;
    assert(s[0] == b0 && s[1] == b1 && s[2] == b2 && s[3] == b3);
    assert(s[4] == b4 && s[5] == b5 && s[6] == b6 && s[7] == b7);
    assert(((x as u8) as u64) | ((((x >> 8u64) as u8) as u64) << 8u64) | ((((x >> 16u64) as u8)
        as u64) << 16u64) | ((((x >> 24u64) as u8) as u64) << 24u64) | ((((x >> 32u64) as u8)
        as u64) << 32u64) | ((((x >> 40u64) as u8) as u64) << 40u64) | ((((x >> 48u64) as u8)
        as u64) << 48u64) | ((((x >> 56u64) as u8) as u64) << 56u64) == x) by (bit_vector);
}

/// Decoding an encoded auction gives back an auction equal in every field.
pub proof fn lemma_auction_round_trip(a: Auction)
    ensures
        parse_auction(auction_bytes(a)) == Ok::<Auction, CodecError>(a),
{
    let d = auction_bytes(a);
    lemma_le_round_trip(a.starting_bid);
    lemma_le_round_trip(a.highest_bid);
    lemma_key_from_view(a.nft_mint);
    lemma_key_from_view(a.seller);
    lemma_key_from_view(a.highest_bidder);
    assert(d.subrange(0, 8) =~= auction_discriminator());
    assert(d.subrange(8, 40) =~= a.nft_mint@);
    assert(d.subrange(40, 72) =~= a.seller@);
    assert(d.subrange(82, 114) =~= a.highest_bidder@);
    assert(d.subrange(74, 82) =~= le_bytes(a.starting_bid));
    assert(d.subrange(114, 122) =~= le_bytes(a.highest_bid));
    assert(from_le(d, 74) == from_le(le_bytes(a.starting_bid), 0));
    assert(from_le(d, 114) == from_le(le_bytes(a.highest_bid), 0));
}

/// Decoding an encoded bid record gives back a record equal in every field.
pub proof fn lemma_bid_account_round_trip(b: BidAccount)
    ensures
        parse_bid_account(bid_account_bytes(b)) == Ok::<BidAccount, CodecError>(b),
{
    let d = bid_account_bytes(b);
    lemma_le_round_trip(b.amount);
    lemma_key_from_view(b.bidder);
    assert(d.subrange(0, 8) =~= bid_account_discriminator());
    assert(d.subrange(8, 40) =~= b.bidder@);
    assert(d.subrange(40, 48) =~= le_bytes(b.amount));
    assert(from_le(d, 40) == from_le(le_bytes(b.amount), 0));
}

fn push_key(out: &mut Vec<u8>, k: &Key)
    ensures
        final(out)@ == old(out)@ + k@,
{
    let ghost start = out@;
    let mut i: usize = 0;
    while i < 32
        invariant
            0 <= i <= 32,
            out@ == start + k@.subrange(0, i as int),
        decreases 32 - i,
    {
        out.push(k[i]);
        assert(k@.subrange(0, i + 1) =~= k@.subrange(0, i as int).push(k@[i as int]));
        i = i + 1;
    }
    assert(k@.subrange(0, 32) =~= k@);
}

fn push_u64(out: &mut Vec<u8>, x: u64)
    ensures
        final(out)@ == old(out)@ + le_bytes(x),
{
    let ghost start = out@;
    out.push(x as u8);
    out.push((x >> 8u64) as u8);
    out.push((x >> 16u64) as u8);
    out.push((x >> 24u64) as u8);
    out.push((x >> 32u64) as u8);
    out.push((x >> 40u64) as u8);
    out.push((x >> 48u64) as u8);
    out.push((x >> 56u64) as u8);
    assert(out@ =~= start + le_bytes(x));
}

fn push_bytes(out: &mut Vec<u8>, s: &[u8])
    ensures
        final(out)@ == old(out)@ + s@,
{
    let ghost start = out@;
    let mut i: usize = 0;
    while i < s.len()
        invariant
            0 <= i <= s@.len(),
            out@ == start + s@.subrange(0, i as int),
        decreases s@.len() - i,
    {
        out.push(s[i]);
        assert(s@.subrange(0, i + 1) =~= s@.subrange(0, i as int).push(s@[i as int]));
        i = i + 1;
    }
    assert(s@.subrange(0, s@.len() as int) =~= s@);
}

fn bool_to_byte(b: bool) -> (r: u8)
    ensures
        r == bool_byte(b),
{
    if b {
        1
    } else {
        0
    }
}

/// The discriminator of the record kind with the given name.
fn discriminator(preimage: &str) -> (r: Vec<u8>)
    ensures
        r@ == discriminator_of(preimage.spec_bytes()),
{
    let digest = sha256(preimage.as_bytes());
    let mut r: Vec<u8> = Vec::new();
    let mut i: usize = 0;
    while i < 8
        invariant
            0 <= i <= 8,
            digest@ == sha256_of(preimage.spec_bytes()),
            r@ == digest@.subrange(0, i as int),
        decreases 8 - i,
    {
        r.push(digest[i]);
        assert(digest@.subrange(0, i + 1) =~= digest@.subrange(0, i as int).push(digest@[i as int]));
        i = i + 1;
    }
    assert(r@ =~= discriminator_of(preimage.spec_bytes()));
    r
}

/// The stored form of an auction.
pub fn encode_auction(a: &Auction) -> (r: Vec<u8>)
    ensures
        r@ == auction_bytes(*a),
        r@.len() == AUCTION_LEN,
{
    let mut r = discriminator("account:Auction");
    push_key(&mut r, &a.nft_mint);
    push_key(&mut r, &a.seller);
    r.push(bool_to_byte(a.is_started));
    r.push(bool_to_byte(a.is_ended));
    push_u64(&mut r, a.starting_bid);
    push_key(&mut r, &a.highest_bidder);
    push_u64(&mut r, a.highest_bid);
    assert(r@ =~= auction_bytes(*a));
    r
}

/// The stored form of a bid record.
pub fn encode_bid_account(b: &BidAccount) -> (r: Vec<u8>)
    ensures
        r@ == bid_account_bytes(*b),
        r@.len() == BID_ACCOUNT_LEN,
{
    let mut r = discriminator("account:BidAccount");
    push_key(&mut r, &b.bidder);
    push_u64(&mut r, b.amount);
    r
}

fn read_key(d: &[u8], off: usize) -> (r: Key)
    requires
        off + 32 <= d@.len(),
    ensures
        r@ == d@.subrange(off as int, off + 32),
        r == key_from(d@.subrange(off as int, off + 32)),
{
    let n = d.len();
    let mut r: Key = [0u8; 32];
    let mut i: usize = 0;
    while i < 32
        invariant
            0 <= i <= 32,
            off + 32 <= d@.len(),
            n == d@.len(),
            forall|j: int| 0 <= j < i ==> r[j] == d@[off + j],
        decreases 32 - i,
    {
        r[i] = d[off + i];
        i = i + 1;
    }
    assert(r@ =~= d@.subrange(off as int, off + 32));
    proof {
        lemma_key_from_view(r);
    }
    r
}

fn read_u64(d: &[u8], off: usize) -> (r: u64)
    requires
        off + 8 <= d@.len(),
    ensures
        r == from_le(d@, off as int),
{
    (d[off] as u64) | ((d[off + 1] as u64) << 8u64) | ((d[off + 2] as u64) << 16u64) | ((d[off
        + 3] as u64) << 24u64) | ((d[off + 4] as u64) << 32u64) | ((d[off + 5] as u64) << 40u64)
        | ((d[off + 6] as u64) << 48u64) | ((d[off + 7] as u64) << 56u64)
}

fn prefix_matches(d: &[u8], expected: &Vec<u8>) -> (r: bool)
    requires
        expected@.len() <= d@.len(),
    ensures
        r == (d@.subrange(0, expected@.len() as int) == expected@),
{
    let mut i: usize = 0;
    while i < expected.len()
        invariant
            0 <= i <= expected@.len() <= d@.len(),
            forall|j: int| 0 <= j < i ==> d@[j] == expected@[j],
        decreases expected@.len() - i,
    {
        if d[i] != expected[i] {
            assert(d@.subrange(0, expected@.len() as int)[i as int] != expected@[i as int]);
            return false;
        }
        i = i + 1;
    }
    assert(d@.subrange(0, expected@.len() as int) =~= expected@);
    true
}

/// Reads an auction from stored bytes.
pub fn decode_auction(d: &[u8]) -> (r: Result<Auction, CodecError>)
    ensures
        r == parse_auction(d@),
{
    if d.len() < 8 {
        return Err(CodecError::DiscriminatorNotFound);
    }
    let disc = discriminator("account:Auction");
    if !prefix_matches(d, &disc) {
        return Err(CodecError::DiscriminatorMismatch);
    }
    if d.len() < AUCTION_LEN || d[72] > 1 || d[73] > 1 {
        return Err(CodecError::DidNotDeserialize);
    }
    Ok(
        Auction {
            nft_mint: read_key(d, 8),
            seller: read_key(d, 40),
            is_started: d[72] == 1,
            is_ended: d[73] == 1,
            starting_bid: read_u64(d, 74),
            highest_bidder: read_key(d, 82),
            highest_bid: read_u64(d, 114),
        },
    )
}

/// Reads a bid record from stored bytes.
pub fn decode_bid_account(d: &[u8]) -> (r: Result<BidAccount, CodecError>)
    ensures
        r == parse_bid_account(d@),
{
    if d.len() < 8 {
        return Err(CodecError::DiscriminatorNotFound);
    }
    let disc = discriminator("account:BidAccount");
    if !prefix_matches(d, &disc) {
        return Err(CodecError::DiscriminatorMismatch);
    }
    if d.len() < BID_ACCOUNT_LEN {
        return Err(CodecError::DidNotDeserialize);
    }
    Ok(BidAccount { bidder: read_key(d, 8), amount: read_u64(d, 40) })
}

} // verus!
