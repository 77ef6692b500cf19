use english_auction::auction::{Auction, BidAccount};
use english_auction::codec::{
    decode_auction, decode_bid_account, encode_auction, encode_bid_account, CodecError,
    AUCTION_LEN, BID_ACCOUNT_LEN,
};

fn sample_auction() -> Auction {
    Auction {
        nft_mint: [9; 32],
        seller: [1; 32],
        is_started: true,
        is_ended: false,
        starting_bid: 100,
        highest_bidder: [3; 32],
        highest_bid: 0x0102_0304_0506_0708,
    }
}

#[test]
fn auction_layout() {
    let bytes = encode_auction(&sample_auction());
    assert_eq!(bytes.len(), AUCTION_LEN);
    assert_eq!(&bytes[0..8], &[218, 94, 247, 242, 126, 233, 131, 81]);
    assert_eq!(&bytes[8..40], &[9u8; 32]);
    assert_eq!(&bytes[40..72], &[1u8; 32]);
    assert_eq!(bytes[72], 1);
    assert_eq!(bytes[73], 0);
    assert_eq!(&bytes[74..82], &[100, 0, 0, 0, 0, 0, 0, 0]);
    assert_eq!(&bytes[82..114], &[3u8; 32]);
    assert_eq!(&bytes[114..122], &[8, 7, 6, 5, 4, 3, 2, 1]);
}

#[test]
fn auction_round_trip() {
    let a = sample_auction();
    let mut bytes = encode_auction(&a);
    bytes.extend_from_slice(&[0xff; 10]);
    let b = decode_auction(&bytes).unwrap();
    assert_eq!(b.nft_mint, a.nft_mint);
    assert_eq!(b.seller, a.seller);
    assert_eq!(b.is_started, a.is_started);
    assert_eq!(b.is_ended, a.is_ended);
    assert_eq!(b.starting_bid, a.starting_bid);
    assert_eq!(b.highest_bidder, a.highest_bidder);
    assert_eq!(b.highest_bid, a.highest_bid);
}

#[test]
fn bid_account_round_trip() {
    let r = BidAccount { bidder: [7; 32], amount: u64::MAX - 1 };
    let bytes = encode_bid_account(&r);
    assert_eq!(bytes.len(), BID_ACCOUNT_LEN);
    assert_eq!(&bytes[0..8], &[27, 161, 15, 114, 230, 126, 56, 104]);
    let back = decode_bid_account(&bytes).unwrap();
    assert_eq!(back.bidder, r.bidder);
    assert_eq!(back.amount, r.amount);
}

#[test]
fn decode_errors() {
    let bytes = encode_auction(&sample_auction());
    assert_eq!(decode_auction(&bytes[0..7]).unwrap_err(), CodecError::DiscriminatorNotFound);
    assert_eq!(decode_auction(&bytes[0..121]).unwrap_err(), CodecError::DidNotDeserialize);
    let mut bad_flag = bytes.clone();
    bad_flag[73] = 2;
    assert_eq!(decode_auction(&bad_flag).unwrap_err(), CodecError::DidNotDeserialize);
    let bid_bytes = encode_bid_account(&BidAccount { bidder: [7; 32], amount: 5 });
    assert_eq!(decode_auction(&bid_bytes).unwrap_err(), CodecError::DiscriminatorMismatch);
    assert_eq!(decode_bid_account(&bytes).unwrap_err(), CodecError::DiscriminatorMismatch);
    assert_eq!(decode_bid_account(&bid_bytes[0..47]).unwrap_err(), CodecError::DidNotDeserialize);
}
