use english_auction::auction::{
    bid, end, initialize, start, withdraw, Auction, AuctionError, Bid, BidAccount, End, Initialize,
    Start, Withdraw,
};

fn key(b: u8) -> [u8; 32] {
    [b; 32]
}

const SELLER: u8 = 1;
const ALICE: u8 = 2;
const BOB: u8 = 3;
const MINT: u8 = 4;
const SELLER_HOLDING: u8 = 5;
const ESCROW_HOLDING: u8 = 6;
const AUCTION: u8 = 7;
const BOB_HOLDING: u8 = 8;

fn start_ctx(decimals: u8, supply: u64) -> Start {
    Start {
        mint: key(MINT),
        mint_decimals: decimals,
        mint_supply: supply,
        seller: key(SELLER),
        seller_token_account: key(SELLER_HOLDING),
        auction_token_account: key(ESCROW_HOLDING),
    }
}

fn end_ctx(owner: u8) -> End {
    End {
        auction: key(AUCTION),
        auction_bump: 254,
        seller: key(SELLER),
        highest_bidder_token_account: key(BOB_HOLDING),
        highest_bidder_token_owner: key(owner),
        auction_token_account: key(ESCROW_HOLDING),
    }
}

fn bid_ctx(bidder: u8) -> Bid {
    Bid { auction: key(AUCTION), bidder: key(bidder) }
}

fn empty_bid() -> BidAccount {
    BidAccount { bidder: [0; 32], amount: 0 }
}

fn started(starting_bid: u64) -> Auction {
    let mut a = initialize(&Initialize { seller: key(SELLER) }, starting_bid);
    start(&start_ctx(0, 1), &mut a).unwrap();
    a
}

#[test]
fn initialize_sets_floor_and_no_bidder() {
    let a = initialize(&Initialize { seller: key(SELLER) }, 100);
    assert_eq!(a.seller, key(SELLER));
    assert!(!a.is_started);
    assert!(!a.is_ended);
    assert_eq!(a.starting_bid, 100);
    assert_eq!(a.highest_bid, 100);
    assert_eq!(a.highest_bidder, [0; 32]);
    assert_eq!(a.nft_mint, [0; 32]);
}

#[test]
fn full_auction_scenario() {
    let mut a = initialize(&Initialize { seller: key(SELLER) }, 100);
    let t = start(&start_ctx(0, 1), &mut a).unwrap();
    assert!(a.is_started);
    assert_eq!(a.nft_mint, key(MINT));
    assert_eq!(t.from, key(SELLER_HOLDING));
    assert_eq!(t.to, key(ESCROW_HOLDING));
    assert_eq!(t.authority, key(SELLER));
    assert_eq!(t.amount, 1);
    assert!(t.signer.is_none());

    let mut bid_a = empty_bid();
    let pay = bid(&bid_ctx(ALICE), &mut a, &mut bid_a, 150).unwrap();
    assert_eq!(a.highest_bid, 150);
    assert_eq!(a.highest_bidder, key(ALICE));
    assert_eq!(pay.from, key(ALICE));
    assert_eq!(pay.to, key(AUCTION));
    assert_eq!(pay.amount, 150);
    assert_eq!(bid_a.amount, 150);

    let mut bid_b = empty_bid();
    let before = a;
    assert_eq!(bid(&bid_ctx(BOB), &mut a, &mut bid_b, 120).unwrap_err(), AuctionError::InsufficientBidAmount);
    assert_eq!(a.highest_bid, before.highest_bid);
    assert_eq!(a.highest_bidder, before.highest_bidder);
    assert_eq!(bid_b.amount, 0);

    bid(&bid_ctx(BOB), &mut a, &mut bid_b, 200).unwrap();
    assert_eq!(a.highest_bid, 200);
    assert_eq!(a.highest_bidder, key(BOB));

    let t = end(&end_ctx(BOB), &mut a).unwrap();
    assert!(a.is_ended);
    assert_eq!(t.from, key(ESCROW_HOLDING));
    assert_eq!(t.to, key(BOB_HOLDING));
    assert_eq!(t.authority, key(AUCTION));
    assert_eq!(t.amount, 1);
    let signer = t.signer.unwrap();
    assert_eq!(signer.owner, key(SELLER));
    assert_eq!(signer.bump, 254);
}

#[test]
fn outbid_bidder_withdraws() {
    let mut a = started(100);
    let mut bid_a = empty_bid();
    let mut bid_b = empty_bid();
    bid(&bid_ctx(ALICE), &mut a, &mut bid_a, 150).unwrap();
    bid(&bid_ctx(BOB), &mut a, &mut bid_b, 200).unwrap();
    let t = withdraw(&Withdraw { auction: key(AUCTION), bidder: key(ALICE) }, &mut a, &mut bid_a).unwrap();
    assert_eq!(t.from, key(AUCTION));
    assert_eq!(t.to, key(ALICE));
    assert_eq!(t.amount, 150);
    assert_eq!(bid_a.amount, 0);
    assert_eq!(a.highest_bidder, key(BOB));
    assert_eq!(a.highest_bid, 200);
}

#[test]
fn leader_withdraw_resets_to_floor() {
    let mut a = started(100);
    let mut bid_b = empty_bid();
    bid(&bid_ctx(BOB), &mut a, &mut bid_b, 200).unwrap();
    let t = withdraw(&Withdraw { auction: key(AUCTION), bidder: key(BOB) }, &mut a, &mut bid_b).unwrap();
    assert_eq!(t.amount, 200);
    assert_eq!(a.highest_bidder, [0; 32]);
    assert_eq!(a.highest_bid, 100);
}

#[test]
fn repeated_bids_accumulate_escrow() {
    let mut a = started(100);
    let mut bid_a = empty_bid();
    bid(&bid_ctx(ALICE), &mut a, &mut bid_a, 150).unwrap();
    bid(&bid_ctx(ALICE), &mut a, &mut bid_a, 300).unwrap();
    assert_eq!(bid_a.amount, 450);
    assert_eq!(bid_a.bidder, key(ALICE));
    assert_eq!(a.highest_bid, 300);
}

#[test]
fn highest_bid_never_falls() {
    let mut a = started(10);
    let mut rec = empty_bid();
    let mut last = a.highest_bid;
    for amount in [5u64, 20, 15, 20, 21, 100, 99] {
        let r = bid(&bid_ctx(ALICE), &mut a, &mut rec, amount);
        assert!(a.highest_bid >= last);
        if r.is_ok() {
            assert!(amount > last);
            assert_eq!(a.highest_bid, amount);
        }
        last = a.highest_bid;
    }
    assert_eq!(a.highest_bid, 100);
}

#[test]
fn start_rejects_non_unique_assets() {
    for (decimals, supply) in [(1u8, 1u64), (0, 2), (0, 0), (9, 1000)] {
        let mut a = initialize(&Initialize { seller: key(SELLER) }, 100);
        assert_eq!(start(&start_ctx(decimals, supply), &mut a).unwrap_err(), AuctionError::InvalidNFT);
        assert!(!a.is_started);
    }
}

#[test]
fn start_only_once() {
    let mut a = started(100);
    assert_eq!(start(&start_ctx(0, 1), &mut a).unwrap_err(), AuctionError::AlreadyStarted);
}

#[test]
fn start_by_other_is_unauthorized() {
    let mut a = initialize(&Initialize { seller: key(SELLER) }, 100);
    let mut ctx = start_ctx(0, 1);
    ctx.seller = key(ALICE);
    assert_eq!(start(&ctx, &mut a).unwrap_err(), AuctionError::Unauthorized);
    assert!(!a.is_started);
}

#[test]
fn bid_before_start_and_after_end() {
    let mut a = initialize(&Initialize { seller: key(SELLER) }, 100);
    let mut rec = empty_bid();
    assert_eq!(bid(&bid_ctx(ALICE), &mut a, &mut rec, 500).unwrap_err(), AuctionError::NotStarted);
    start(&start_ctx(0, 1), &mut a).unwrap();
    bid(&bid_ctx(BOB), &mut a, &mut rec, 500).unwrap();
    end(&end_ctx(BOB), &mut a).unwrap();
    let mut rec_a = empty_bid();
    assert_eq!(bid(&bid_ctx(ALICE), &mut a, &mut rec_a, 900).unwrap_err(), AuctionError::AlreadyEnded);
    assert_eq!(rec_a.amount, 0);
}

#[test]
fn end_checks_destination_and_runs_once() {
    let mut a = started(100);
    let mut rec = empty_bid();
    bid(&bid_ctx(BOB), &mut a, &mut rec, 200).unwrap();
    assert_eq!(end(&end_ctx(ALICE), &mut a).unwrap_err(), AuctionError::InvalidTokenAccount);
    assert!(!a.is_ended);
    end(&end_ctx(BOB), &mut a).unwrap();
    assert_eq!(end(&end_ctx(BOB), &mut a).unwrap_err(), AuctionError::AlreadyEnded);
    assert!(a.is_ended);
}

#[test]
fn end_by_other_is_unauthorized() {
    let mut a = started(100);
    let mut ctx = end_ctx(0);
    ctx.seller = key(BOB);
    assert_eq!(end(&ctx, &mut a).unwrap_err(), AuctionError::Unauthorized);
}

#[test]
fn end_before_start_fails() {
    let mut a = initialize(&Initialize { seller: key(SELLER) }, 100);
    assert_eq!(end(&end_ctx(0), &mut a).unwrap_err(), AuctionError::NotStarted);
}

#[test]
fn withdraw_errors() {
    let mut a = started(100);
    let mut rec = empty_bid();
    bid(&bid_ctx(ALICE), &mut a, &mut rec, 150).unwrap();
    let by_bob = Withdraw { auction: key(AUCTION), bidder: key(BOB) };
    assert_eq!(withdraw(&by_bob, &mut a, &mut rec).unwrap_err(), AuctionError::Unauthorized);
    let by_alice = Withdraw { auction: key(AUCTION), bidder: key(ALICE) };
    withdraw(&by_alice, &mut a, &mut rec).unwrap();
    assert_eq!(withdraw(&by_alice, &mut a, &mut rec).unwrap_err(), AuctionError::NoBidToWithdraw);

    let mut fresh = initialize(&Initialize { seller: key(SELLER) }, 100);
    let mut some = BidAccount { bidder: key(ALICE), amount: 5 };
    assert_eq!(withdraw(&by_alice, &mut fresh, &mut some).unwrap_err(), AuctionError::NotStarted);

    let mut rec_b = empty_bid();
    bid(&bid_ctx(BOB), &mut a, &mut rec_b, 400).unwrap();
    end(&end_ctx(BOB), &mut a).unwrap();
    let by_bob = Withdraw { auction: key(AUCTION), bidder: key(BOB) };
    assert_eq!(withdraw(&by_bob, &mut a, &mut rec_b).unwrap_err(), AuctionError::AlreadyEnded);
    assert_eq!(rec_b.amount, 400);
}

#[test]
fn ended_auction_is_frozen() {
    let mut a = started(100);
    let mut rec = empty_bid();
    bid(&bid_ctx(BOB), &mut a, &mut rec, 200).unwrap();
    end(&end_ctx(BOB), &mut a).unwrap();
    let snapshot = a;
    let mut other = empty_bid();
    assert!(bid(&bid_ctx(ALICE), &mut a, &mut other, 1000).is_err());
    assert!(withdraw(&Withdraw { auction: key(AUCTION), bidder: key(BOB) }, &mut a, &mut rec).is_err());
    assert!(start(&start_ctx(0, 1), &mut a).is_err());
    assert!(end(&end_ctx(BOB), &mut a).is_err());
    assert_eq!(a.highest_bid, snapshot.highest_bid);
    assert_eq!(a.highest_bidder, snapshot.highest_bidder);
    assert!(a.is_started && a.is_ended);
    assert_eq!(rec.amount, 200);
}
