use crate::key::{keys_equal, zero_key, default_key, Key};
use crate::transfer::{LamportTransfer, PdaSigner, TokenTransfer};
use vstd::prelude::*;

verus! {

/// The persistent state of one auction, addressed by its seller.
#[derive(Clone, Copy, Debug)]
pub struct Auction {
    pub nft_mint: Key,
    pub seller: Key,
    pub is_started: bool,
    pub is_ended: bool,
    pub starting_bid: u64,
    pub highest_bidder: Key,
    pub highest_bid: u64,
}

/// The escrowed funds of one bidder in one auction.
#[derive(Clone, Copy, Debug)]
pub struct BidAccount {
    pub bidder: Key,
    pub amount: u64,
}

#[derive(Clone, Copy, Debug, PartialEq, Eq, Structural)]
pub enum AuctionError {
    /// The caller is not the identity that the operation requires.
    Unauthorized,
    AlreadyStarted,
    NotStarted,
    AlreadyEnded,
    NotEnded,
    /// The bid does not exceed the current highest bid.
    InsufficientBidAmount,
    /// The settlement destination is not owned by the highest bidder.
    InvalidTokenAccount,
    NoBidToWithdraw,
    /// The asset is divisible or not unique.
    InvalidNFT,
}

/// The accounts of `initialize`.
#[derive(Clone, Copy, Debug)]
pub struct Initialize {
    pub seller: Key,
}

/// The accounts of `start`, with what the mint says of the asset.
#[derive(Clone, Copy, Debug)]
pub struct Start {
    pub mint: Key,
    pub mint_decimals: u8,
    pub mint_supply: u64,
    pub seller: Key,
    pub seller_token_account: Key,
    pub auction_token_account: Key,
}

/// The accounts of `bid`.
#[derive(Clone, Copy, Debug)]
pub struct Bid {
    pub auction: Key,
    pub bidder: Key,
}

/// The accounts of `withdraw`.
#[derive(Clone, Copy, Debug)]
pub struct Withdraw {
    pub auction: Key,
    pub bidder: Key,
}

/// The accounts of `end`, with the declared owner of the destination and the
/// auction's bump.
#[derive(Clone, Copy, Debug)]
pub struct End {
    pub auction: Key,
    pub auction_bump: u8,
    pub seller: Key,
    pub highest_bidder_token_account: Key,
    pub highest_bidder_token_owner: Key,
    pub auction_token_account: Key,
}

/// A fresh auction of `seller` with the floor `starting_bid`.
pub open spec fn initial_auction(seller: Key, starting_bid: u64) -> Auction {
    Auction {
        nft_mint: crate::key::key_from(default_key()),
        seller,
        is_started: false,
        is_ended: false,
        starting_bid,
        highest_bidder: crate::key::key_from(default_key()),
        highest_bid: starting_bid,
    }
}

/// Whether a mint describes a single indivisible unit.
pub open spec fn is_nft(decimals: u8, supply: u64) -> bool {
    decimals == 0 && supply == 1
}

/// The error with which `start` refuses, if any.
pub open spec fn start_error(a: Auction, ctx: Start) -> Option<AuctionError> {
    if ctx.seller != a.seller {
        Some(AuctionError::Unauthorized)
    } else if a.is_started {
        Some(AuctionError::AlreadyStarted)
    } else if !is_nft(ctx.mint_decimals, ctx.mint_supply) {
        Some(AuctionError::InvalidNFT)
    } else {
        None
    }
}

/// The auction after `start`.
pub open spec fn start_step(a: Auction, ctx: Start) -> Auction {
    if start_error(a, ctx) is None {
        Auction { is_started: true, nft_mint: ctx.mint, ..a }
    } else {
        a
    }
}

/// The error with which `bid` refuses, if any.
pub open spec fn bid_error(a: Auction, amount: u64) -> Option<AuctionError> {
    if !a.is_started {
        Some(AuctionError::NotStarted)
    } else if a.is_ended {
        Some(AuctionError::AlreadyEnded)
    } else if amount <= a.highest_bid {
        Some(AuctionError::InsufficientBidAmount)
    } else {
        None
    }
}

/// The auction after `bidder` bids `amount`.
pub open spec fn bid_step(a: Auction, bidder: Key, amount: u64) -> Auction {
    if bid_error(a, amount) is None {
        Auction { highest_bidder: bidder, highest_bid: amount, ..a }
    } else {
        a
    }
}

/// The error with which `withdraw` refuses, if any.
pub open spec fn withdraw_error(a: Auction, b: BidAccount, caller: Key) -> Option<AuctionError> {
    if b.bidder != caller {
        Some(AuctionError::Unauthorized)
    } else if !a.is_started {
        Some(AuctionError::NotStarted)
    } else if a.is_ended {
        Some(AuctionError::AlreadyEnded)
    } else if b.amount == 0 {
        Some(AuctionError::NoBidToWithdraw)
    } else {
        None
    }
}

/// The auction after the owner of `b` withdraws: a leading bidder gives the
/// lead up and the floor returns to the starting bid.
pub open spec fn withdraw_step(a: Auction, b: BidAccount, caller: Key) -> Auction {
    if withdraw_error(a, b, caller) is None && b.bidder == a.highest_bidder {
        Auction {
            highest_bidder: crate::key::key_from(default_key()),
            highest_bid: a.starting_bid,
            ..a
        }
    } else {
        a
    }
}

/// The error with which `end` refuses, if any.
pub open spec fn end_error(a: Auction, ctx: End) -> Option<AuctionError> {
    if ctx.seller != a.seller {
        Some(AuctionError::Unauthorized)
    } else if ctx.highest_bidder_token_owner != a.highest_bidder {
        Some(AuctionError::InvalidTokenAccount)
    } else if !a.is_started {
        Some(AuctionError::NotStarted)
    } else if a.is_ended {
        Some(AuctionError::AlreadyEnded)
    } else {
        None
    }
}

/// The auction after `end`.
pub open spec fn end_step(a: Auction, ctx: End) -> Auction {
    if end_error(a, ctx) is None {
        Auction { is_ended: true, ..a }
    } else {
        a
    }
}

/// Creates the auction of `ctx.seller` with no bids and the floor
/// `starting_bid`.
pub fn initialize(ctx: &Initialize, starting_bid: u64) -> (a: Auction)
    ensures
        a == initial_auction(ctx.seller, starting_bid),
{
    let z = zero_key();
    proof {
        crate::key::lemma_key_from_view(z);
    }
    Auction {
        nft_mint: z,
        seller: ctx.seller,
        is_started: false,
        is_ended: false,
        starting_bid,
        highest_bidder: z,
        highest_bid: starting_bid,
    }
}

/// Opens the auction: records the asset and moves its single unit from the
/// seller's holding into escrow.
pub fn start(ctx: &Start, auction: &mut Auction) -> (r: Result<TokenTransfer, AuctionError>)
    ensures
        *final(auction) == start_step(*old(auction), *ctx),
        match r {
            Ok(t) => start_error(*old(auction), *ctx) is None && t == (TokenTransfer {
                from: ctx.seller_token_account,
                to: ctx.auction_token_account,
                authority: ctx.seller,
                amount: 1,
                signer: None,
            }),
            Err(e) => start_error(*old(auction), *ctx) == Some(e),
        },
{
    if !keys_equal(&ctx.seller, &auction.seller) {
        return Err(AuctionError::Unauthorized);
    }
    if auction.is_started {
        return Err(AuctionError::AlreadyStarted);
    }
    if !(ctx.mint_decimals == 0 && ctx.mint_supply == 1) {
        return Err(AuctionError::InvalidNFT);
    }
    auction.is_started = true;
    auction.nft_mint = ctx.mint;
    Ok(
        TokenTransfer {
            from: ctx.seller_token_account,
            to: ctx.auction_token_account,
            authority: ctx.seller,
            amount: 1,
            signer: None,
        },
    )
}

/// Places a bid above the current highest one; the funds go into escrow and
/// are added to the bidder's record.
pub fn bid(ctx: &Bid, auction: &mut Auction, bid_account: &mut BidAccount, bid_amount: u64) -> (r:
    Result<LamportTransfer, AuctionError>)
    requires
        old(bid_account).amount + bid_amount <= u64::MAX,
    ensures
        *final(auction) == bid_step(*old(auction), ctx.bidder, bid_amount),
        match r {
            Ok(t) => {
                &&& bid_error(*old(auction), bid_amount) is None
                &&& *final(bid_account) == (BidAccount {
                    bidder: ctx.bidder,
                    amount: (old(bid_account).amount + bid_amount) as u64,
                })
                &&& t == (LamportTransfer { from: ctx.bidder, to: ctx.auction, amount: bid_amount })
            },
            Err(e) => {
                &&& bid_error(*old(auction), bid_amount) == Some(e)
                &&& *final(bid_account) == *old(bid_account)
            },
        },
{
    if !auction.is_started {
        return Err(AuctionError::NotStarted);
    }
    if auction.is_ended {
        return Err(AuctionError::AlreadyEnded);
    }
    if bid_amount <= auction.highest_bid {
        return Err(AuctionError::InsufficientBidAmount);
    }
    auction.highest_bidder = ctx.bidder;
    auction.highest_bid = bid_amount;
    bid_account.bidder = ctx.bidder;
    bid_account.amount = bid_account.amount + bid_amount;
    Ok(LamportTransfer { from: ctx.bidder, to: ctx.auction, amount: bid_amount })
}

/// Returns a bidder's escrowed funds and zeroes the record; a leading bidder
/// gives up the lead.
pub fn withdraw(ctx: &Withdraw, auction: &mut Auction, bid_account: &mut BidAccount) -> (r: Result<
    LamportTransfer,
    AuctionError,
>)
    ensures
        *final(auction) == withdraw_step(*old(auction), *old(bid_account), ctx.bidder),
        match r {
            Ok(t) => {
                &&& withdraw_error(*old(auction), *old(bid_account), ctx.bidder) is None
                &&& *final(bid_account) == (BidAccount { bidder: old(bid_account).bidder, amount: 0 })
                &&& t == (LamportTransfer {
                    from: ctx.auction,
                    to: ctx.bidder,
                    amount: old(bid_account).amount,
                })
            },
            Err(e) => {
                &&& withdraw_error(*old(auction), *old(bid_account), ctx.bidder) == Some(e)
                &&& *final(bid_account) == *old(bid_account)
            },
        },
{
    if !keys_equal(&bid_account.bidder, &ctx.bidder) {
        return Err(AuctionError::Unauthorized);
    }
    if !auction.is_started {
        return Err(AuctionError::NotStarted);
    }
    if auction.is_ended {
        return Err(AuctionError::AlreadyEnded);
    }
    let bid_amount = bid_account.amount;
    if bid_amount == 0 {
        return Err(AuctionError::NoBidToWithdraw);
    }
    if keys_equal(&bid_account.bidder, &auction.highest_bidder) {
        let z = zero_key();
        proof {
            crate::key::lemma_key_from_view(z);
        }
        auction.highest_bidder = z;
        auction.highest_bid = auction.starting_bid;
    }
    bid_account.amount = 0;
    Ok(LamportTransfer { from: ctx.auction, to: ctx.bidder, amount: bid_amount })
}

/// Closes the auction and hands the escrowed unit to the highest bidder's
/// holding, the auction signing through its derived address.
pub fn end(ctx: &End, auction: &mut Auction) -> (r: Result<TokenTransfer, AuctionError>)
    ensures
        *final(auction) == end_step(*old(auction), *ctx),
        match r {
            Ok(t) => end_error(*old(auction), *ctx) is None && t == (TokenTransfer {
                from: ctx.auction_token_account,
                to: ctx.highest_bidder_token_account,
                authority: ctx.auction,
                amount: 1,
                signer: Some(PdaSigner { owner: old(auction).seller, bump: ctx.auction_bump }),
            }),
            Err(e) => end_error(*old(auction), *ctx) == Some(e),
        },
{
    if !keys_equal(&ctx.seller, &auction.seller) {
        return Err(AuctionError::Unauthorized);
    }
    if !keys_equal(&ctx.highest_bidder_token_owner, &auction.highest_bidder) {
        return Err(AuctionError::InvalidTokenAccount);
    }
    if !auction.is_started {
        return Err(AuctionError::NotStarted);
    }
    if auction.is_ended {
        return Err(AuctionError::AlreadyEnded);
    }
    auction.is_ended = true;
    Ok(
        TokenTransfer {
            from: ctx.auction_token_account,
            to: ctx.highest_bidder_token_account,
            authority: ctx.auction,
            amount: 1,
            signer: Some(PdaSigner { owner: auction.seller, bump: ctx.auction_bump }),
        },
    )
}

} // verus!
