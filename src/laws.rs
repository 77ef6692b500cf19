use crate::auction::{
    bid_error, bid_step, end_error, end_step, initial_auction, is_nft, start_error, start_step,
    withdraw_step, Auction, AuctionError, BidAccount, End, Start,
};
use crate::key::Key;
use vstd::prelude::*;

verus! {

/// The auction after a run of bids, each a bidder and an amount, whether
/// accepted or refused.
pub open spec fn run_bids(a: Auction, bids: Seq<(Key, u64)>) -> Auction
    decreases bids.len(),
{
    if bids.len() == 0 {
        a
    } else {
        bid_step(run_bids(a, bids.drop_last()), bids.last().0, bids.last().1)
    }
}

/// Whether the `i`-th bid of a run is accepted.
pub open spec fn bid_accepted(a: Auction, bids: Seq<(Key, u64)>, i: int) -> bool {
    bid_error(run_bids(a, bids.take(i)), bids[i].1) is None
}

proof fn lemma_run_bids_step(a: Auction, bids: Seq<(Key, u64)>, k: int)
    requires
        0 <= k < bids.len(),
    ensures
        run_bids(a, bids.take(k + 1)) == bid_step(run_bids(a, bids.take(k)), bids[k].0, bids[k].1),
{
    assert(bids.take(k + 1).drop_last() =~= bids.take(k));
    assert(bids.take(k + 1).last() == bids[k]);
}

proof fn lemma_run_bids_monotone(a: Auction, bids: Seq<(Key, u64)>, i: int, j: int)
    requires
        0 <= i <= j <= bids.len(),
    ensures
        run_bids(a, bids.take(i)).highest_bid <= run_bids(a, bids.take(j)).highest_bid,
    decreases j - i,
{
    if i < j {
        lemma_run_bids_monotone(a, bids, i, j - 1);
        lemma_run_bids_step(a, bids, j - 1);
    }
}

/// Over any run of bids the highest bid never falls, an accepted bid becomes
/// the highest, and each accepted bid exceeds every bid accepted before it.
pub proof fn lemma_highest_bid_rises(a: Auction, bids: Seq<(Key, u64)>)
    ensures
        forall|i: int, j: int|
            0 <= i <= j <= bids.len() ==> #[trigger] run_bids(a, bids.take(i)).highest_bid
                <= #[trigger] run_bids(a, bids.take(j)).highest_bid,
        forall|i: int|
            0 <= i < bids.len() && #[trigger] bid_accepted(a, bids, i) ==> run_bids(
                a,
                bids.take(i + 1),
            ).highest_bid == bids[i].1,
        forall|i: int, j: int|
            0 <= i < j < bids.len() && #[trigger] bid_accepted(a, bids, i) && #[trigger] bid_accepted(
                a,
                bids,
                j,
            ) ==> bids[i].1 < bids[j].1,
{
    assert forall|i: int, j: int| 0 <= i <= j <= bids.len() implies #[trigger] run_bids(
        a,
        bids.take(i),
    ).highest_bid <= #[trigger] run_bids(a, bids.take(j)).highest_bid by {
        lemma_run_bids_monotone(a, bids, i, j);
    }
    assert forall|i: int| 0 <= i < bids.len() && #[trigger] bid_accepted(a, bids, i) implies run_bids(
        a,
        bids.take(i + 1),
    ).highest_bid == bids[i].1 by {
        lemma_run_bids_step(a, bids, i);
    }
    assert forall|i: int, j: int|
        0 <= i < j < bids.len() && #[trigger] bid_accepted(a, bids, i) && #[trigger] bid_accepted(
            a,
            bids,
            j,
        ) implies bids[i].1 < bids[j].1 by {
        lemma_run_bids_step(a, bids, i);
        lemma_run_bids_monotone(a, bids, i + 1, j);
    }
}

/// One call of an operation that changes an auction, with its inputs.
pub enum Operation {
    Start(Start),
    Bid(Key, u64),
    Withdraw(BidAccount, Key),
    End(End),
}

/// The auction after one operation, whether accepted or refused.
pub open spec fn operation_step(a: Auction, op: Operation) -> Auction {
    match op {
        Operation::Start(ctx) => start_step(a, ctx),
        Operation::Bid(bidder, amount) => bid_step(a, bidder, amount),
        Operation::Withdraw(b, caller) => withdraw_step(a, b, caller),
        Operation::End(ctx) => end_step(a, ctx),
    }
}

/// The auction after a run of operations.
pub open spec fn run_operations(a: Auction, ops: Seq<Operation>) -> Auction
    decreases ops.len(),
{
    if ops.len() == 0 {
        a
    } else {
        operation_step(run_operations(a, ops.drop_last()), ops.last())
    }
}

/// No run of operations changes the seller or resets a lifecycle flag, and an
/// ended auction no longer changes at all.
pub proof fn lemma_lifecycle_monotone(a: Auction, ops: Seq<Operation>)
    ensures
        run_operations(a, ops).seller == a.seller,
        a.is_started ==> run_operations(a, ops).is_started,
        a.is_ended ==> run_operations(a, ops).is_ended,
        a.is_started && a.is_ended ==> run_operations(a, ops) == a,
    decreases ops.len(),
{
    if ops.len() > 0 {
        lemma_lifecycle_monotone(a, ops.drop_last());
    }
}

/// When the seller starts a fresh auction, `start` refuses with `InvalidNFT`
/// exactly when the asset is divisible or not unique and succeeds otherwise;
/// after it succeeds, every later `start`, whatever came between, fails, with
/// `AlreadyStarted` when the seller calls.
pub proof fn lemma_start_once(a: Auction, ctx: Start, ops: Seq<Operation>, later: Start)
    requires
        ctx.seller == a.seller,
        !a.is_started,
    ensures
        start_error(a, ctx) == Some(AuctionError::InvalidNFT) <==> !is_nft(
            ctx.mint_decimals,
            ctx.mint_supply,
        ),
        start_error(a, ctx) is None <==> is_nft(ctx.mint_decimals, ctx.mint_supply),
        start_error(a, ctx) is None ==> start_error(
            run_operations(start_step(a, ctx), ops),
            later,
        ) is Some,
        start_error(a, ctx) is None && later.seller == a.seller ==> start_error(
            run_operations(start_step(a, ctx), ops),
            later,
        ) == Some(AuctionError::AlreadyStarted),
{
    lemma_lifecycle_monotone(start_step(a, ctx), ops);
}

/// `bid` fails with `NotStarted` on an auction not yet started, a fresh one
/// included, and with `AlreadyEnded` at any time after `end` has succeeded.
pub proof fn lemma_bid_needs_open_auction(
    a: Auction,
    seller: Key,
    starting_bid: u64,
    amount: u64,
    ctx: End,
    ops: Seq<Operation>,
)
    ensures
        !a.is_started ==> bid_error(a, amount) == Some(AuctionError::NotStarted),
        bid_error(initial_auction(seller, starting_bid), amount) == Some(AuctionError::NotStarted),
        end_error(a, ctx) is None ==> bid_error(run_operations(end_step(a, ctx), ops), amount)
            == Some(AuctionError::AlreadyEnded),
{
    lemma_lifecycle_monotone(end_step(a, ctx), ops);
}

/// When the seller calls `end`, it refuses with `InvalidTokenAccount` exactly
/// when the destination's owner is not the highest bidder; after a settlement
/// the auction no longer changes and every later `end` fails, with
/// `AlreadyEnded` when the seller calls with the winner's holding, so the
/// asset moves once.
pub proof fn lemma_end_settles_once(a: Auction, ctx: End, ops: Seq<Operation>, later: End)
    requires
        ctx.seller == a.seller,
    ensures
        end_error(a, ctx) == Some(AuctionError::InvalidTokenAccount) <==> ctx.highest_bidder_token_owner
            != a.highest_bidder,
        end_error(a, ctx) is None ==> run_operations(end_step(a, ctx), ops) == end_step(a, ctx),
        end_error(a, ctx) is None ==> end_error(run_operations(end_step(a, ctx), ops), later) is Some,
        end_error(a, ctx) is None && later.seller == a.seller && later.highest_bidder_token_owner
            == a.highest_bidder ==> end_error(run_operations(end_step(a, ctx), ops), later) == Some(
            AuctionError::AlreadyEnded,
        ),
{
    lemma_lifecycle_monotone(end_step(a, ctx), ops);
}

} // verus!
