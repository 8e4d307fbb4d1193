//! The bid store's record type and the aggregate accounting over a sequence
//! of bids: total tokens admitted, total cost escrowed, and how much of the
//! escrow each bid is still owed.

use vstd::prelude::*;

use crate::auction::Auction;
use crate::pricing::scaled_cost;

verus! {

/// Settlement state of one bid: created `Pending` at admission and moved to
/// the terminal `Accepted` exactly once, at claim settlement. (`Refunded` is
/// a terminal state reserved for a cancellation leg that never arises here,
/// since only bid-less auctions can be cancelled.)
#[derive(Clone, Copy, Debug, PartialEq, Eq, Structural)]
pub enum BidStatus {
    Pending,
    Accepted,
    Refunded,
}

/// One admitted bid. Immutable once admitted except for `status`;
/// `price_per_token` is the decayed price at admission time (not the clearing
/// price) and `total_cost` the amount escrowed at admission.
#[derive(Clone, Copy, Debug, PartialEq, Eq, Structural)]
pub struct Bid {
    pub auction_batch: u32,
    pub bidder: u64,
    pub industry_owner: u64,
    pub token_amount: u64,
    pub price_per_token: u64,
    pub total_cost: u64,
    pub timestamp: i64,
    pub status: BidStatus,
}

impl Bid {
    /// A bid is well-formed for its auction when it names the auction's
    /// batch, carries a positive token amount whose escrowed cost was
    /// computed from its admission price, and was admitted at a price inside
    /// the auction's decay band.
    pub open spec fn wf_for(self, auction: Auction) -> bool {
        &&& self.auction_batch == auction.batch_number
        &&& 0 < self.token_amount
        &&& self.total_cost == scaled_cost(self.token_amount as int, self.price_per_token as int)
        &&& auction.reserve_price <= self.price_per_token <= auction.start_price
    }
}

/// Sum of the token amounts of a sequence of bids.
pub open spec fn sum_token_amounts(bids: Seq<Bid>) -> int
    decreases bids.len(),
{
    if bids.len() == 0 {
        0
    } else {
        sum_token_amounts(bids.drop_last()) + bids.last().token_amount
    }
}

/// Sum of the escrowed costs of a sequence of bids.
pub open spec fn sum_total_costs(bids: Seq<Bid>) -> int
    decreases bids.len(),
{
    if bids.len() == 0 {
        0
    } else {
        sum_total_costs(bids.drop_last()) + bids.last().total_cost
    }
}

/// How much of the escrow one bid is still owed: its full escrowed cost while
/// it is pending, and only its final cost at the clearing price once it has
/// been accepted (the refund having left escrow at settlement).
pub open spec fn bid_owed(b: Bid, clearing_price: int) -> int {
    if b.status is Pending {
        b.total_cost as int
    } else {
        scaled_cost(b.token_amount as int, clearing_price)
    }
}

/// Sum of what the escrow still owes across a sequence of bids.
pub open spec fn sum_owed(bids: Seq<Bid>, clearing_price: int) -> int
    decreases bids.len(),
{
    if bids.len() == 0 {
        0
    } else {
        sum_owed(bids.drop_last(), clearing_price) + bid_owed(bids.last(), clearing_price)
    }
}

/// Sum of the final (clearing-price) costs of a sequence of bids.
pub open spec fn sum_final_costs(bids: Seq<Bid>, clearing_price: int) -> int
    decreases bids.len(),
{
    if bids.len() == 0 {
        0
    } else {
        sum_final_costs(bids.drop_last(), clearing_price) + scaled_cost(
            bids.last().token_amount as int,
            clearing_price,
        )
    }
}

/// Sum of the refunds owed at the clearing price: each bid's escrowed cost
/// less its final cost.
pub open spec fn sum_refunds(bids: Seq<Bid>, clearing_price: int) -> int
    decreases bids.len(),
{
    if bids.len() == 0 {
        0
    } else {
        sum_refunds(bids.drop_last(), clearing_price) + (bids.last().total_cost - scaled_cost(
            bids.last().token_amount as int,
            clearing_price,
        ))
    }
}

/// The refund total is exactly the escrowed total less the final-cost total.
pub proof fn lemma_sum_refunds(bids: Seq<Bid>, clearing_price: int)
    ensures
        sum_refunds(bids, clearing_price) == sum_total_costs(bids) - sum_final_costs(
            bids,
            clearing_price,
        ),
    decreases bids.len(),
{
    if bids.len() > 0 {
        lemma_sum_refunds(bids.drop_last(), clearing_price);
    }
}

/// Every bid in the sequence is still pending.
pub open spec fn all_pending(bids: Seq<Bid>) -> bool {
    forall|i: int| 0 <= i < bids.len() ==> (#[trigger] bids[i]).status is Pending
}

/// Every bid in the sequence has been accepted (settled).
pub open spec fn all_settled(bids: Seq<Bid>) -> bool {
    forall|i: int| 0 <= i < bids.len() ==> (#[trigger] bids[i]).status is Accepted
}

/// Appending a bid grows each aggregate by that bid's contribution.
pub proof fn lemma_sums_push(bids: Seq<Bid>, b: Bid, clearing_price: int)
    ensures
        sum_token_amounts(bids.push(b)) == sum_token_amounts(bids) + b.token_amount,
        sum_total_costs(bids.push(b)) == sum_total_costs(bids) + b.total_cost,
        sum_owed(bids.push(b), clearing_price) == sum_owed(bids, clearing_price) + bid_owed(
            b,
            clearing_price,
        ),
{
    assert(bids.push(b).drop_last() =~= bids);
}

/// Replacing the bid at one index changes each aggregate by exactly the
/// difference between the new and the old bid's contribution.
pub proof fn lemma_sums_update(bids: Seq<Bid>, i: int, b: Bid, clearing_price: int)
    requires
        0 <= i < bids.len(),
    ensures
        sum_token_amounts(bids.update(i, b)) == sum_token_amounts(bids) - bids[i].token_amount
            + b.token_amount,
        sum_total_costs(bids.update(i, b)) == sum_total_costs(bids) - bids[i].total_cost
            + b.total_cost,
        sum_owed(bids.update(i, b), clearing_price) == sum_owed(bids, clearing_price) - bid_owed(
            bids[i],
            clearing_price,
        ) + bid_owed(b, clearing_price),
    decreases bids.len(),
{
    let upd = bids.update(i, b);
    if i == bids.len() - 1 {
        assert(upd.drop_last() =~= bids.drop_last());
        assert(upd.last() == b);
    } else {
        assert(upd.drop_last() =~= bids.drop_last().update(i, b));
        assert(upd.last() == bids.last());
        lemma_sums_update(bids.drop_last(), i, b, clearing_price);
    }
}

/// While no bid has settled, the escrow owes every bid its full cost, so the
/// owed total equals the escrowed total whatever the clearing price.
pub proof fn lemma_owed_all_pending(bids: Seq<Bid>, clearing_price: int)
    requires
        all_pending(bids),
    ensures
        sum_owed(bids, clearing_price) == sum_total_costs(bids),
    decreases bids.len(),
{
    if bids.len() > 0 {
        assert(bids.last() == bids[bids.len() - 1]);
        assert(all_pending(bids.drop_last()));
        lemma_owed_all_pending(bids.drop_last(), clearing_price);
    }
}

/// Once every bid has settled, the escrow owes exactly the final costs at the
/// clearing price.
pub proof fn lemma_owed_all_settled(bids: Seq<Bid>, clearing_price: int)
    requires
        all_settled(bids),
    ensures
        sum_owed(bids, clearing_price) == sum_final_costs(bids, clearing_price),
    decreases bids.len(),
{
    if bids.len() > 0 {
        assert(bids.last() == bids[bids.len() - 1]);
        assert(all_settled(bids.drop_last()));
        lemma_owed_all_settled(bids.drop_last(), clearing_price);
    }
}

/// With non-negative amounts and a non-negative clearing price, every
/// aggregate is non-negative.
pub proof fn lemma_sums_nonneg(bids: Seq<Bid>, clearing_price: int)
    requires
        0 <= clearing_price,
    ensures
        0 <= sum_token_amounts(bids),
        0 <= sum_total_costs(bids),
        0 <= sum_owed(bids, clearing_price),
        0 <= sum_final_costs(bids, clearing_price),
    decreases bids.len(),
{
    if bids.len() > 0 {
        lemma_sums_nonneg(bids.drop_last(), clearing_price);
        crate::pricing::lemma_scaled_cost_nonneg(bids.last().token_amount as int, clearing_price);
    }
}

/// The owed total covers each single bid's owed amount: no claim can be
/// starved while the escrow invariant holds.
pub proof fn lemma_owed_covers_bid(bids: Seq<Bid>, i: int, clearing_price: int)
    requires
        0 <= i < bids.len(),
        0 <= clearing_price,
    ensures
        bid_owed(bids[i], clearing_price) <= sum_owed(bids, clearing_price),
    decreases bids.len(),
{
    lemma_sums_nonneg(bids.drop_last(), clearing_price);
    crate::pricing::lemma_scaled_cost_nonneg(bids.last().token_amount as int, clearing_price);
    if i == bids.len() - 1 {
        assert(bids.last() == bids[i]);
    } else {
        assert(bids.drop_last()[i] == bids[i]);
        lemma_owed_covers_bid(bids.drop_last(), i, clearing_price);
    }
}

} // verus!
