//! The settlement engine: one auction together with its bid store and its
//! escrow holding, driven through the core entry points. Every operation
//! preserves the conservation invariant tying the escrow balance to what the
//! admitted bids are still owed, so no settlement can ever move more out of
//! escrow than was deposited.

use vstd::prelude::*;

use crate::auction::{Auction, AuctionStatus};
use crate::bid::{
    all_pending, all_settled, lemma_owed_all_pending, lemma_owed_all_settled,
    lemma_owed_covers_bid, lemma_sum_refunds, lemma_sums_nonneg, lemma_sums_push,
    lemma_sums_update, sum_final_costs, sum_owed, sum_refunds, sum_token_amounts, sum_total_costs,
    Bid, BidStatus,
};
use crate::errors::CarbonError;
use crate::holding::HoldingAccount;
use crate::pricing::{
    calculate_current_price, lemma_price_bounds, lemma_scaled_cost_monotone,
    lemma_scaled_cost_nonneg, price_at, scale_cost, scaled_cost,
};
use crate::registry::IndustryAccount;

verus! {

/// What a successful bid admission tells the surrounding application: the
/// decayed price the bid was admitted at and the cost that must now be moved
/// into escrow.
#[derive(Clone, Copy, Debug, PartialEq, Eq, Structural)]
pub struct BidReceipt {
    pub price_per_token: u64,
    pub total_cost: u64,
}

/// What a successful claim settlement tells the surrounding application: the
/// refund to return to the bidder, the final cost that stays with the
/// auction, and the credits to mint to the bidder's industry account.
#[derive(Clone, Copy, Debug, PartialEq, Eq, Structural)]
pub struct ClaimReceipt {
    pub refund: u64,
    pub final_cost: u64,
    pub minted: u64,
}

/// One auction with its append-only bid store and its escrow holding.
/// `proceeds_withdrawn` records whether the owner has already drained the
/// releasable escrow after finalization.
pub struct EscrowedAuction {
    pub auction: Auction,
    pub bids: Vec<Bid>,
    pub escrow: HoldingAccount,
    pub proceeds_withdrawn: bool,
}

impl EscrowedAuction {
    /// The conservation invariant. The auction's counters agree with the bid
    /// store's aggregates; before finalization every bid is pending; each
    /// accepted bid settled at no more than it escrowed; and the escrow
    /// balance is exactly the reserve floor plus what the bids are still
    /// owed, until the owner withdraws the proceeds.
    pub open spec fn inv(self) -> bool {
        &&& self.auction.wf()
        &&& self.auction.participant_count as int == self.bids@.len()
        &&& self.auction.tokens_remaining + sum_token_amounts(self.bids@)
            == self.auction.total_tokens
        &&& self.auction.total_raised as int == sum_total_costs(self.bids@)
        &&& forall|i: int|
            0 <= i < self.bids@.len() ==> (#[trigger] self.bids@[i]).wf_for(self.auction)
        &&& (!(self.auction.status is Finalized) ==> all_pending(self.bids@))
        &&& (self.auction.status is Finalized ==> forall|i: int|
            0 <= i < self.bids@.len() && (#[trigger] self.bids@[i]).status is Accepted
                ==> scaled_cost(self.bids@[i].token_amount as int, self.auction.current_price as int)
                <= self.bids@[i].total_cost)
        &&& (if self.proceeds_withdrawn {
            self.auction.status is Finalized && self.escrow.balance == self.escrow.reserve
        } else {
            self.escrow.balance == self.escrow.reserve + sum_owed(
                self.bids@,
                self.auction.current_price as int,
            )
        })
    }

    /// The decayed price a bid admitted at time `now` would pay.
    pub open spec fn spec_bid_price(self, now: i64) -> int {
        price_at(
            self.auction.start_price as int,
            self.auction.reserve_price as int,
            self.auction.start_time as int,
            self.auction.end_time as int,
            now as int,
        )
    }

    /// Whether a bid would pass admission validation: a verified bidder, an
    /// active auction whose window is still open, and a positive amount not
    /// exceeding the remaining supply.
    pub open spec fn admissible(self, bidder_verified: bool, token_amount: u64, now: i64) -> bool {
        &&& bidder_verified
        &&& self.auction.status is Active
        &&& now < self.auction.end_time
        &&& token_amount <= self.auction.tokens_remaining
        &&& 0 < token_amount
    }

    /// Whether the counters an admission must grow all fit their types: the
    /// bid's cost, the raised total, the participant count, and the escrow
    /// balance.
    pub open spec fn admission_fits(self, token_amount: u64, now: i64) -> bool {
        let cost = scaled_cost(token_amount as int, self.spec_bid_price(now));
        &&& cost <= u64::MAX
        &&& self.auction.total_raised + cost <= u64::MAX
        &&& self.auction.participant_count + 1 <= u32::MAX
        &&& self.escrow.balance + cost <= u64::MAX
    }

    /// The bid record an admission at time `now` appends.
    pub open spec fn admitted_bid(
        self,
        bidder: u64,
        industry_owner: u64,
        token_amount: u64,
        timestamp: i64,
        now: i64,
    ) -> Bid {
        let price = self.spec_bid_price(now);
        Bid {
            auction_batch: self.auction.batch_number,
            bidder: bidder,
            industry_owner: industry_owner,
            token_amount: token_amount,
            price_per_token: price as u64,
            total_cost: scaled_cost(token_amount as int, price) as u64,
            timestamp: timestamp,
            status: BidStatus::Pending,
        }
    }

    /// Creates an auction with an empty bid store and a freshly funded escrow
    /// holding, validating exactly as `Auction::create` does.
    pub fn create_auction(
        authority: u64,
        batch_number: u32,
        total_tokens: u64,
        start_price: u64,
        reserve_price: u64,
        duration_seconds: i64,
        now: i64,
        escrow_reserve: u64,
    ) -> (r: Result<EscrowedAuction, CarbonError>)
        ensures
            start_price <= reserve_price ==> r == Err::<EscrowedAuction, CarbonError>(
                CarbonError::InvalidPricing,
            ),
            start_price > reserve_price && duration_seconds <= 0 ==> r == Err::<
                EscrowedAuction,
                CarbonError,
            >(CarbonError::InvalidDuration),
            start_price > reserve_price && duration_seconds > 0 && total_tokens == 0 ==> r
                == Err::<EscrowedAuction, CarbonError>(CarbonError::InvalidTokenAmount),
            start_price > reserve_price && duration_seconds > 0 && total_tokens > 0 && now
                + duration_seconds > i64::MAX ==> r == Err::<EscrowedAuction, CarbonError>(
                CarbonError::MathOverflow,
            ),
            start_price > reserve_price && duration_seconds > 0 && total_tokens > 0 && now
                + duration_seconds <= i64::MAX ==> (r matches Ok(book) && book.inv()
                && book.auction == Auction::fresh(
                authority,
                batch_number,
                total_tokens,
                start_price,
                reserve_price,
                now,
                (now + duration_seconds) as i64,
            ) && book.bids@.len() == 0 && book.escrow == (HoldingAccount {
                balance: escrow_reserve,
                reserve: escrow_reserve,
            }) && !book.proceeds_withdrawn),
    {
        let auction = match Auction::create(
            authority,
            batch_number,
            total_tokens,
            start_price,
            reserve_price,
            duration_seconds,
            now,
        ) {
            Ok(a) => a,
            Err(e) => {
                return Err(e);
            },
        };
        let book = EscrowedAuction {
            auction,
            bids: Vec::new(),
            escrow: HoldingAccount::new(escrow_reserve),
            proceeds_withdrawn: false,
        };
        Ok(book)
    }

    /// Admits a bid: validates the bidder and the auction window, prices the
    /// bid at the current decayed price, and atomically decrements the
    /// remaining supply, appends the bid record, and grows the escrow by the
    /// bid's cost. Flips the auction to `Completed` when the bid takes the
    /// last of the supply. All checks precede all mutations, so a failure
    /// leaves every record unchanged.
    pub fn place_bid(
        &mut self,
        bidder: u64,
        industry: &IndustryAccount,
        token_amount: u64,
        timestamp: i64,
        now: i64,
    ) -> (r: Result<BidReceipt, CarbonError>)
        requires
            old(self).inv(),
            industry.authority == bidder,
        ensures
            final(self).inv(),
            final(self).auction.tokens_remaining <= old(self).auction.tokens_remaining,
            !industry.verified ==> r == Err::<BidReceipt, CarbonError>(CarbonError::NotVerified)
                && *final(self) == *old(self),
            industry.verified && !(old(self).auction.status is Active) ==> r == Err::<
                BidReceipt,
                CarbonError,
            >(CarbonError::AuctionNotActive) && *final(self) == *old(self),
            industry.verified && old(self).auction.status is Active && now >= old(
                self,
            ).auction.end_time ==> r == Err::<BidReceipt, CarbonError>(CarbonError::AuctionEnded)
                && *final(self) == *old(self),
            industry.verified && old(self).auction.status is Active && now < old(
                self,
            ).auction.end_time && token_amount > old(self).auction.tokens_remaining ==> r == Err::<
                BidReceipt,
                CarbonError,
            >(CarbonError::InsufficientTokens) && *final(self) == *old(self),
            industry.verified && old(self).auction.status is Active && now < old(
                self,
            ).auction.end_time && token_amount <= old(self).auction.tokens_remaining
                && token_amount == 0 ==> r == Err::<BidReceipt, CarbonError>(
                CarbonError::InvalidTokenAmount,
            ) && *final(self) == *old(self),
            old(self).admissible(industry.verified, token_amount, now) && !old(
                self,
            ).admission_fits(token_amount, now) ==> r == Err::<BidReceipt, CarbonError>(
                CarbonError::MathOverflow,
            ) && *final(self) == *old(self),
            old(self).admissible(industry.verified, token_amount, now) && old(self).admission_fits(
                token_amount,
                now,
            ) ==> ({
                let price = old(self).spec_bid_price(now);
                let cost = scaled_cost(token_amount as int, price);
                &&& r == Ok::<BidReceipt, CarbonError>(BidReceipt {
                    price_per_token: price as u64,
                    total_cost: cost as u64,
                })
                &&& final(self).auction == (Auction {
                    tokens_remaining: (old(self).auction.tokens_remaining - token_amount) as u64,
                    current_price: price as u64,
                    total_raised: (old(self).auction.total_raised + cost) as u64,
                    participant_count: (old(self).auction.participant_count + 1) as u32,
                    status: if old(self).auction.tokens_remaining == token_amount {
                        AuctionStatus::Completed
                    } else {
                        AuctionStatus::Active
                    },
                    ..old(self).auction
                })
                &&& final(self).bids@ == old(self).bids@.push(
                    old(self).admitted_bid(bidder, industry.authority, token_amount, timestamp, now),
                )
                &&& final(self).escrow == (HoldingAccount {
                    balance: (old(self).escrow.balance + cost) as u64,
                    ..old(self).escrow
                })
                &&& final(self).proceeds_withdrawn == old(self).proceeds_withdrawn
            }),
    {
        if !industry.verified {
            return Err(CarbonError::NotVerified);
        }
        match self.auction.status {
            AuctionStatus::Active => (),
            _ => {
                return Err(CarbonError::AuctionNotActive);
            },
        }
        if now >= self.auction.end_time {
            return Err(CarbonError::AuctionEnded);
        }
        if token_amount > self.auction.tokens_remaining {
            return Err(CarbonError::InsufficientTokens);
        }
        if token_amount == 0 {
            return Err(CarbonError::InvalidTokenAmount);
        }

        let current_price: u64 = match calculate_current_price(
            self.auction.start_price,
            self.auction.reserve_price,
            self.auction.start_time,
            self.auction.end_time,
            now,
        ) {
            Ok(p) => p,
            Err(e) => {
                proof {
                    assert(false);  // a well-formed auction's price is always computable
                }
                return Err(e);
            },
        };
        proof {
            lemma_price_bounds(
                self.auction.start_price as int,
                self.auction.reserve_price as int,
                self.auction.start_time as int,
                self.auction.end_time as int,
                now as int,
            );
        }
        let cost: u64 = match scale_cost(token_amount, current_price) {
            Ok(c) => c,
            Err(e) => {
                return Err(e);
            },
        };
        let new_raised: u64 = match self.auction.total_raised.checked_add(cost) {
            Some(v) => v,
            None => {
                return Err(CarbonError::MathOverflow);
            },
        };
        let new_count: u32 = match self.auction.participant_count.checked_add(1) {
            Some(v) => v,
            None => {
                return Err(CarbonError::MathOverflow);
            },
        };
        let new_balance: u64 = match self.escrow.balance.checked_add(cost) {
            Some(v) => v,
            None => {
                return Err(CarbonError::MathOverflow);
            },
        };

        let bid = Bid {
            auction_batch: self.auction.batch_number,
            bidder,
            industry_owner: industry.authority,
            token_amount,
            price_per_token: current_price,
            total_cost: cost,
            timestamp,
            status: BidStatus::Pending,
        };

        self.auction.current_price = current_price;
        self.auction.tokens_remaining = self.auction.tokens_remaining - token_amount;
        self.auction.total_raised = new_raised;
        self.auction.participant_count = new_count;
        if self.auction.tokens_remaining == 0 {
            self.auction.status = AuctionStatus::Completed;
        }
        self.bids.push(bid);
        self.escrow.balance = new_balance;

        proof {
            let clearing = current_price as int;
            let old_clearing = old(self).auction.current_price as int;
            lemma_sums_push(old(self).bids@, bid, clearing);
            lemma_owed_all_pending(old(self).bids@, old_clearing);
            lemma_owed_all_pending(old(self).bids@, clearing);
            lemma_owed_all_pending(self.bids@, clearing);
            assert forall|i: int| 0 <= i < self.bids@.len() implies (
            #[trigger] self.bids@[i]).wf_for(self.auction) by {
                if i < old(self).bids@.len() {
                    assert(old(self).bids@[i].wf_for(old(self).auction));
                }
            }
        }
        Ok(BidReceipt { price_per_token: current_price, total_cost: cost })
    }

    /// Settles one bid of a finalized auction: computes the final cost at the
    /// clearing price, refunds the bidder the difference against what was
    /// escrowed, directs the mint of the bid's token amount to the bidder's
    /// industry account, and moves the bid to its terminal `Accepted` status.
    /// Settling is idempotent per bid: a second claim fails with
    /// `BidAlreadyProcessed` and changes nothing, so no bid is ever paid or
    /// minted twice. While the proceeds have not been withdrawn, the escrow
    /// invariant guarantees the refund can never be short.
    pub fn claim_tokens(&mut self, bid_index: usize, industry: &mut IndustryAccount) -> (r: Result<
        ClaimReceipt,
        CarbonError,
    >)
        requires
            old(self).inv(),
            bid_index < old(self).bids@.len(),
            old(industry).authority == old(self).bids@[bid_index as int].industry_owner,
        ensures
            final(self).inv(),
            ({
                let a = old(self).auction;
                let b = old(self).bids@[bid_index as int];
                let clearing = a.current_price as int;
                let fc = scaled_cost(b.token_amount as int, clearing);
                let refund = b.total_cost - fc;
                &&& (!(a.status is Finalized) ==> r == Err::<ClaimReceipt, CarbonError>(
                    CarbonError::AuctionNotFinalized,
                ) && *final(self) == *old(self) && *final(industry) == *old(industry))
                &&& (a.status is Finalized && !(b.status is Pending) ==> r == Err::<
                    ClaimReceipt,
                    CarbonError,
                >(CarbonError::BidAlreadyProcessed) && *final(self) == *old(self)
                    && *final(industry) == *old(industry))
                &&& (a.status is Finalized && b.status is Pending && fc > b.total_cost ==> r
                    == Err::<ClaimReceipt, CarbonError>(CarbonError::MathOverflow) && *final(self)
                    == *old(self) && *final(industry) == *old(industry))
                &&& (a.status is Finalized && b.status is Pending && fc <= b.total_cost && refund
                    > 0 && old(self).escrow.spec_available() < refund ==> r == Err::<
                    ClaimReceipt,
                    CarbonError,
                >(CarbonError::InsufficientFunds) && *final(self) == *old(self) && *final(industry)
                    == *old(industry))
                &&& (a.status is Finalized && b.status is Pending && fc <= b.total_cost && (refund
                    == 0 || old(self).escrow.spec_available() >= refund) && (old(
                    industry,
                ).ct_balance + b.token_amount > u64::MAX || old(industry).total_purchased
                    + b.token_amount > u64::MAX) ==> r == Err::<ClaimReceipt, CarbonError>(
                    CarbonError::MathOverflow,
                ) && *final(self) == *old(self) && *final(industry) == *old(industry))
                &&& (a.status is Finalized && b.status is Pending && fc <= b.total_cost && (refund
                    == 0 || old(self).escrow.spec_available() >= refund) && old(industry).ct_balance
                    + b.token_amount <= u64::MAX && old(industry).total_purchased + b.token_amount
                    <= u64::MAX ==> ({
                    &&& r == Ok::<ClaimReceipt, CarbonError>(ClaimReceipt {
                        refund: refund as u64,
                        final_cost: fc as u64,
                        minted: b.token_amount,
                    })
                    &&& final(self).auction == old(self).auction
                    &&& final(self).bids@ == old(self).bids@.update(
                        bid_index as int,
                        (Bid { status: BidStatus::Accepted, ..b }),
                    )
                    &&& final(self).escrow == (HoldingAccount {
                        balance: (old(self).escrow.balance - refund) as u64,
                        ..old(self).escrow
                    })
                    &&& final(self).proceeds_withdrawn == old(self).proceeds_withdrawn
                    &&& *final(industry) == (IndustryAccount {
                        ct_balance: (old(industry).ct_balance + b.token_amount) as u64,
                        total_purchased: (old(industry).total_purchased + b.token_amount) as u64,
                        ..*old(industry)
                    })
                }))
            }),
            !old(self).proceeds_withdrawn ==> r != Err::<ClaimReceipt, CarbonError>(
                CarbonError::InsufficientFunds,
            ),
    {
        match self.auction.status {
            AuctionStatus::Finalized => (),
            _ => {
                return Err(CarbonError::AuctionNotFinalized);
            },
        }
        let bid = self.bids[bid_index];
        match bid.status {
            BidStatus::Pending => (),
            _ => {
                return Err(CarbonError::BidAlreadyProcessed);
            },
        }

        let clearing_price: u64 = self.auction.current_price;
        let final_cost: u64 = match scale_cost(bid.token_amount, clearing_price) {
            Ok(c) => c,
            Err(e) => {
                proof {
                    lemma_owed_covers_bid(self.bids@, bid_index as int, clearing_price as int);
                    lemma_sums_nonneg(self.bids@, clearing_price as int);
                }
                return Err(e);
            },
        };
        let refund_amount: u64 = match bid.total_cost.checked_sub(final_cost) {
            Some(v) => v,
            None => {
                return Err(CarbonError::MathOverflow);
            },
        };

        proof {
            lemma_owed_covers_bid(self.bids@, bid_index as int, clearing_price as int);
            lemma_sums_nonneg(self.bids@, clearing_price as int);
        }
        if refund_amount > 0 {
            let releasable: u64 = self.escrow.available();
            if releasable < refund_amount {
                return Err(CarbonError::InsufficientFunds);
            }
        }

        let new_ct_balance: u64 = match industry.ct_balance.checked_add(bid.token_amount) {
            Some(v) => v,
            None => {
                return Err(CarbonError::MathOverflow);
            },
        };
        let new_purchased: u64 = match industry.total_purchased.checked_add(bid.token_amount) {
            Some(v) => v,
            None => {
                return Err(CarbonError::MathOverflow);
            },
        };

        self.escrow.balance = self.escrow.balance - refund_amount;
        industry.ct_balance = new_ct_balance;
        industry.total_purchased = new_purchased;
        let settled = Bid { status: BidStatus::Accepted, ..bid };
        self.bids.set(bid_index, settled);

        proof {
            lemma_sums_update(
                old(self).bids@,
                bid_index as int,
                settled,
                clearing_price as int,
            );
            lemma_scaled_cost_nonneg(bid.token_amount as int, clearing_price as int);
            assert forall|i: int| 0 <= i < self.bids@.len() implies (
            #[trigger] self.bids@[i]).wf_for(self.auction) by {
                assert(old(self).bids@[i].wf_for(old(self).auction));
            }
        }
        Ok(ClaimReceipt { refund: refund_amount, final_cost, minted: bid.token_amount })
    }

    /// Finalizes the auction once it has ended by time or sold out, fixing
    /// the clearing price as `Auction::finalize` does. The bid store and the
    /// escrow are untouched: every bid is still pending and still owed its
    /// full escrowed cost.
    pub fn finalize_auction(&mut self, now: i64) -> (r: Result<(), CarbonError>)
        requires
            old(self).inv(),
        ensures
            final(self).inv(),
            final(self).bids@ == old(self).bids@,
            final(self).escrow == old(self).escrow,
            final(self).proceeds_withdrawn == old(self).proceeds_withdrawn,
            !(old(self).auction.status is Active || old(self).auction.status is Completed) ==> r
                == Err::<(), CarbonError>(CarbonError::InvalidAuctionStatus) && *final(self)
                == *old(self),
            (old(self).auction.status is Active || old(self).auction.status is Completed) && now
                < old(self).auction.end_time && old(self).auction.tokens_remaining > 0 ==> r
                == Err::<(), CarbonError>(CarbonError::AuctionNotEnded) && *final(self) == *old(
                self,
            ),
            (old(self).auction.status is Active || old(self).auction.status is Completed) && (now
                >= old(self).auction.end_time || old(self).auction.tokens_remaining == 0) ==> r
                == Ok::<(), CarbonError>(()) && final(self).auction == (Auction {
                status: AuctionStatus::Finalized,
                tokens_sold: (old(self).auction.total_tokens - old(
                    self,
                ).auction.tokens_remaining) as u64,
                current_price: if old(self).auction.tokens_remaining == 0 {
                    old(self).auction.current_price
                } else {
                    old(self).auction.reserve_price
                },
                ..old(self).auction
            }),
    {
        let r = self.auction.finalize(now);
        proof {
            if old(self).auction.status is Active || old(self).auction.status is Completed {
                lemma_owed_all_pending(self.bids@, old(self).auction.current_price as int);
                lemma_owed_all_pending(self.bids@, self.auction.current_price as int);
            }
        }
        r
    }

    /// Cancels an auction nobody has bid on. With no participants the bid
    /// store is empty and nothing is owed, so the escrow holds only its
    /// reserve floor throughout.
    pub fn cancel_auction(&mut self) -> (r: Result<(), CarbonError>)
        requires
            old(self).inv(),
        ensures
            final(self).inv(),
            final(self).bids@ == old(self).bids@,
            final(self).escrow == old(self).escrow,
            final(self).proceeds_withdrawn == old(self).proceeds_withdrawn,
            !(old(self).auction.status is Active) ==> r == Err::<(), CarbonError>(
                CarbonError::InvalidAuctionStatus,
            ) && *final(self) == *old(self),
            old(self).auction.status is Active && old(self).auction.participant_count > 0 ==> r
                == Err::<(), CarbonError>(CarbonError::HasParticipants) && *final(self) == *old(
                self,
            ),
            old(self).auction.status is Active && old(self).auction.participant_count == 0 ==> r
                == Ok::<(), CarbonError>(()) && final(self).auction == (Auction {
                status: AuctionStatus::Cancelled,
                ..old(self).auction
            }),
    {
        self.auction.cancel()
    }

    /// Withdraws the entire releasable escrow balance to the auction owner's
    /// treasury, once the auction is finalized. The returned amount is what
    /// the application must transfer; with the proceeds not yet withdrawn it
    /// equals exactly what the bids are still owed, so claiming before
    /// withdrawing settles every bid and leaves the owner the final costs.
    pub fn withdraw_proceeds(&mut self) -> (r: Result<u64, CarbonError>)
        requires
            old(self).inv(),
        ensures
            final(self).inv(),
            final(self).bids@ == old(self).bids@,
            final(self).auction == old(self).auction,
            !(old(self).auction.status is Finalized) ==> r == Err::<u64, CarbonError>(
                CarbonError::AuctionNotFinalized,
            ) && *final(self) == *old(self),
            old(self).auction.status is Finalized && old(self).escrow.spec_available() == 0 ==> r
                == Err::<u64, CarbonError>(CarbonError::InsufficientFunds) && *final(self) == *old(
                self,
            ),
            old(self).auction.status is Finalized && old(self).escrow.spec_available() > 0 ==> ({
                &&& r == Ok::<u64, CarbonError>(old(self).escrow.spec_available() as u64)
                &&& final(self).escrow == (HoldingAccount {
                    balance: old(self).escrow.reserve,
                    ..old(self).escrow
                })
                &&& final(self).proceeds_withdrawn
            }),
            old(self).auction.status is Finalized && !old(self).proceeds_withdrawn && old(
                self,
            ).escrow.spec_available() > 0 ==> r == Ok::<u64, CarbonError>(
                sum_owed(old(self).bids@, old(self).auction.current_price as int) as u64,
            ),
    {
        match self.auction.status {
            AuctionStatus::Finalized => (),
            _ => {
                return Err(CarbonError::AuctionNotFinalized);
            },
        }
        proof {
            lemma_sums_nonneg(self.bids@, self.auction.current_price as int);
        }
        let releasable: u64 = self.escrow.available();
        if releasable == 0 {
            return Err(CarbonError::InsufficientFunds);
        }
        self.escrow.balance = self.escrow.reserve;
        self.proceeds_withdrawn = true;
        Ok(releasable)
    }
}

/// Supply accounting holds in every reachable state: the remaining supply
/// plus every admitted bid's token amount is exactly the total supply, and
/// the remaining supply never exceeds it. Together with `place_bid`'s
/// postcondition (each admission strictly decrements the remaining supply by
/// the admitted amount) this makes the remaining supply non-increasing over
/// the sequence of admitted bids.
pub proof fn lemma_supply_conservation(book: EscrowedAuction)
    requires
        book.inv(),
    ensures
        book.auction.tokens_remaining + sum_token_amounts(book.bids@) == book.auction.total_tokens,
        book.auction.tokens_remaining <= book.auction.total_tokens,
        sum_token_amounts(book.bids@) >= 0,
{
    lemma_sums_nonneg(book.bids@, book.auction.current_price as int);
}

/// Whenever the clearing price does not exceed a bid's admission price — in
/// particular whenever the auction time-expired and cleared at the reserve,
/// which every admission price is at or above — the bid's final cost is
/// covered by what it escrowed: its claim settles with a non-negative refund
/// and can never fail on the refund subtraction.
pub proof fn lemma_clearing_below_admission_covers_settlement(book: EscrowedAuction, i: int)
    requires
        book.inv(),
        0 <= i < book.bids@.len(),
        book.auction.current_price <= book.bids@[i].price_per_token,
    ensures
        scaled_cost(book.bids@[i].token_amount as int, book.auction.current_price as int)
            <= book.bids@[i].total_cost,
{
    let b = book.bids@[i];
    assert(b.wf_for(book.auction));
    lemma_scaled_cost_monotone(
        b.token_amount as int,
        book.auction.current_price as int,
        b.price_per_token as int,
    );
}

/// Conservation of escrowed value for a finalized auction whose bids have all
/// settled: what remains withdrawable equals the accepted bids' final costs
/// at the clearing price, and that amount plus every refund paid out at
/// settlement is exactly the total escrowed by the admitted bids.
pub proof fn lemma_escrow_conservation(book: EscrowedAuction)
    requires
        book.inv(),
        book.auction.status is Finalized,
        !book.proceeds_withdrawn,
        all_settled(book.bids@),
    ensures
        book.escrow.spec_available() == sum_final_costs(
            book.bids@,
            book.auction.current_price as int,
        ),
        book.escrow.spec_available() + sum_refunds(book.bids@, book.auction.current_price as int)
            == sum_total_costs(book.bids@),
        sum_total_costs(book.bids@) == book.auction.total_raised,
{
    let clearing = book.auction.current_price as int;
    lemma_owed_all_settled(book.bids@, clearing);
    lemma_sum_refunds(book.bids@, clearing);
}

} // verus!
