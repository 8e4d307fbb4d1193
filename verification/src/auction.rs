//! The auction ledger: one auction's supply accounting, price snapshot,
//! participant counter, and lifecycle status machine.

use vstd::prelude::*;

use crate::errors::CarbonError;

verus! {

/// Lifecycle of an auction. `Active` admits bids; `Completed` marks a
/// supply-exhausted auction awaiting finalization; `Finalized` and
/// `Cancelled` are terminal.
#[derive(Clone, Copy, Debug, PartialEq, Eq, Structural)]
pub enum AuctionStatus {
    Active,
    Completed,
    Finalized,
    Cancelled,
}

/// One auction's aggregate state. `current_price` caches the last observed
/// decayed price and becomes authoritative (the clearing price) only once the
/// status is `Finalized`; `tokens_sold` is likewise set at finalization.
#[derive(Clone, Copy, Debug, PartialEq, Eq, Structural)]
pub struct Auction {
    pub authority: u64,
    pub batch_number: u32,
    pub total_tokens: u64,
    pub tokens_remaining: u64,
    pub start_price: u64,
    pub current_price: u64,
    pub reserve_price: u64,
    pub start_time: i64,
    pub end_time: i64,
    pub status: AuctionStatus,
    pub total_raised: u64,
    pub participant_count: u32,
    pub tokens_sold: u64,
}

impl Auction {
    /// Well-formedness: the pricing and supply invariants that creation
    /// establishes and every lifecycle operation preserves.
    pub open spec fn wf(self) -> bool {
        &&& self.reserve_price < self.start_price
        &&& self.start_time < self.end_time
        &&& self.end_time - self.start_time <= i64::MAX
        &&& 0 < self.total_tokens
        &&& self.tokens_remaining <= self.total_tokens
        &&& self.reserve_price <= self.current_price <= self.start_price
        &&& (self.status is Active ==> 0 < self.tokens_remaining)
        &&& (self.status is Completed ==> self.tokens_remaining == 0)
        &&& (self.status is Finalized ==> self.tokens_sold == self.total_tokens
            - self.tokens_remaining)
        &&& (!(self.status is Finalized) ==> self.tokens_sold == 0)
    }

    /// The state a newly created auction starts in: full supply, price at the
    /// start price, all counters zero, status `Active`.
    pub open spec fn fresh(
        authority: u64,
        batch_number: u32,
        total_tokens: u64,
        start_price: u64,
        reserve_price: u64,
        start_time: i64,
        end_time: i64,
    ) -> Auction {
        Auction {
            authority: authority,
            batch_number: batch_number,
            total_tokens: total_tokens,
            tokens_remaining: total_tokens,
            start_price: start_price,
            current_price: start_price,
            reserve_price: reserve_price,
            start_time: start_time,
            end_time: end_time,
            status: AuctionStatus::Active,
            total_raised: 0,
            participant_count: 0,
            tokens_sold: 0,
        }
    }

    /// Creates an auction running from `now` for `duration_seconds`. Rejects a
    /// start price at or below the reserve, a non-positive duration, an empty
    /// supply, and an end time that does not fit the time type, in that order.
    pub fn create(
        authority: u64,
        batch_number: u32,
        total_tokens: u64,
        start_price: u64,
        reserve_price: u64,
        duration_seconds: i64,
        now: i64,
    ) -> (r: Result<Auction, CarbonError>)
        ensures
            start_price <= reserve_price ==> r == Err::<Auction, CarbonError>(
                CarbonError::InvalidPricing,
            ),
            start_price > reserve_price && duration_seconds <= 0 ==> r == Err::<
                Auction,
                CarbonError,
            >(CarbonError::InvalidDuration),
            start_price > reserve_price && duration_seconds > 0 && total_tokens == 0 ==> r
                == Err::<Auction, CarbonError>(CarbonError::InvalidTokenAmount),
            start_price > reserve_price && duration_seconds > 0 && total_tokens > 0 && now
                + duration_seconds > i64::MAX ==> r == Err::<Auction, CarbonError>(
                CarbonError::MathOverflow,
            ),
            start_price > reserve_price && duration_seconds > 0 && total_tokens > 0 && now
                + duration_seconds <= i64::MAX ==> r == Ok::<Auction, CarbonError>(
                Auction::fresh(
                    authority,
                    batch_number,
                    total_tokens,
                    start_price,
                    reserve_price,
                    now,
                    (now + duration_seconds) as i64,
                ),
            ),
            r matches Ok(a) ==> a.wf(),
    {
        if start_price <= reserve_price {
            return Err(CarbonError::InvalidPricing);
        }
        if duration_seconds <= 0 {
            return Err(CarbonError::InvalidDuration);
        }
        if total_tokens == 0 {
            return Err(CarbonError::InvalidTokenAmount);
        }
        let end_time: i64 = match now.checked_add(duration_seconds) {
            Some(t) => t,
            None => {
                return Err(CarbonError::MathOverflow);
            },
        };
        Ok(
            Auction {
                authority,
                batch_number,
                total_tokens,
                tokens_remaining: total_tokens,
                start_price,
                current_price: start_price,
                reserve_price,
                start_time: now,
                end_time,
                status: AuctionStatus::Active,
                total_raised: 0,
                participant_count: 0,
                tokens_sold: 0,
            },
        )
    }

    /// Fixes the clearing price once the auction has ended by time or sold
    /// out: the last observed price for a sellout, the reserve price for a
    /// time expiry with unsold supply. Sets `tokens_sold` and moves to the
    /// terminal `Finalized` status.
    pub fn finalize(&mut self, now: i64) -> (r: Result<(), CarbonError>)
        requires
            old(self).wf(),
        ensures
            final(self).wf(),
            !(old(self).status is Active || old(self).status is Completed) ==> r == Err::<
                (),
                CarbonError,
            >(CarbonError::InvalidAuctionStatus) && *final(self) == *old(self),
            (old(self).status is Active || old(self).status is Completed) && now < old(
                self,
            ).end_time && old(self).tokens_remaining > 0 ==> r == Err::<(), CarbonError>(
                CarbonError::AuctionNotEnded,
            ) && *final(self) == *old(self),
            (old(self).status is Active || old(self).status is Completed) && (now >= old(
                self,
            ).end_time || old(self).tokens_remaining == 0) ==> r == Ok::<(), CarbonError>(())
                && *final(self) == (Auction {
                status: AuctionStatus::Finalized,
                tokens_sold: (old(self).total_tokens - old(self).tokens_remaining) as u64,
                current_price: if old(self).tokens_remaining == 0 {
                    old(self).current_price
                } else {
                    old(self).reserve_price
                },
                ..*old(self)
            }),
    {
        match self.status {
            AuctionStatus::Active => (),
            AuctionStatus::Completed => (),
            _ => {
                return Err(CarbonError::InvalidAuctionStatus);
            },
        }
        if now < self.end_time && self.tokens_remaining > 0 {
            return Err(CarbonError::AuctionNotEnded);
        }

        let clearing_price: u64 = if self.tokens_remaining == 0 {
            self.current_price
        } else {
            self.reserve_price
        };
        self.tokens_sold = self.total_tokens - self.tokens_remaining;
        self.status = AuctionStatus::Finalized;
        self.current_price = clearing_price;
        Ok(())
    }

    /// Cancels an auction nobody has bid on. Only an `Active` auction with no
    /// participants can be cancelled; no funds ever moved, so nothing is owed.
    pub fn cancel(&mut self) -> (r: Result<(), CarbonError>)
        requires
            old(self).wf(),
        ensures
            final(self).wf(),
            !(old(self).status is Active) ==> r == Err::<(), CarbonError>(
                CarbonError::InvalidAuctionStatus,
            ) && *final(self) == *old(self),
            old(self).status is Active && old(self).participant_count > 0 ==> r == Err::<
                (),
                CarbonError,
            >(CarbonError::HasParticipants) && *final(self) == *old(self),
            old(self).status is Active && old(self).participant_count == 0 ==> r == Ok::<
                (),
                CarbonError,
            >(()) && *final(self) == (Auction { status: AuctionStatus::Cancelled, ..*old(self) }),
    {
        match self.status {
            AuctionStatus::Active => (),
            _ => {
                return Err(CarbonError::InvalidAuctionStatus);
            },
        }
        if self.participant_count > 0 {
            return Err(CarbonError::HasParticipants);
        }
        self.status = AuctionStatus::Cancelled;
        Ok(())
    }
}

} // verus!
