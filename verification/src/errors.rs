//! The categorical failures an operation can report. Every operation either
//! fully applies its mutations or returns one of these and leaves all state
//! unchanged.

use vstd::prelude::*;

verus! {

/// Why an operation was refused. Validation errors fault the caller's input,
/// precondition errors fault the current lifecycle state, resource errors a
/// shortage, and `MathOverflow` an arithmetic result that does not fit its
/// integer type (nothing ever saturates or wraps silently).
#[derive(Clone, Copy, Debug, PartialEq, Eq, Structural)]
pub enum CarbonError {
    InsufficientBond,
    NotVerified,
    AlreadyVerified,
    InsufficientCT,
    NotCompliant,
    InvalidPricing,
    InvalidDuration,
    InvalidTokenAmount,
    AuctionNotActive,
    AuctionEnded,
    InsufficientTokens,
    MathOverflow,
    InvalidAuctionStatus,
    AuctionNotEnded,
    AuctionNotFinalized,
    BidAlreadyProcessed,
    HasParticipants,
    InsufficientFunds,
}

} // verus!
