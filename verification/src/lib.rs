//! A declining-price (Dutch) auction for tradeable compliance credits, with
//! escrowed payment, partial refunds at settlement, and deferred credit
//! issuance.
//!
//! The crate models the full auction/settlement state machine: auction
//! creation, time-decaying price computation, bid admission against a
//! shrinking supply, finalization at a clearing price, and per-bid claim
//! settlement. Funds held between admission and settlement live in explicit
//! holding accounts, so conservation of escrowed value is stated and proved
//! rather than assumed. The host ledger that would actually move funds and
//! mint credits is represented at its interface boundary: every operation
//! returns the amounts the surrounding application must transfer or mint.

pub mod auction;
pub mod bid;
pub mod errors;
pub mod holding;
pub mod pricing;
pub mod registry;
pub mod settlement;
