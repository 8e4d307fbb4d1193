use carbon::auction::{Auction, AuctionStatus};
use carbon::errors::CarbonError;

fn active_auction() -> Auction {
    Auction::create(1, 42, 500, 1000, 100, 1000, 0).unwrap()
}

#[test]
fn create_auction_initializes_all_counters() {
    let a = active_auction();
    assert_eq!(a.authority, 1);
    assert_eq!(a.batch_number, 42);
    assert_eq!(a.total_tokens, 500);
    assert_eq!(a.tokens_remaining, 500);
    assert_eq!(a.start_price, 1000);
    assert_eq!(a.current_price, 1000);
    assert_eq!(a.reserve_price, 100);
    assert_eq!(a.start_time, 0);
    assert_eq!(a.end_time, 1000);
    assert_eq!(a.status, AuctionStatus::Active);
    assert_eq!(a.total_raised, 0);
    assert_eq!(a.participant_count, 0);
    assert_eq!(a.tokens_sold, 0);
}

#[test]
fn create_with_start_price_at_reserve_is_invalid_pricing() {
    assert_eq!(
        Auction::create(1, 42, 500, 100, 100, 1000, 0),
        Err(CarbonError::InvalidPricing)
    );
}

#[test]
fn create_with_start_price_below_reserve_is_invalid_pricing() {
    assert_eq!(
        Auction::create(1, 42, 500, 99, 100, 1000, 0),
        Err(CarbonError::InvalidPricing)
    );
}

#[test]
fn create_with_zero_duration_is_invalid_duration() {
    assert_eq!(
        Auction::create(1, 42, 500, 1000, 100, 0, 0),
        Err(CarbonError::InvalidDuration)
    );
}

#[test]
fn create_with_negative_duration_is_invalid_duration() {
    assert_eq!(
        Auction::create(1, 42, 500, 1000, 100, -5, 0),
        Err(CarbonError::InvalidDuration)
    );
}

#[test]
fn create_with_zero_tokens_is_invalid_token_amount() {
    assert_eq!(
        Auction::create(1, 42, 0, 1000, 100, 1000, 0),
        Err(CarbonError::InvalidTokenAmount)
    );
}

#[test]
fn create_with_end_time_past_the_clock_is_math_overflow() {
    assert_eq!(
        Auction::create(1, 42, 500, 1000, 100, 1000, i64::MAX - 10),
        Err(CarbonError::MathOverflow)
    );
}

#[test]
fn finalize_before_end_and_before_sellout_is_auction_not_ended() {
    let mut a = active_auction();
    assert_eq!(a.finalize(500), Err(CarbonError::AuctionNotEnded));
    assert_eq!(a.status, AuctionStatus::Active);
}

#[test]
fn finalize_after_end_settles_at_reserve_price() {
    let mut a = active_auction();
    assert_eq!(a.finalize(1000), Ok(()));
    assert_eq!(a.status, AuctionStatus::Finalized);
    assert_eq!(a.current_price, 100);
    assert_eq!(a.tokens_sold, 0);
}

#[test]
fn finalize_twice_is_invalid_auction_status() {
    let mut a = active_auction();
    assert_eq!(a.finalize(1000), Ok(()));
    assert_eq!(a.finalize(1001), Err(CarbonError::InvalidAuctionStatus));
}

#[test]
fn finalize_cancelled_auction_is_invalid_auction_status() {
    let mut a = active_auction();
    assert_eq!(a.cancel(), Ok(()));
    assert_eq!(a.finalize(1000), Err(CarbonError::InvalidAuctionStatus));
}

#[test]
fn cancel_active_auction_without_participants_succeeds() {
    let mut a = active_auction();
    assert_eq!(a.cancel(), Ok(()));
    assert_eq!(a.status, AuctionStatus::Cancelled);
}

#[test]
fn cancel_with_participants_is_has_participants() {
    let mut a = active_auction();
    a.participant_count = 1;
    assert_eq!(a.cancel(), Err(CarbonError::HasParticipants));
    assert_eq!(a.status, AuctionStatus::Active);
}

#[test]
fn cancel_finalized_auction_is_invalid_auction_status() {
    let mut a = active_auction();
    assert_eq!(a.finalize(1000), Ok(()));
    assert_eq!(a.cancel(), Err(CarbonError::InvalidAuctionStatus));
}
