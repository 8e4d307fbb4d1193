use carbon::auction::AuctionStatus;
use carbon::bid::BidStatus;
use carbon::errors::CarbonError;
use carbon::registry::{register_industry, verify_industry, IndustryAccount};
use carbon::settlement::{BidReceipt, ClaimReceipt, EscrowedAuction};

const WHOLE_TOKEN: u64 = 1_000_000_000;

fn verified_industry(authority: u64) -> IndustryAccount {
    let mut ind = register_industry(authority, String::from("Acme Smelting"), 2_000_000_000, 0)
        .unwrap();
    verify_industry(&mut ind).unwrap();
    ind
}

/// An auction of 500 whole tokens, price decaying 1000 -> 100 over 1000 s
/// starting at t = 0, with an escrow reserve floor of 5 units.
fn sample_auction() -> EscrowedAuction {
    EscrowedAuction::create_auction(1, 42, 500 * WHOLE_TOKEN, 1000, 100, 1000, 0, 5).unwrap()
}

#[test]
fn bid_halfway_pays_the_decayed_price() {
    let mut book = sample_auction();
    let ind = verified_industry(9);
    let receipt = book.place_bid(9, &ind, 100 * WHOLE_TOKEN, 77, 500).unwrap();
    assert_eq!(
        receipt,
        BidReceipt { price_per_token: 550, total_cost: 55_000 }
    );
    assert_eq!(book.auction.tokens_remaining, 400 * WHOLE_TOKEN);
    assert_eq!(book.auction.current_price, 550);
    assert_eq!(book.auction.total_raised, 55_000);
    assert_eq!(book.auction.participant_count, 1);
    assert_eq!(book.bids.len(), 1);
    let bid = &book.bids[0];
    assert_eq!(bid.auction_batch, 42);
    assert_eq!(bid.bidder, 9);
    assert_eq!(bid.token_amount, 100 * WHOLE_TOKEN);
    assert_eq!(bid.price_per_token, 550);
    assert_eq!(bid.total_cost, 55_000);
    assert_eq!(bid.timestamp, 77);
    assert_eq!(bid.status, BidStatus::Pending);
    assert_eq!(book.escrow.balance, 5 + 55_000);
}

#[test]
fn second_bid_over_remaining_supply_is_insufficient_tokens() {
    let mut book = sample_auction();
    let ind = verified_industry(9);
    book.place_bid(9, &ind, 300 * WHOLE_TOKEN, 0, 100).unwrap();
    assert_eq!(book.auction.tokens_remaining, 200 * WHOLE_TOKEN);
    let second = book.place_bid(9, &ind, 300 * WHOLE_TOKEN, 1, 200);
    assert_eq!(second, Err(CarbonError::InsufficientTokens));
    assert_eq!(book.auction.tokens_remaining, 200 * WHOLE_TOKEN);
    assert_eq!(book.auction.participant_count, 1);
}

#[test]
fn bid_for_the_whole_remaining_supply_completes_the_auction() {
    let mut book = sample_auction();
    let ind = verified_industry(9);
    book.place_bid(9, &ind, 500 * WHOLE_TOKEN, 0, 250).unwrap();
    assert_eq!(book.auction.tokens_remaining, 0);
    assert_eq!(book.auction.status, AuctionStatus::Completed);
}

#[test]
fn supply_accounting_holds_after_each_admission() {
    let mut book = sample_auction();
    let ind = verified_industry(9);
    let amounts = [50 * WHOLE_TOKEN, 125 * WHOLE_TOKEN, 325 * WHOLE_TOKEN];
    let mut admitted: u64 = 0;
    let mut last_remaining = book.auction.tokens_remaining;
    for (i, &amount) in amounts.iter().enumerate() {
        book.place_bid(9, &ind, amount, i as i64, 100 + i as i64).unwrap();
        admitted += amount;
        assert!(book.auction.tokens_remaining <= last_remaining);
        last_remaining = book.auction.tokens_remaining;
        assert_eq!(
            book.auction.tokens_remaining + admitted,
            book.auction.total_tokens
        );
    }
    assert_eq!(book.auction.status, AuctionStatus::Completed);
}

#[test]
fn bid_from_unverified_industry_is_not_verified() {
    let mut book = sample_auction();
    let ind = register_industry(9, String::from("Acme Smelting"), 2_000_000_000, 0).unwrap();
    assert_eq!(
        book.place_bid(9, &ind, WHOLE_TOKEN, 0, 100),
        Err(CarbonError::NotVerified)
    );
}

#[test]
fn bid_after_the_window_closes_is_auction_ended() {
    let mut book = sample_auction();
    let ind = verified_industry(9);
    assert_eq!(
        book.place_bid(9, &ind, WHOLE_TOKEN, 0, 1000),
        Err(CarbonError::AuctionEnded)
    );
}

#[test]
fn bid_for_zero_tokens_is_invalid_token_amount() {
    let mut book = sample_auction();
    let ind = verified_industry(9);
    assert_eq!(
        book.place_bid(9, &ind, 0, 0, 100),
        Err(CarbonError::InvalidTokenAmount)
    );
}

#[test]
fn bid_on_a_finalized_auction_is_auction_not_active() {
    let mut book = sample_auction();
    let ind = verified_industry(9);
    book.finalize_auction(1000).unwrap();
    assert_eq!(
        book.place_bid(9, &ind, WHOLE_TOKEN, 0, 1001),
        Err(CarbonError::AuctionNotActive)
    );
}

#[test]
fn bid_whose_cost_exceeds_the_currency_type_is_math_overflow() {
    let mut book =
        EscrowedAuction::create_auction(1, 7, u64::MAX, u64::MAX, 1, 1000, 0, 0).unwrap();
    let ind = verified_industry(9);
    // price still at the start price: cost = u64::MAX^2 / 10^9 overflows
    assert_eq!(
        book.place_bid(9, &ind, u64::MAX, 0, 0),
        Err(CarbonError::MathOverflow)
    );
    assert_eq!(book.auction.tokens_remaining, u64::MAX);
}

#[test]
fn cancel_with_an_admitted_bid_is_has_participants() {
    let mut book = sample_auction();
    let ind = verified_industry(9);
    book.place_bid(9, &ind, WHOLE_TOKEN, 0, 100).unwrap();
    assert_eq!(book.cancel_auction(), Err(CarbonError::HasParticipants));
    assert_eq!(book.auction.status, AuctionStatus::Active);
}

#[test]
fn cancel_without_bids_succeeds() {
    let mut book = sample_auction();
    assert_eq!(book.cancel_auction(), Ok(()));
    assert_eq!(book.auction.status, AuctionStatus::Cancelled);
}

#[test]
fn finalize_with_open_window_and_unsold_supply_fails() {
    let mut book = sample_auction();
    let ind = verified_industry(9);
    book.place_bid(9, &ind, WHOLE_TOKEN, 0, 100).unwrap();
    assert_eq!(book.finalize_auction(500), Err(CarbonError::AuctionNotEnded));
    assert_eq!(book.auction.status, AuctionStatus::Active);
}

#[test]
fn finalize_after_sellout_keeps_the_last_observed_price() {
    let mut book = sample_auction();
    let ind = verified_industry(9);
    book.place_bid(9, &ind, 500 * WHOLE_TOKEN, 0, 500).unwrap();
    book.finalize_auction(600).unwrap();
    assert_eq!(book.auction.status, AuctionStatus::Finalized);
    assert_eq!(book.auction.current_price, 550);
    assert_eq!(book.auction.tokens_sold, 500 * WHOLE_TOKEN);
}

#[test]
fn claim_refunds_the_difference_and_mints_the_bid_amount() {
    let mut book = sample_auction();
    let mut ind = verified_industry(9);
    // admitted at price 550, escrowing 55_000
    book.place_bid(9, &ind, 100 * WHOLE_TOKEN, 0, 500).unwrap();
    // time expiry with unsold supply: clearing price floors at the reserve, 100
    book.finalize_auction(1000).unwrap();
    assert_eq!(book.auction.current_price, 100);

    let receipt = book.claim_tokens(0, &mut ind).unwrap();
    assert_eq!(
        receipt,
        ClaimReceipt { refund: 45_000, final_cost: 10_000, minted: 100 * WHOLE_TOKEN }
    );
    assert_eq!(book.bids[0].status, BidStatus::Accepted);
    assert_eq!(ind.ct_balance, 100 * WHOLE_TOKEN);
    assert_eq!(ind.total_purchased, 100 * WHOLE_TOKEN);
    assert_eq!(book.escrow.balance, 5 + 10_000);
}

#[test]
fn claim_after_sellout_at_admission_price_has_no_refund() {
    let mut book = sample_auction();
    let mut ind = verified_industry(9);
    // the sellout fixes the clearing price at the admission price, 550
    book.place_bid(9, &ind, 500 * WHOLE_TOKEN, 0, 500).unwrap();
    book.finalize_auction(600).unwrap();

    let receipt = book.claim_tokens(0, &mut ind).unwrap();
    assert_eq!(
        receipt,
        ClaimReceipt { refund: 0, final_cost: 275_000, minted: 500 * WHOLE_TOKEN }
    );
    assert_eq!(book.escrow.balance, 5 + 275_000);
    assert_eq!(book.withdraw_proceeds(), Ok(275_000));
}

#[test]
fn claim_twice_settles_once_and_then_is_bid_already_processed() {
    let mut book = sample_auction();
    let mut ind = verified_industry(9);
    book.place_bid(9, &ind, 100 * WHOLE_TOKEN, 0, 500).unwrap();
    book.finalize_auction(1000).unwrap();

    assert!(book.claim_tokens(0, &mut ind).is_ok());
    let balance_after_first = ind.ct_balance;
    let escrow_after_first = book.escrow.balance;

    let second = book.claim_tokens(0, &mut ind);
    assert_eq!(second, Err(CarbonError::BidAlreadyProcessed));
    // no double transfer, no double mint
    assert_eq!(ind.ct_balance, balance_after_first);
    assert_eq!(ind.total_purchased, balance_after_first);
    assert_eq!(book.escrow.balance, escrow_after_first);
    assert_eq!(book.bids[0].status, BidStatus::Accepted);
}

#[test]
fn claim_before_finalization_is_auction_not_finalized() {
    let mut book = sample_auction();
    let mut ind = verified_industry(9);
    book.place_bid(9, &ind, 100 * WHOLE_TOKEN, 0, 500).unwrap();
    assert_eq!(
        book.claim_tokens(0, &mut ind),
        Err(CarbonError::AuctionNotFinalized)
    );
    assert_eq!(book.bids[0].status, BidStatus::Pending);
}

#[test]
fn conservation_holds_across_full_settlement() {
    let mut book = sample_auction();
    let mut first = verified_industry(9);
    let mut second = verified_industry(10);
    // admitted at t=250 (price 775) and t=500 (price 550)
    book.place_bid(9, &first, 200 * WHOLE_TOKEN, 0, 250).unwrap();
    book.place_bid(10, &second, 100 * WHOLE_TOKEN, 1, 500).unwrap();
    let escrowed = book.auction.total_raised;
    assert_eq!(escrowed, 200 * 775 + 100 * 550);

    book.finalize_auction(1000).unwrap();
    // clearing at the reserve price 100
    let r1 = book.claim_tokens(0, &mut first).unwrap();
    let r2 = book.claim_tokens(1, &mut second).unwrap();
    assert_eq!(r1.final_cost, 20_000);
    assert_eq!(r2.final_cost, 10_000);

    let withdrawn = book.withdraw_proceeds().unwrap();
    // every escrowed unit is either refunded to a bidder or withdrawn
    assert_eq!(r1.final_cost + r2.final_cost, withdrawn);
    assert_eq!(r1.refund + r2.refund + withdrawn, escrowed);
    assert_eq!(book.escrow.balance, book.escrow.reserve);
}

#[test]
fn withdraw_before_finalization_is_auction_not_finalized() {
    let mut book = sample_auction();
    assert_eq!(
        book.withdraw_proceeds(),
        Err(CarbonError::AuctionNotFinalized)
    );
}

#[test]
fn withdraw_with_nothing_releasable_is_insufficient_funds() {
    let mut book = sample_auction();
    book.finalize_auction(1000).unwrap();
    assert_eq!(book.withdraw_proceeds(), Err(CarbonError::InsufficientFunds));
}

#[test]
fn withdraw_twice_fails_the_second_time() {
    let mut book = sample_auction();
    let ind = verified_industry(9);
    book.place_bid(9, &ind, 100 * WHOLE_TOKEN, 0, 500).unwrap();
    book.finalize_auction(1000).unwrap();
    assert_eq!(book.withdraw_proceeds(), Ok(55_000));
    assert_eq!(book.withdraw_proceeds(), Err(CarbonError::InsufficientFunds));
}

#[test]
fn claim_with_refund_after_proceeds_withdrawn_is_insufficient_funds() {
    let mut book = sample_auction();
    let mut ind = verified_industry(9);
    book.place_bid(9, &ind, 100 * WHOLE_TOKEN, 0, 500).unwrap();
    book.finalize_auction(1000).unwrap();
    // draining the escrow before the bidder claims starves the refund
    book.withdraw_proceeds().unwrap();
    assert_eq!(
        book.claim_tokens(0, &mut ind),
        Err(CarbonError::InsufficientFunds)
    );
    assert_eq!(book.bids[0].status, BidStatus::Pending);
    assert_eq!(ind.ct_balance, 0);
}
