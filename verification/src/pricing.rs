//! The pricing engine: a pure conversion from an auction's price schedule and
//! the current time to the instantaneous clearing price, decaying linearly
//! from the start price down to the reserve price.

use vstd::arithmetic::div_mod::{
    lemma_div_is_ordered, lemma_div_multiples_vanish, lemma_div_pos_is_pos,
};
use vstd::arithmetic::mul::{
    lemma_mul_inequality, lemma_mul_is_commutative, lemma_mul_nonnegative, lemma_mul_upper_bound,
};
use vstd::prelude::*;

use crate::errors::CarbonError;

verus! {

/// Token amounts carry this many base units per whole token; a bid's cost in
/// currency units is `amount * price / TOKEN_SCALE`.
pub const TOKEN_SCALE: u64 = 1_000_000_000;

/// How far the price has decayed at time `now`, by linear interpolation over
/// the auction window; integer division truncates toward zero for the
/// non-negative operands that a well-formed auction produces.
pub open spec fn decay_amount(
    start_price: int,
    reserve_price: int,
    start_time: int,
    end_time: int,
    now: int,
) -> int {
    ((start_price - reserve_price) * (now - start_time)) / (end_time - start_time)
}

/// The instantaneous price: the reserve once the window has closed, the start
/// price before the window opens, and the linearly decayed price clamped to
/// the reserve in between.
pub open spec fn price_at(
    start_price: int,
    reserve_price: int,
    start_time: int,
    end_time: int,
    now: int,
) -> int {
    if now >= end_time {
        reserve_price
    } else if now <= start_time {
        start_price
    } else if start_price - decay_amount(start_price, reserve_price, start_time, end_time, now)
        >= reserve_price {
        start_price - decay_amount(start_price, reserve_price, start_time, end_time, now)
    } else {
        reserve_price
    }
}

/// Whether the price computation succeeds: inside the open window it needs the
/// pricing invariant (reserve at or below start) and a window length that fits
/// the time type; at or outside the window boundaries it always succeeds.
pub open spec fn price_computable(
    start_price: int,
    reserve_price: int,
    start_time: int,
    end_time: int,
    now: int,
) -> bool {
    (start_time < now < end_time) ==> (reserve_price <= start_price && end_time - start_time
        <= i64::MAX)
}

/// Computes the current price from the schedule, checking every arithmetic
/// step; `MathOverflow` re-asserts the `reserve < start` invariant defensively
/// rather than assuming creation-time validation still holds.
pub fn calculate_current_price(
    start_price: u64,
    reserve_price: u64,
    start_time: i64,
    end_time: i64,
    current_time: i64,
) -> (r: Result<u64, CarbonError>)
    ensures
        price_computable(
            start_price as int,
            reserve_price as int,
            start_time as int,
            end_time as int,
            current_time as int,
        ) ==> (r matches Ok(p) && p == price_at(
            start_price as int,
            reserve_price as int,
            start_time as int,
            end_time as int,
            current_time as int,
        )),
        !price_computable(
            start_price as int,
            reserve_price as int,
            start_time as int,
            end_time as int,
            current_time as int,
        ) ==> r == Err::<u64, CarbonError>(CarbonError::MathOverflow),
{
    if current_time >= end_time {
        return Ok(reserve_price);
    }
    if current_time <= start_time {
        return Ok(start_price);
    }

    let duration: i64 = match end_time.checked_sub(start_time) {
        Some(d) => d,
        None => {
            return Err(CarbonError::MathOverflow);
        },
    };
    let elapsed: i64 = current_time - start_time;
    let price_range: u64 = match start_price.checked_sub(reserve_price) {
        Some(pr) => pr,
        None => {
            return Err(CarbonError::MathOverflow);
        },
    };

    proof {
        lemma_mul_upper_bound(price_range as int, u64::MAX as int, elapsed as int, i64::MAX as int);
    }
    let wide: u128 = (price_range as u128) * (elapsed as u128);
    let decay_wide: u128 = wide / (duration as u128);

    proof {
        let range = price_range as int;
        let el = elapsed as int;
        let dur = duration as int;
        lemma_mul_nonnegative(range, el);
        lemma_div_pos_is_pos(range * el, dur);
        lemma_mul_is_commutative(range, el);
        lemma_mul_is_commutative(range, dur);
        lemma_mul_inequality(el, dur, range);
        lemma_div_multiples_vanish(range, dur);
        lemma_div_is_ordered(range * el, range * dur, dur);
        assert(range * el / dur <= range);
    }
    let decay: u64 = decay_wide as u64;

    let current_price: u64 = start_price - decay;
    if current_price >= reserve_price {
        Ok(current_price)
    } else {
        Ok(reserve_price)
    }
}

/// A bid's cost in currency units: the token amount (in base units) times the
/// per-token price, scaled down by the token's base-unit factor.
pub open spec fn scaled_cost(token_amount: int, price: int) -> int {
    (token_amount * price) / (TOKEN_SCALE as int)
}

/// Computes `scaled_cost` with a wide multiply, reporting `MathOverflow`
/// exactly when the scaled result does not fit the currency type.
pub fn scale_cost(token_amount: u64, price: u64) -> (r: Result<u64, CarbonError>)
    ensures
        scaled_cost(token_amount as int, price as int) <= u64::MAX ==> (r matches Ok(c) && c
            == scaled_cost(token_amount as int, price as int)),
        scaled_cost(token_amount as int, price as int) > u64::MAX ==> r == Err::<
            u64,
            CarbonError,
        >(CarbonError::MathOverflow),
{
    proof {
        lemma_mul_upper_bound(token_amount as int, u64::MAX as int, price as int, u64::MAX as int);
    }
    let wide: u128 = (token_amount as u128) * (price as u128);
    let q: u128 = wide / (TOKEN_SCALE as u128);
    if q > u64::MAX as u128 {
        Err(CarbonError::MathOverflow)
    } else {
        Ok(q as u64)
    }
}

/// The scaled cost of a non-negative amount at a non-negative price is itself
/// non-negative.
pub proof fn lemma_scaled_cost_nonneg(token_amount: int, price: int)
    requires
        0 <= token_amount,
        0 <= price,
    ensures
        0 <= scaled_cost(token_amount, price),
{
    lemma_mul_nonnegative(token_amount, price);
    lemma_div_pos_is_pos(token_amount * price, TOKEN_SCALE as int);
}

/// A bid's scaled cost grows with the per-token price: settling at a lower
/// price never costs more than was escrowed at a higher one.
pub proof fn lemma_scaled_cost_monotone(token_amount: int, price_low: int, price_high: int)
    requires
        0 <= token_amount,
        0 <= price_low <= price_high,
    ensures
        scaled_cost(token_amount, price_low) <= scaled_cost(token_amount, price_high),
{
    lemma_mul_is_commutative(token_amount, price_low);
    lemma_mul_is_commutative(token_amount, price_high);
    lemma_mul_inequality(price_low, price_high, token_amount);
    lemma_div_is_ordered(
        token_amount * price_low,
        token_amount * price_high,
        TOKEN_SCALE as int,
    );
}

/// The price the engine computes never leaves the band between the reserve
/// price and the start price.
pub proof fn lemma_price_bounds(
    start_price: int,
    reserve_price: int,
    start_time: int,
    end_time: int,
    now: int,
)
    requires
        reserve_price <= start_price,
        start_time < end_time,
    ensures
        reserve_price <= price_at(start_price, reserve_price, start_time, end_time, now)
            <= start_price,
{
    if now >= end_time {
    } else if now <= start_time {
    } else {
        let range = start_price - reserve_price;
        let el = now - start_time;
        let dur = end_time - start_time;
        lemma_mul_nonnegative(range, el);
        lemma_div_pos_is_pos(range * el, dur);
    }
}

/// The price at the opening instant is exactly the start price, and from the
/// closing instant onward it is exactly the reserve price.
pub proof fn lemma_price_endpoints(
    start_price: int,
    reserve_price: int,
    start_time: int,
    end_time: int,
)
    requires
        reserve_price <= start_price,
        start_time < end_time,
    ensures
        price_at(start_price, reserve_price, start_time, end_time, start_time) == start_price,
        forall|t: int|
            t >= end_time ==> #[trigger] price_at(
                start_price,
                reserve_price,
                start_time,
                end_time,
                t,
            ) == reserve_price,
{
}

/// The price is monotonically non-increasing as time advances: a later
/// observation never sees a higher price than an earlier one.
pub proof fn lemma_price_monotonic(
    start_price: int,
    reserve_price: int,
    start_time: int,
    end_time: int,
    t1: int,
    t2: int,
)
    requires
        reserve_price <= start_price,
        start_time < end_time,
        t1 <= t2,
    ensures
        price_at(start_price, reserve_price, start_time, end_time, t2) <= price_at(
            start_price,
            reserve_price,
            start_time,
            end_time,
            t1,
        ),
{
    lemma_price_bounds(start_price, reserve_price, start_time, end_time, t1);
    lemma_price_bounds(start_price, reserve_price, start_time, end_time, t2);
    if t2 >= end_time {
    } else if t2 <= start_time {
    } else if t1 <= start_time {
    } else {
        let range = start_price - reserve_price;
        let e1 = t1 - start_time;
        let e2 = t2 - start_time;
        let dur = end_time - start_time;
        lemma_mul_is_commutative(range, e1);
        lemma_mul_is_commutative(range, e2);
        lemma_mul_inequality(e1, e2, range);
        lemma_div_is_ordered(range * e1, range * e2, dur);
        assert(decay_amount(start_price, reserve_price, start_time, end_time, t1) <= decay_amount(
            start_price,
            reserve_price,
            start_time,
            end_time,
            t2,
        ));
    }
}

} // verus!
