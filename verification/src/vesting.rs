use vstd::prelude::*;
use vstd::arithmetic::div_mod::lemma_div_is_ordered;
use vstd::arithmetic::div_mod::lemma_div_multiples_vanish;
use vstd::arithmetic::div_mod::lemma_div_pos_is_pos;
use vstd::arithmetic::mul::lemma_mul_inequality;
use vstd::arithmetic::mul::lemma_mul_is_commutative;
use crate::error::ErrorCode;

verus! {

/// How much of the window from `start` to `end` has passed at `now`. Time
/// after `end` does not count: the result is capped at the length of the
/// window. The cap is deliberate. Without it the ratio of elapsed time to
/// window would pass one after the end, more than the locked amount would
/// count as vested, and a late withdrawal would ask the vault for funds that
/// it does not hold.
pub open spec fn elapsed(start: int, end: int, now: int) -> int {
    if now < end {
        now - start
    } else {
        end - start
    }
}

/// The cumulative entitlement at `now` of a stream of `amount` units that
/// unlocks linearly from `start` to `end`: the share of `amount` that
/// corresponds to the elapsed part of the window, rounded down.
pub open spec fn vested(amount: int, start: int, end: int, now: int) -> int {
    (amount * elapsed(start, end, now)) / (end - start)
}

/// What the vesting calculation answers for each input: an error before the
/// start and on an empty or reversed window, the entitlement otherwise.
pub open spec fn vesting_outcome(amount: u64, start_time: i64, end_time: i64, now: i64) -> Result<
    u64,
    ErrorCode,
> {
    if now < start_time {
        Err(ErrorCode::StreamNotStarted)
    } else if end_time <= start_time {
        Err(ErrorCode::CalculationError)
    } else {
        Ok(vested(amount as int, start_time as int, end_time as int, now as int) as u64)
    }
}

/// The entitlement lies between nothing and the whole amount.
pub proof fn lemma_vested_bounds(amount: int, start: int, end: int, now: int)
    requires
        0 <= amount,
        start < end,
        start <= now,
    ensures
        0 <= vested(amount, start, end, now) <= amount,
{
    let e = elapsed(start, end, now);
    let d = end - start;
    assert(0 <= amount * e) by (nonlinear_arith)
        requires
            0 <= amount,
            0 <= e,
    ;
    lemma_div_pos_is_pos(amount * e, d);
    lemma_mul_inequality(e, d, amount);
    lemma_mul_is_commutative(e, amount);
    lemma_mul_is_commutative(d, amount);
    lemma_div_is_ordered(amount * e, amount * d, d);
    lemma_div_multiples_vanish(amount, d);
    lemma_mul_is_commutative(d, amount);
}

/// The entitlement never shrinks as time goes on.
pub proof fn lemma_vested_monotone(amount: int, start: int, end: int, earlier: int, later: int)
    requires
        0 <= amount,
        start < end,
        start <= earlier <= later,
    ensures
        vested(amount, start, end, earlier) <= vested(amount, start, end, later),
{
    let e1 = elapsed(start, end, earlier);
    let e2 = elapsed(start, end, later);
    let d = end - start;
    lemma_mul_inequality(e1, e2, amount);
    lemma_mul_is_commutative(e1, amount);
    lemma_mul_is_commutative(e2, amount);
    lemma_div_is_ordered(amount * e1, amount * e2, d);
}

/// From the end of the window on, the whole amount has vested.
pub proof fn lemma_vested_full(amount: int, start: int, end: int, now: int)
    requires
        start < end,
        end <= now,
    ensures
        vested(amount, start, end, now) == amount,
{
    let d = end - start;
    lemma_div_multiples_vanish(amount, d);
    lemma_mul_is_commutative(d, amount);
}

/// At the very start of the window nothing has vested.
pub proof fn lemma_vested_none_at_start(amount: int, start: int, end: int)
    requires
        start < end,
    ensures
        vested(amount, start, end, start) == 0,
{
    assert(amount * 0 == 0);
}

/// Computes the cumulative entitlement at `now` of a stream of `amount` units
/// over the window from `start_time` to `end_time`.
///
/// The product of amount and elapsed time is formed in 128 bits before the
/// division, so no intermediate value is lost. A call before the start is
/// turned down, and so is a window that is empty or reversed, for which the
/// ratio has no value.
pub fn vested_amount(amount: u64, start_time: i64, end_time: i64, now: i64) -> (outcome: Result<
    u64,
    ErrorCode,
>)
    ensures
        outcome == vesting_outcome(amount, start_time, end_time, now),
{
    if now < start_time {
        return Err(ErrorCode::StreamNotStarted);
    }
    if end_time <= start_time {
        return Err(ErrorCode::CalculationError);
    }
    let passed: i128 = now as i128 - start_time as i128;
    let window: i128 = end_time as i128 - start_time as i128;
    let counted: i128 = if passed < window {
        passed
    } else {
        window
    };
    proof {
        lemma_vested_bounds(amount as int, start_time as int, end_time as int, now as int);
        assert(counted == elapsed(start_time as int, end_time as int, now as int));
        assert(amount * counted <= u128::MAX) by (nonlinear_arith)
            requires
                0 <= amount <= u64::MAX,
                0 <= counted <= 0xffff_ffff_ffff_ffff,
        ;
    }
    let product: u128 = match (amount as u128).checked_mul(counted as u128) {
        Some(p) => p,
        None => {
            return Err(ErrorCode::CalculationError);
        },
    };
    let share: u128 = match product.checked_div(window as u128) {
        Some(q) => q,
        None => {
            return Err(ErrorCode::CalculationError);
        },
    };
    match u64::try_from(share) {
        Ok(v) => Ok(v),
        Err(_) => Err(ErrorCode::CalculationError),
    }
}

} // verus!
