//! Arithmetic primitives of the business rules: the decimal-scaled floors,
//! the per-contributor cap, and the contribution-window clock, all stated
//! over unbounded integers and computed without overflow.
use vstd::prelude::*;
use vstd::arithmetic::power::{lemma_pow0, lemma_pow1, lemma_pow_adds, lemma_pow_increases, pow};
use vstd::arithmetic::mul::lemma_mul_upper_bound;
use vstd::arithmetic::div_mod::{lemma_div_is_ordered, lemma_div_multiples_vanish};
use crate::constants::{MAX_BPS, MAX_CONTRIBUTION_PERCENTAGE_BPS, SECONDS_TO_DAYS};

verus! {

/// `base` raised to `exp`, if it fits a u64; None exactly when the
/// mathematical power exceeds u64::MAX.
pub fn checked_pow_u64(base: u64, exp: u8) -> (r: Option<u64>)
    ensures
        r matches Some(v) ==> v == pow(base as int, exp as nat),
        r is None <==> pow(base as int, exp as nat) > u64::MAX,
{
    let mut acc: u64 = 1;
    let mut i: u8 = 0;
    proof {
        lemma_pow0(base as int);
    }
    while i < exp
        invariant
            i <= exp,
            acc == pow(base as int, i as nat),
        decreases exp - i,
    {
        proof {
            lemma_mul_upper_bound(acc as int, u64::MAX as int, base as int, u64::MAX as int);
        }
        let prod: u128 = (acc as u128) * (base as u128);
        proof {
            lemma_pow_adds(base as int, i as nat, 1nat);
            lemma_pow1(base as int);
            assert(prod == pow(base as int, (i + 1) as nat));
        }
        if prod > u64::MAX as u128 {
            proof {
                if base == 0 {
                    assert((acc as u128) * 0u128 == 0u128);
                    assert(prod == 0u128);
                }
                lemma_pow_increases(base as nat, (i + 1) as nat, exp as nat);
            }
            return None;
        }
        acc = prod as u64;
        i += 1;
    }
    Some(acc)
}

/// The per-contributor cap: the basis-point fraction of the raise target
/// that one contributor may hold in live contributions.
pub open spec fn contribution_cap(amount_to_raise: u64) -> int {
    amount_to_raise * MAX_CONTRIBUTION_PERCENTAGE_BPS / (MAX_BPS as int)
}

/// Computes the per-contributor cap; the exact fraction always fits a u64
/// because the cap never exceeds the target.
pub fn contribution_cap_value(amount_to_raise: u64) -> (r: u64)
    ensures
        r == contribution_cap(amount_to_raise),
{
    proof {
        lemma_mul_upper_bound(
            amount_to_raise as int,
            u64::MAX as int,
            MAX_CONTRIBUTION_PERCENTAGE_BPS as int,
            u64::MAX as int,
        );
    }
    let wide: u128 = (amount_to_raise as u128) * (MAX_CONTRIBUTION_PERCENTAGE_BPS as u128)
        / (MAX_BPS as u128);
    proof {
        lemma_div_is_ordered(
            amount_to_raise * MAX_CONTRIBUTION_PERCENTAGE_BPS,
            amount_to_raise * MAX_BPS,
            MAX_BPS as int,
        );
        lemma_div_multiples_vanish(amount_to_raise as int, MAX_BPS as int);
    }
    wide as u64
}

/// Days elapsed from `start` to `now`, truncated toward zero; negative when
/// `now` lies before `start`.
pub open spec fn elapsed_days(now: i64, start: i64) -> int {
    if now >= start {
        (now - start) / (SECONDS_TO_DAYS as int)
    } else {
        -((start - now) / (SECONDS_TO_DAYS as int))
    }
}

/// The contribution window is open at its first moment and for as long as
/// fewer whole days have elapsed than the campaign's duration.
pub open spec fn contribute_window_open(now: i64, start: i64, duration: u64) -> bool {
    now == start || duration > elapsed_days(now, start)
}

/// A refund is too late exactly when more whole days have elapsed than the
/// campaign's duration.
pub open spec fn refund_window_ended(now: i64, start: i64, duration: u64) -> bool {
    elapsed_days(now, start) > duration
}

/// Whole days elapsed from `start` to `now`, when `now` is not before
/// `start`.
fn days_since(now: i64, start: i64) -> (r: u64)
    requires
        now >= start,
    ensures
        r == elapsed_days(now, start),
{
    let diff: u64 = ((now as i128) - (start as i128)) as u64;
    diff / SECONDS_TO_DAYS
}

/// Whole days from `now` forward to `start`, when `now` is before `start`.
fn days_until(now: i64, start: i64) -> (r: u64)
    requires
        now < start,
    ensures
        -(r as int) == elapsed_days(now, start),
{
    let diff: u64 = ((start as i128) - (now as i128)) as u64;
    diff / SECONDS_TO_DAYS
}

/// Evaluates the contribution-window predicate.
pub fn is_contribute_window_open(now: i64, start: i64, duration: u64) -> (r: bool)
    ensures
        r == contribute_window_open(now, start, duration),
{
    if now == start {
        true
    } else if now >= start {
        duration > days_since(now, start)
    } else {
        let back: u64 = days_until(now, start);
        back > 0 || duration > 0
    }
}

/// Evaluates the refund-deadline predicate.
pub fn is_refund_window_ended(now: i64, start: i64, duration: u64) -> (r: bool)
    ensures
        r == refund_window_ended(now, start, duration),
{
    if now >= start {
        days_since(now, start) > duration
    } else {
        false
    }
}

} // verus!
