//! Integer arithmetic of unlock schedules: how long an amount lasts at a
//! rate, and how many whole intervals fit in a span of time.

use vstd::prelude::*;
use vstd::arithmetic::div_mod::lemma_fundamental_div_mod_converse;
use vstd::arithmetic::div_mod::lemma_fundamental_div_mod;
use vstd::arithmetic::div_mod::lemma_div_is_ordered;

verus! {

/// The time that `amount` lasts when `rate` unlocks per `interval`:
/// `amount * interval / rate`, rounded to the nearest integer, a half
/// rounding up.
pub open spec fn rounded_duration(amount: int, interval: int, rate: int) -> int
    recommends
        rate > 0,
{
    (2 * (amount * interval) + rate) / (2 * rate)
}

/// The span of a new stream: where the net amount is not a whole number of
/// rate steps, one interval per started step, so that the last, smaller step
/// still unlocks before the end; else the declared duration.
pub open spec fn effective_duration(net: int, rate: int, interval: int, declared: int) -> int
    recommends
        rate > 0,
{
    if net % rate > 0 {
        interval * (net / rate + 1)
    } else {
        declared
    }
}

/// The most whole intervals that can have elapsed strictly before the end
/// of a span.
pub open spec fn max_steps(span: int, interval: int) -> int
    recommends
        interval > 0,
{
    if span > 0 {
        (span - 1) / interval
    } else {
        0
    }
}

/// Rounding to nearest is the quotient, plus one where twice the remainder
/// reaches the divisor.
pub proof fn lemma_rounded_duration(amount: int, interval: int, rate: int)
    requires
        amount >= 0,
        interval >= 0,
        rate > 0,
    ensures
        rounded_duration(amount, interval, rate) == (amount * interval) / rate + (if 2 * ((amount
            * interval) % rate) >= rate {
            1int
        } else {
            0int
        }),
{
    let p = amount * interval;
    let q = p / rate;
    let r = p % rate;
    lemma_fundamental_div_mod(p, rate);
    assert(p == rate * q + r);
    assert(0 <= r < rate);
    let up: int = if 2 * r >= rate { 1 } else { 0 };
    let rest = 2 * r + rate - up * (2 * rate);
    assert(0 <= rest < 2 * rate);
    assert(2 * p + rate == (q + up) * (2 * rate) + rest) by (nonlinear_arith)
        requires
            p == rate * q + r,
            rest == 2 * r + rate - up * (2 * rate),
    ;
    lemma_fundamental_div_mod_converse(2 * p + rate, 2 * rate, q + up, rest);
}

/// An amount that is a whole number of rate steps lasts exactly that many
/// intervals.
pub proof fn lemma_rounded_duration_exact(amount: int, interval: int, rate: int)
    requires
        amount >= 0,
        interval >= 0,
        rate > 0,
        amount % rate == 0,
    ensures
        rounded_duration(amount, interval, rate) == (amount / rate) * interval,
{
    let n = amount / rate;
    lemma_fundamental_div_mod(amount, rate);
    assert(amount == rate * n);
    assert(amount * interval == (n * interval) * rate + 0) by (nonlinear_arith)
        requires
            amount == rate * n,
    ;
    assert(0 <= n * interval) by (nonlinear_arith)
        requires
            n >= 0,
            interval >= 0,
    ;
    lemma_fundamental_div_mod_converse(amount * interval, rate, n * interval, 0);
    lemma_rounded_duration(amount, interval, rate);
}

/// Strictly before the end of a span of `n` whole intervals, at most
/// `n - 1` of them have elapsed.
pub proof fn lemma_max_steps_of_whole(n: int, interval: int)
    requires
        n >= 1,
        interval > 0,
    ensures
        interval * n >= 1,
        max_steps(interval * n, interval) == n - 1,
{
    assert(interval * n >= 1) by (nonlinear_arith)
        requires
            n >= 1,
            interval > 0,
    ;
    assert(interval * n - 1 == (n - 1) * interval + (interval - 1)) by (nonlinear_arith);
    lemma_fundamental_div_mod_converse(interval * n - 1, interval, n - 1, interval - 1);
}

/// The whole intervals in an elapsed time never exceed the most that the
/// span allows.
pub proof fn lemma_steps_within_span(elapsed: int, span: int, interval: int)
    requires
        0 <= elapsed < span,
        interval > 0,
    ensures
        0 <= elapsed / interval <= max_steps(span, interval),
{
    lemma_div_is_ordered(elapsed, span - 1, interval);
    lemma_div_is_ordered(0, elapsed, interval);
}

/// Whole intervals grow with the elapsed time.
pub proof fn lemma_steps_monotone(earlier: int, later: int, interval: int)
    requires
        0 <= earlier <= later,
        interval > 0,
    ensures
        0 <= earlier / interval <= later / interval,
{
    lemma_div_is_ordered(earlier, later, interval);
    lemma_div_is_ordered(0, earlier, interval);
}

/// Splitting a span at an instant loses no step that the whole span did not
/// have: the steps elapsed before the instant and the most that the rest
/// allows add up to at most what the span allowed.
pub proof fn lemma_steps_split(elapsed: int, span: int, interval: int)
    requires
        0 <= elapsed < span,
        interval > 0,
    ensures
        elapsed / interval + max_steps(span - elapsed, interval) <= max_steps(span, interval),
{
    let a = elapsed / interval;
    let b = (span - elapsed - 1) / interval;
    lemma_fundamental_div_mod(elapsed, interval);
    lemma_fundamental_div_mod(span - elapsed - 1, interval);
    let ra = elapsed % interval;
    let rb = (span - elapsed - 1) % interval;
    assert(span - 1 == interval * (a + b) + (ra + rb)) by (nonlinear_arith)
        requires
            elapsed == interval * a + ra,
            span - elapsed - 1 == interval * b + rb,
    ;
    let c = (span - 1) / interval;
    lemma_fundamental_div_mod(span - 1, interval);
    let rc = (span - 1) % interval;
    assert(a + b <= c) by (nonlinear_arith)
        requires
            span - 1 == interval * (a + b) + (ra + rb),
            span - 1 == interval * c + rc,
            0 <= ra,
            0 <= rb,
            0 <= rc < interval,
            interval > 0,
    ;
}

/// Computes [`rounded_duration`] without overflow.
pub fn round_duration(amount: u64, interval: u64, rate: u64) -> (r: u128)
    requires
        rate > 0,
    ensures
        r == rounded_duration(amount as int, interval as int, rate as int),
{
    proof {
        assert(0 <= (amount as int) * (interval as int) <= 0xffff_ffff_ffff_ffff
            * 0xffff_ffff_ffff_ffff) by (nonlinear_arith)
            requires
                0 <= amount <= 0xffff_ffff_ffff_ffff,
                0 <= interval <= 0xffff_ffff_ffff_ffff,
        ;
    }
    let product: u128 = (amount as u128) * (interval as u128);
    let divisor: u128 = rate as u128;
    let quotient: u128 = product / divisor;
    let remainder: u128 = product % divisor;
    proof {
        lemma_rounded_duration(amount as int, interval as int, rate as int);
        lemma_div_is_ordered(0, product as int, rate as int);
        assert(quotient <= product) by (nonlinear_arith)
            requires
                quotient == product / divisor,
                divisor >= 1,
        ;
    }
    if remainder >= divisor - remainder {
        quotient + 1
    } else {
        quotient
    }
}

} // verus!
