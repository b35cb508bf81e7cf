//! Yield accrual and pro-rata distribution arithmetic.
//!
//! A project accrues yield by one fixed rule: an annualized 20% rate,
//! compounded once per elapsed day, so each day multiplies the principal by
//! `1 + 0.20/365 = 1 + 1/1825`.  The growth multiplier is carried in fixed
//! point with `SCALE` as the unit, which keeps the computation deterministic
//! and loses well under one base unit to rounding over any funding window;
//! only the final step truncates toward zero.

use vstd::prelude::*;
use vstd::arithmetic::div_mod::{
    lemma_div_is_ordered, lemma_div_multiples_vanish, lemma_fundamental_div_mod,
    lemma_hoist_over_denominator,
};
use vstd::arithmetic::mul::lemma_mul_inequality;

verus! {

/// Fixed-point unit of the growth multiplier.
pub const SCALE: u128 = 1_000_000_000_000_000_000;

/// The daily rate is `1 / RATE_DIVISOR`, that is `0.20 / 365`.
pub const RATE_DIVISOR: u128 = 1825;

/// Seconds in one day.
pub const SECONDS_PER_DAY: u64 = 86_400;

/// Whole days elapsed between a creation time and the current block time.
pub open spec fn spec_days(creation: u64, now: u64) -> nat
    recommends
        now >= creation,
{
    (((now - creation) as int) / (SECONDS_PER_DAY as int)) as nat
}

/// The scaled growth multiplier `SCALE * (1 + 1/1825)^days`, truncating
/// once per day exactly as the computation does.
pub open spec fn spec_growth(days: nat) -> int
    decreases days,
{
    if days == 0 {
        SCALE as int
    } else {
        let p = spec_growth((days - 1) as nat);
        p + p / (RATE_DIVISOR as int)
    }
}

/// Whether every day's multiplier up to `days` stays representable.
pub open spec fn growth_fits(days: nat) -> bool
    decreases days,
{
    if days == 0 {
        true
    } else {
        growth_fits((days - 1) as nat) && spec_growth(days) <= u128::MAX
    }
}

/// The accrued yield on `principal` after `days` whole days:
/// `floor(principal * growth / SCALE) - principal`.
pub open spec fn spec_accrued(principal: u128, days: nat) -> int {
    principal * spec_growth(days) / (SCALE as int) - principal
}

/// Whether the accrual computation on `principal` over `days` stays
/// representable throughout.
pub open spec fn yield_computable(principal: u128, days: nat) -> bool {
    growth_fits(days) && principal * spec_growth(days) <= u128::MAX
}

/// The growth multiplier never falls below its starting unit.
pub proof fn lemma_growth_lower(days: nat)
    ensures
        spec_growth(days) >= SCALE,
    decreases days,
{
    if days > 0 {
        lemma_growth_lower((days - 1) as nat);
        lemma_div_is_ordered(0, spec_growth((days - 1) as nat), RATE_DIVISOR as int);
    }
}

/// The growth multiplier never decreases from one day to the next.
pub proof fn lemma_growth_mono(d1: nat, d2: nat)
    requires
        d1 <= d2,
    ensures
        spec_growth(d1) <= spec_growth(d2),
    decreases d2,
{
    if d1 < d2 {
        lemma_growth_mono(d1, (d2 - 1) as nat);
        lemma_growth_lower((d2 - 1) as nat);
        lemma_div_is_ordered(0, spec_growth((d2 - 1) as nat), RATE_DIVISOR as int);
    }
}

/// Representability of the growth multiplier is downward closed in days.
pub proof fn lemma_growth_fits_mono(d1: nat, d2: nat)
    requires
        d1 <= d2,
        growth_fits(d2),
    ensures
        growth_fits(d1),
    decreases d2,
{
    if d1 < d2 {
        lemma_growth_fits_mono(d1, (d2 - 1) as nat);
    }
}

/// Accrued yield is never negative.
pub proof fn lemma_accrued_nonneg(principal: u128, days: nat)
    ensures
        spec_accrued(principal, days) >= 0,
{
    lemma_growth_lower(days);
    lemma_mul_inequality(SCALE as int, spec_growth(days), principal as int);
    lemma_div_is_ordered(
        principal * (SCALE as int),
        principal * spec_growth(days),
        SCALE as int,
    );
    lemma_div_multiples_vanish(principal as int, SCALE as int);
}

/// For a fixed principal, accrued yield is monotonically non-decreasing in
/// the number of elapsed days.
pub proof fn lemma_accrued_mono(principal: u128, d1: nat, d2: nat)
    requires
        d1 <= d2,
    ensures
        spec_accrued(principal, d1) <= spec_accrued(principal, d2),
{
    lemma_growth_mono(d1, d2);
    lemma_mul_inequality(spec_growth(d1), spec_growth(d2), principal as int);
    lemma_div_is_ordered(
        principal * spec_growth(d1),
        principal * spec_growth(d2),
        SCALE as int,
    );
}

/// For a fixed principal, the accrued yield read at a later block time is
/// never smaller than the one read at an earlier block time: time only
/// grows the yield.
pub proof fn lemma_accrued_mono_in_time(principal: u128, creation: u64, now1: u64, now2: u64)
    requires
        creation <= now1 <= now2,
    ensures
        spec_days(creation, now1) <= spec_days(creation, now2),
        spec_accrued(principal, spec_days(creation, now1)) <= spec_accrued(
            principal,
            spec_days(creation, now2),
        ),
{
    lemma_div_is_ordered(now1 - creation, now2 - creation, SECONDS_PER_DAY as int);
    lemma_accrued_mono(principal, spec_days(creation, now1), spec_days(creation, now2));
}

/// The compounded yield accrued on `start_amount` after `number_of_days`
/// whole days, or `None` when the computation would overflow.
pub fn compute_yield(start_amount: u128, number_of_days: u64) -> (r: Option<u128>)
    ensures
        r is Some <==> yield_computable(start_amount, number_of_days as nat),
        r is Some ==> r->0 == spec_accrued(start_amount, number_of_days as nat),
{
    let mut m: u128 = SCALE;
    let mut i: u64 = 0;
    while i < number_of_days
        invariant
            i <= number_of_days,
            growth_fits(i as nat),
            m == spec_growth(i as nat),
        decreases number_of_days - i,
    {
        let step = m / RATE_DIVISOR;
        m = match m.checked_add(step) {
            Some(v) => v,
            None => {
                proof {
                    if growth_fits(number_of_days as nat) {
                        lemma_growth_fits_mono((i + 1) as nat, number_of_days as nat);
                    }
                }
                return None;
            },
        };
        i = i + 1;
    }
    proof {
        lemma_growth_lower(number_of_days as nat);
    }
    match start_amount.checked_mul(m) {
        Some(prod) => {
            proof {
                lemma_mul_inequality(SCALE as int, m as int, start_amount as int);
                lemma_div_is_ordered(
                    start_amount * (SCALE as int),
                    start_amount * (m as int),
                    SCALE as int,
                );
                lemma_div_multiples_vanish(start_amount as int, SCALE as int);
            }
            Some(prod / SCALE - start_amount)
        },
        None => None,
    }
}

/// The exactly scaled pro-rata share: `floor(part * amount / whole)`,
/// read as zero when there is nothing to divide among.
pub open spec fn spec_pro_rata(part: u128, whole: u128, amount: u128) -> int {
    if whole == 0 {
        0
    } else {
        part * amount / (whole as int)
    }
}

/// A share never exceeds the amount being divided.
pub proof fn lemma_pro_rata_le_amount(part: u128, whole: u128, amount: u128)
    requires
        part <= whole,
    ensures
        0 <= spec_pro_rata(part, whole, amount) <= amount,
{
    if whole != 0 {
        lemma_mul_inequality(part as int, whole as int, amount as int);
        lemma_div_is_ordered(part * amount, whole * amount, whole as int);
        lemma_div_is_ordered(0, part * amount, whole as int);
        lemma_div_multiples_vanish(amount as int, whole as int);
    }
}

/// Splitting an amount pro rata between two parts that exhaust the whole
/// loses at most one unit to rounding: the two shares sum to the amount or
/// to one less.
pub proof fn lemma_pro_rata_shares_sum(x: u128, y: u128, whole: u128, amount: u128)
    requires
        x + y == whole,
        whole > 0,
    ensures
        spec_pro_rata(x, whole, amount) + spec_pro_rata(y, whole, amount) <= amount,
        amount <= spec_pro_rata(x, whole, amount) + spec_pro_rata(y, whole, amount) + 1,
{
    let w = whole as int;
    let sx = x * amount / w;
    let sy = y * amount / w;
    lemma_fundamental_div_mod(x * amount, w);
    lemma_fundamental_div_mod(y * amount, w);
    let rx = (x * amount) % w;
    let ry = (y * amount) % w;
    assert(x * amount + y * amount == whole * amount) by (nonlinear_arith)
        requires
            x + y == whole,
    ;
    assert(whole * amount == w * (sx + sy) + (rx + ry)) by (nonlinear_arith)
        requires
            x * amount == w * sx + rx,
            y * amount == w * sy + ry,
            x * amount + y * amount == whole * amount,
    ;
    assert(0 <= rx < w);
    assert(0 <= ry < w);
    assert(sx + sy <= amount) by (nonlinear_arith)
        requires
            whole * amount == w * (sx + sy) + (rx + ry),
            0 <= rx < w,
            0 <= ry < w,
            w == whole,
            w > 0,
    ;
    assert(amount <= sx + sy + 1) by (nonlinear_arith)
        requires
            whole * amount == w * (sx + sy) + (rx + ry),
            0 <= rx < w,
            0 <= ry < w,
            w == whole,
            w > 0,
    ;
}

/// The pro-rata share of `part` out of `whole`, applied to `amount`,
/// computed without premature rounding.
pub fn pro_rata_share(part: u128, whole: u128, amount: u128) -> (r: u128)
    requires
        part <= whole,
        whole <= u64::MAX as u128,
    ensures
        r == spec_pro_rata(part, whole, amount),
{
    if whole == 0 {
        return 0;
    }
    let q = amount / whole;
    let rem = amount % whole;
    proof {
        lemma_fundamental_div_mod(amount as int, whole as int);
        // q * part stays within the amount
        lemma_mul_inequality(part as int, whole as int, q as int);
        assert(q * whole <= amount) by (nonlinear_arith)
            requires
                amount == whole * q + rem,
                rem >= 0,
        ;
        // rem * part fits in the machine word
        assert(rem * part <= u64::MAX * (u64::MAX as int)) by (nonlinear_arith)
            requires
                0 <= rem <= u64::MAX,
                0 <= part <= u64::MAX,
        ;
        assert(u64::MAX * (u64::MAX as int) < u128::MAX);
        lemma_div_is_ordered(0, rem * part, whole as int);
        // the two pieces recombine into the exact rational share
        lemma_hoist_over_denominator(rem * part, q * part, whole as nat);
        assert(rem * part + q * part * whole == part * amount) by (nonlinear_arith)
            requires
                amount == whole * q + rem,
        ;
        // and the total stays within the amount
        lemma_pro_rata_le_amount(part, whole, amount);
    }
    let high = q * part;
    let low = (rem * part) / whole;
    high + low
}

} // verus!
