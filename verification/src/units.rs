//! Fixed-point scalars shared by the whole engine.
//!
//! One unit is 10^-12 of the underlying currency (quote currency for prices
//! and notionals, base currency for quantities), so the engine's smallest
//! representable difference is exactly 10^-12.

use vstd::prelude::*;

verus! {

/// Number of units in one whole currency unit.
pub const SCALE: u64 = 1_000_000_000_000;

/// Upper bound on any price, quantity or notional the engine handles
/// (10^6 whole currency units). Keeps every product inside 128 bits.
pub const MAX_UNITS: u64 = 1_000_000_000_000_000_000;

/// Denominator for dimensionless fixed-point ratios (parts per million).
pub const PPM: u64 = 1_000_000;

/// Elapsed engine-clock time, clamped at zero so a clock regression
/// never yields a negative duration.
pub open spec fn spec_elapsed_ms(last_ms: u64, now_ms: u64) -> int {
    if now_ms >= last_ms {
        now_ms - last_ms
    } else {
        0
    }
}

/// Division truncating toward zero, as machine signed division does.
/// Only used with a positive divisor.
pub open spec fn tdiv(a: int, b: int) -> int {
    if a >= 0 {
        a / b
    } else {
        -((-a) / b)
    }
}

/// Clamps a mathematical integer into `[-i64::MAX, i64::MAX]`.
pub open spec fn sat_i64(x: int) -> int {
    if x > i64::MAX as int {
        i64::MAX as int
    } else if x < -(i64::MAX as int) {
        -(i64::MAX as int)
    } else {
        x
    }
}

/// `a * b / SCALE` truncated toward zero and clamped into the `i64` range:
/// the product of a signed position and a price, rescaled into units.
pub fn scale_signed(a: i64, b: u64) -> (r: i64)
    requires
        b <= MAX_UNITS,
    ensures
        r == sat_i64(tdiv(a * b, SCALE as int)),
{
    if a >= 0 {
        proof {
            assert(0 <= (a as int) * (b as int) <= (i64::MAX as int) * (MAX_UNITS as int))
                by (nonlinear_arith)
                requires
                    0 <= a as int <= i64::MAX as int,
                    0 <= b as int <= MAX_UNITS as int,
            ;
        }
        let q: u128 = (a as u128) * (b as u128) / (SCALE as u128);
        if q > (i64::MAX as u128) {
            i64::MAX
        } else {
            q as i64
        }
    } else {
        let mag: u128 = (-(a as i128)) as u128;
        proof {
            assert(0 <= (mag as int) * (b as int) <= ((i64::MAX as int) + 1) * (
            MAX_UNITS as int))
                by (nonlinear_arith)
                requires
                    0 <= mag as int <= (i64::MAX as int) + 1,
                    0 <= b as int <= MAX_UNITS as int,
            ;
            assert((mag as int) * (b as int) == -((a as int) * (b as int)))
                by (nonlinear_arith)
                requires
                    mag as int == -(a as int),
            ;
        }
        let q: u128 = mag * (b as u128) / (SCALE as u128);
        if q > (i64::MAX as u128) {
            -i64::MAX
        } else {
            -(q as i64)
        }
    }
}

/// Signed division truncating toward zero, for a positive divisor.
pub fn div_trunc(a: i128, b: i128) -> (r: i128)
    requires
        0 < b,
        a > i128::MIN,
    ensures
        r == tdiv(a as int, b as int),
{
    if a >= 0 {
        a / b
    } else {
        -((-a) / b)
    }
}

/// Saturating signed addition.
pub open spec fn sat_add(a: int, b: int) -> int {
    if a + b > i64::MAX as int {
        i64::MAX as int
    } else if a + b < i64::MIN as int {
        i64::MIN as int
    } else {
        a + b
    }
}

/// Adds two signed unit amounts, clamping at the `i64` range.
pub fn add_saturating(a: i64, b: i64) -> (r: i64)
    ensures
        r == sat_add(a as int, b as int),
{
    let s: i128 = (a as i128) + (b as i128);
    if s > (i64::MAX as i128) {
        i64::MAX
    } else if s < (i64::MIN as i128) {
        i64::MIN
    } else {
        s as i64
    }
}

/// Largest multiple of `step` that is at most `value`.
pub open spec fn spec_round_down_to_step(value: int, step: int) -> int {
    (value / step) * step
}

/// Rounding down never passes a multiple of the step that the value sits
/// on or above.
pub proof fn lemma_round_down_ge_multiple(m: int, x: int, step: int)
    requires
        0 < step,
        m % step == 0,
        m <= x,
    ensures
        spec_round_down_to_step(x, step) >= m,
{
    vstd::arithmetic::div_mod::lemma_div_is_ordered(m, x, step);
    vstd::arithmetic::mul::lemma_mul_inequality(m / step, x / step, step);
    vstd::arithmetic::div_mod::lemma_fundamental_div_mod(m, step);
    vstd::arithmetic::mul::lemma_mul_is_commutative(step, m / step);
}

/// Rounds `value` down to the nearest multiple of `step`.
pub fn round_down_to_step(value: u64, step: u64) -> (r: u64)
    requires
        step > 0,
    ensures
        r == spec_round_down_to_step(value as int, step as int),
        r <= value,
        r % step == 0,
{
    proof {
        vstd::arithmetic::div_mod::lemma_fundamental_div_mod(value as int, step as int);
        vstd::arithmetic::div_mod::lemma_mod_division_less_than_divisor(
            value as int,
            step as int,
        );
        vstd::arithmetic::mul::lemma_mul_is_commutative(
            step as int,
            (value as int) / (step as int),
        );
        vstd::arithmetic::div_mod::lemma_mod_multiples_basic(
            (value as int) / (step as int),
            step as int,
        );
    }
    (value / step) * step
}

} // verus!
