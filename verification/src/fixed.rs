//! Fixed-point scalars.
//!
//! Every scalar in this crate is a nonnegative fixed-point number in
//! micro-units: the integer `x` stands for the real number `x / SCALE`
//! with `SCALE = 1_000_000`. A unit-interval quantity is one bounded by
//! `SCALE`.

use vstd::prelude::*;

verus! {

/// One whole unit: the fixed-point representation of the real number 1.0.
pub const SCALE: u64 = 1_000_000;

/// A scalar lies in the unit interval [0, 1].
pub open spec fn is_unit(x: u64) -> bool {
    x <= SCALE
}

/// Mathematical clamp of an integer scalar into [0, SCALE].
pub open spec fn spec_clamp01(x: int) -> int {
    if x < 0 {
        0
    } else if x > SCALE {
        SCALE as int
    } else {
        x
    }
}

/// Clamp a scalar into the unit interval. Values are unsigned, so only the
/// upper bound can bite.
pub fn clamp01(x: u64) -> (r: u64)
    ensures
        r == spec_clamp01(x as int),
        is_unit(r),
{
    if x >= SCALE {
        SCALE
    } else {
        x
    }
}

/// Product of a scalar with a unit-interval factor, `a * b / SCALE`,
/// rounded toward zero.
pub open spec fn spec_mul_unit(a: int, b: int) -> int {
    (a * b) / (SCALE as int)
}

/// Multiply `a` by the unit-interval factor `b`; the result never exceeds `a`.
pub fn mul_unit(a: u64, b: u64) -> (r: u64)
    requires
        is_unit(b),
    ensures
        r == spec_mul_unit(a as int, b as int),
        r <= a,
{
    proof {
        broadcast use vstd::arithmetic::mul::lemma_mul_is_commutative;

        vstd::arithmetic::mul::lemma_mul_inequality(b as int, SCALE as int, a as int);
        vstd::arithmetic::mul::lemma_mul_inequality(a as int, u64::MAX as int, SCALE as int);
        assert((a as int) * (b as int) <= (u64::MAX as int) * (SCALE as int));
    }
    let wide: u128 = (a as u128) * (b as u128);
    let q: u128 = wide / (SCALE as u128);
    proof {
        vstd::arithmetic::div_mod::lemma_div_is_ordered(
            (a as int) * (b as int),
            (a as int) * (SCALE as int),
            SCALE as int,
        );
        vstd::arithmetic::div_mod::lemma_div_by_multiple(a as int, SCALE as int);
    }
    q as u64
}

/// Clamped frequency `clamp01(count * SCALE / n)` of an event seen `count`
/// times in `n` observations.
pub fn unit_rate(count: u64, n: u64) -> (r: u64)
    requires
        n >= 1,
    ensures
        r == spec_clamp01((count as int) * (SCALE as int) / (n as int)),
        is_unit(r),
{
    proof {
        vstd::arithmetic::mul::lemma_mul_inequality(count as int, u64::MAX as int, SCALE as int);
    }
    let wide: u128 = (count as u128) * (SCALE as u128);
    let q: u128 = wide / (n as u128);
    if q >= SCALE as u128 {
        SCALE
    } else {
        q as u64
    }
}

/// Exact fraction `count * SCALE / n` for `count <= n`; the result needs no
/// clamp because the fraction cannot exceed one.
pub fn unit_frac(count: u64, n: u64) -> (r: u64)
    requires
        1 <= n,
        count <= n,
    ensures
        r == (count as int) * (SCALE as int) / (n as int),
        is_unit(r),
{
    proof {
        vstd::arithmetic::mul::lemma_mul_inequality(count as int, u64::MAX as int, SCALE as int);
    }
    let wide: u128 = (count as u128) * (SCALE as u128);
    let q: u128 = wide / (n as u128);
    proof {
        vstd::arithmetic::mul::lemma_mul_inequality(count as int, n as int, SCALE as int);
        vstd::arithmetic::div_mod::lemma_div_is_ordered(
            (count as int) * (SCALE as int),
            (n as int) * (SCALE as int),
            n as int,
        );
        vstd::arithmetic::mul::lemma_mul_is_commutative(n as int, SCALE as int);
        vstd::arithmetic::div_mod::lemma_div_by_multiple(SCALE as int, n as int);
    }
    q as u64
}

} // verus!
