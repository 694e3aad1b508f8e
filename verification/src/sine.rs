//! An integer sine in milli-units, for the sine-wave bullet's vertical
//! motion.
//!
//! Angles are milliradians; the result is scaled by 1000, so it ranges over
//! `[-1000, 1000]`. The half-wave is Bhaskara's rational approximation of
//! sine, evaluated in integer arithmetic; the second half is its negation.
use vstd::prelude::*;

verus! {

/// Milliradians in a half turn.
pub const PI_MRAD: i64 = 3142;

/// Milliradians in a full turn.
pub const TWO_PI_MRAD: i64 = 6284;

/// Five pi squared, scaled by a million: the denominator constant of
/// Bhaskara's approximation in milliradian units.
pub const FIVE_PI_SQUARED_MICRO: i64 = 49_348_022;

/// Bhaskara's half-wave: `16000 x (pi - x) / (5 pi^2 - 4 x (pi - x))` in
/// milliradian units, for `0 <= x < PI_MRAD`.
pub open spec fn half_wave(x: int) -> int {
    let p = x * (PI_MRAD - x);
    16000 * p / (FIVE_PI_SQUARED_MICRO - 4 * p)
}

/// Sine of `x` milliradians, scaled by 1000, for `0 <= x < TWO_PI_MRAD`.
pub open spec fn sin_milli_spec(x: int) -> int {
    if x < PI_MRAD {
        half_wave(x)
    } else {
        -half_wave(x - PI_MRAD)
    }
}

/// The product `x * (PI_MRAD - x)` is non-negative and peaks at the quarter
/// turn.
proof fn lemma_wave_product_bounds(x: int)
    requires
        0 <= x < PI_MRAD,
    ensures
        0 <= x * (PI_MRAD - x) <= 2_468_041,
{
    assert(0 <= x * (3142 - x) <= 2_468_041) by (nonlinear_arith)
        requires
            0 <= x < 3142,
    ;
}

/// The half-wave stays within `[0, 1000]`.
proof fn lemma_half_wave_bounds(x: int)
    requires
        0 <= x < PI_MRAD,
    ensures
        0 <= half_wave(x) <= 1000,
{
    lemma_wave_product_bounds(x);
    let p = x * (PI_MRAD - x);
    let num = 16000 * p;
    let den = FIVE_PI_SQUARED_MICRO - 4 * p;
    vstd::arithmetic::div_mod::lemma_fundamental_div_mod(num, den as int);
    let q = num / den as int;
    assert(0 <= q <= 1000) by (nonlinear_arith)
        requires
            num == den * q + num % den,
            0 <= num % den < den,
            num == 16000 * p,
            den == 49_348_022 - 4 * p,
            0 <= p <= 2_468_041,
    ;
}

fn half_wave_exec(x: i64) -> (r: i64)
    requires
        0 <= x < PI_MRAD,
    ensures
        r == half_wave(x as int),
        0 <= r <= 1000,
{
    proof {
        lemma_wave_product_bounds(x as int);
        lemma_half_wave_bounds(x as int);
    }
    let p: i64 = x * (PI_MRAD - x);
    let num: i64 = 16000 * p;
    let den: i64 = FIVE_PI_SQUARED_MICRO - 4 * p;
    num / den
}

/// The sine value is bounded by one, in milli-units.
pub proof fn lemma_sin_milli_bounds(x: int)
    requires
        0 <= x < TWO_PI_MRAD,
    ensures
        -1000 <= sin_milli_spec(x) <= 1000,
{
    if x < PI_MRAD {
        lemma_half_wave_bounds(x);
    } else {
        lemma_half_wave_bounds(x - PI_MRAD);
    }
}

/// Sine of `x` milliradians, scaled by 1000.
pub fn sin_milli(x: i64) -> (r: i64)
    requires
        0 <= x < TWO_PI_MRAD,
    ensures
        r == sin_milli_spec(x as int),
        -1000 <= r <= 1000,
{
    if x < PI_MRAD {
        half_wave_exec(x)
    } else {
        proof {
            lemma_half_wave_bounds(x - PI_MRAD);
        }
        -half_wave_exec(x - PI_MRAD)
    }
}

} // verus!
