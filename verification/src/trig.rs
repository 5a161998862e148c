//! Fixed-point sine in milli units.
//!
//! Angles are measured in milli-radians with one full turn equal to
//! `TWO_PI_MILLI`; results are in milli units, so the range of sine is
//! exactly `-1000 ..= 1000`. On the half turn `0 ..= PI_MILLI` the value
//! is the rational approximation `16 x (pi - x) / (5 pi^2 - 4 x (pi - x))`
//! evaluated in integer arithmetic; the second half turn is its negation.
use vstd::prelude::*;

verus! {

use vstd::arithmetic::div_mod::lemma_div_is_ordered;
use vstd::arithmetic::div_mod::lemma_div_multiples_vanish;
use vstd::arithmetic::div_mod::lemma_mod_bound;
use crate::MILLI;

/// Half a turn, in milli-radians.
pub const PI_MILLI: i64 = 3142;

/// A quarter turn, in milli-radians.
pub const HALF_PI_MILLI: i64 = 1571;

/// A full turn, in milli-radians.
pub const TWO_PI_MILLI: i64 = 6284;

/// The largest value of `x * (PI_MILLI - x)` over `0 <= x <= PI_MILLI`,
/// reached at the quarter turn.
pub const QUARTER_TURN_SQ: i64 = 2468041;

/// `5 * PI_MILLI * PI_MILLI`, the constant term of the denominator.
pub const FIVE_PI_SQ: i64 = 49360820;

/// The parabola `x * (PI_MILLI - x)`: zero at the ends of a half turn,
/// largest at the quarter turn.
pub open spec fn arch(x: int) -> int {
    x * (PI_MILLI - x)
}

/// Sine on the first half turn: `0 <= x <= PI_MILLI`, result in
/// `0 ..= MILLI`.
pub open spec fn sin_half_turn_spec(x: int) -> int {
    (16000 * arch(x)) / (FIVE_PI_SQ - 4 * arch(x))
}

/// Sine of any non-negative angle in milli-radians, in milli units: the
/// angle is reduced to one turn, and the second half turn is the negated
/// first half turn.
pub open spec fn sin_milli_spec(angle: int) -> int {
    let a = angle % (TWO_PI_MILLI as int);
    if a < PI_MILLI {
        sin_half_turn_spec(a)
    } else {
        -sin_half_turn_spec(a - PI_MILLI)
    }
}

/// Cosine, defined as sine shifted by a quarter turn.
pub open spec fn cos_milli_spec(angle: int) -> int {
    sin_milli_spec(angle + HALF_PI_MILLI)
}

/// `arch` stays within `0 ..= QUARTER_TURN_SQ` on the first half turn.
proof fn lemma_arch_bounds(x: int)
    requires
        0 <= x <= PI_MILLI,
    ensures
        0 <= arch(x) <= QUARTER_TURN_SQ,
{
    assert(0 <= x * (PI_MILLI - x) <= QUARTER_TURN_SQ) by (nonlinear_arith)
        requires
            0 <= x <= PI_MILLI,
    ;
}

/// On the first half turn the sine approximation stays within
/// `0 ..= MILLI`.
pub proof fn lemma_sin_half_turn_bounds(x: int)
    requires
        0 <= x <= PI_MILLI,
    ensures
        0 <= sin_half_turn_spec(x) <= MILLI,
{
    lemma_arch_bounds(x);
    let q = arch(x);
    let num = 16000 * q;
    let den = FIVE_PI_SQ - 4 * q;
    assert(den >= FIVE_PI_SQ - 4 * QUARTER_TURN_SQ);
    assert(num >= 0);
    assert(num / den >= 0);
    assert(num <= 1000 * den);
    lemma_div_is_ordered(num, 1000 * den, den);
    lemma_div_multiples_vanish(1000, den);
    assert((den * 1000) / den == 1000);
}

/// The sine of any non-negative angle lies within `-MILLI ..= MILLI`.
pub proof fn lemma_sin_milli_bounds(angle: int)
    requires
        0 <= angle,
    ensures
        -MILLI <= sin_milli_spec(angle) <= MILLI,
{
    lemma_mod_bound(angle, TWO_PI_MILLI as int);
    let a = angle % (TWO_PI_MILLI as int);
    if a < PI_MILLI {
        lemma_sin_half_turn_bounds(a);
    } else {
        lemma_sin_half_turn_bounds(a - PI_MILLI);
    }
}

/// Sine on the first half turn, evaluated in integer arithmetic.
fn sin_half_turn(x: i64) -> (r: i64)
    requires
        0 <= x <= PI_MILLI,
    ensures
        r == sin_half_turn_spec(x as int),
        0 <= r <= MILLI,
{
    proof {
        lemma_arch_bounds(x as int);
    }
    let q: i64 = x * (PI_MILLI - x);
    let num: i64 = 16000 * q;
    let den: i64 = FIVE_PI_SQ - 4 * q;
    proof {
        assert(q == arch(x as int));
        lemma_sin_half_turn_bounds(x as int);
    }
    num / den
}

/// Fixed-point sine: angle in milli-radians, result in milli units.
pub fn sin_milli(angle: i64) -> (r: i64)
    requires
        0 <= angle,
    ensures
        r == sin_milli_spec(angle as int),
        -MILLI <= r <= MILLI,
{
    let a: i64 = angle % TWO_PI_MILLI;
    proof {
        lemma_mod_bound(angle as int, TWO_PI_MILLI as int);
    }
    if a < PI_MILLI {
        sin_half_turn(a)
    } else {
        let s = sin_half_turn(a - PI_MILLI);
        -s
    }
}

/// Fixed-point cosine: sine shifted a quarter turn.
pub fn cos_milli(angle: i64) -> (r: i64)
    requires
        0 <= angle,
        angle + HALF_PI_MILLI <= i64::MAX,
    ensures
        r == cos_milli_spec(angle as int),
        -MILLI <= r <= MILLI,
{
    sin_milli(angle + HALF_PI_MILLI)
}

} // verus!
