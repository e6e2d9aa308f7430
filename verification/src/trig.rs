//! Fixed-point sine and cosine.
//!
//! Angles are integers with [`FULL_TURN`] units to a revolution; results
//! are scaled by [`SCALE`]. The first half-turn uses Bhaskara's rational
//! approximation, which is exact at zero, a quarter turn and a half turn;
//! the second half-turn is its negation, and cosine is sine shifted a
//! quarter turn. Everything is integer arithmetic, so a spec function
//! pins each result exactly.

use vstd::prelude::*;
use crate::{SCALE, FULL_TURN, HALF_TURN, QUARTER_TURN};

verus! {

/// Sine over the first half-turn, scaled by `SCALE`: for `u` in
/// `[0, HALF_TURN]`, Bhaskara's approximation
/// `16 u (H - u) / (5 H^2 - 4 u (H - u))` of `sin(pi u / H)`.
pub open spec fn half_sine(u: int) -> int {
    let p = u * (HALF_TURN - u);
    (16 * p * SCALE) / (5 * (HALF_TURN as int) * (HALF_TURN as int) - 4 * p)
}

/// An angle brought into `[0, FULL_TURN)`; intended for arguments in
/// `[-FULL_TURN, 3 * FULL_TURN)`.
pub open spec fn reduced(a: int) -> int {
    let b = if a < 0 { a + FULL_TURN } else { a };
    let c = if b >= FULL_TURN { b - FULL_TURN } else { b };
    if c >= FULL_TURN { c - FULL_TURN } else { c }
}

/// The fixed-point sine of an angle: `SCALE * sin` up to the
/// approximation error of `half_sine`.
pub open spec fn sine(a: int) -> int {
    let u = reduced(a);
    if u <= HALF_TURN {
        half_sine(u)
    } else {
        -half_sine(u - HALF_TURN)
    }
}

/// The fixed-point cosine: sine a quarter turn ahead.
pub open spec fn cosine(a: int) -> int {
    sine(a + QUARTER_TURN)
}

/// Bhaskara's quotient stays within `[0, SCALE]` on the first half-turn.
pub proof fn lemma_half_sine_bounds(u: int)
    requires
        0 <= u <= HALF_TURN,
    ensures
        0 <= half_sine(u) <= SCALE,
{
    let p = u * (HALF_TURN - u);
    let h = HALF_TURN as int;
    assert(0 <= p && 4 * p <= h * h) by (nonlinear_arith)
        requires 0 <= u <= h, p == u * (h - u);
    let den = 5 * h * h - 4 * p;
    assert(den >= 4 * h * h > 0);
    assert(16 * p * SCALE <= den * SCALE) by (nonlinear_arith)
        requires 4 * p <= h * h, den == 5 * h * h - 4 * p, SCALE > 0;
    vstd::arithmetic::div_mod::lemma_div_is_ordered(16 * p * SCALE, den * SCALE, den);
    vstd::arithmetic::div_mod::lemma_div_multiples_vanish(SCALE as int, den);
    vstd::arithmetic::div_mod::lemma_div_pos_is_pos(16 * p * SCALE, den);
}

/// Sine values stay within `[-SCALE, SCALE]` on the reduced domain.
pub proof fn lemma_sine_bounds(a: int)
    requires
        -FULL_TURN <= a < 3 * FULL_TURN,
    ensures
        -SCALE <= sine(a) <= SCALE,
{
    let u = reduced(a);
    if u <= HALF_TURN {
        lemma_half_sine_bounds(u);
    } else {
        lemma_half_sine_bounds(u - HALF_TURN);
    }
}

/// Cosine values stay within `[-SCALE, SCALE]` on the reduced domain.
pub proof fn lemma_cosine_bounds(a: int)
    requires
        -FULL_TURN <= a < 3 * FULL_TURN - QUARTER_TURN,
    ensures
        -SCALE <= cosine(a) <= SCALE,
{
    lemma_sine_bounds(a + QUARTER_TURN);
}

/// Sine over the first half-turn, by Bhaskara's approximation.
fn half_sine_x(u: i64) -> (r: i64)
    requires
        0 <= u <= HALF_TURN,
    ensures
        r == half_sine(u as int),
        0 <= r <= SCALE,
{
    proof {
        lemma_half_sine_bounds(u as int);
        let h = HALF_TURN as int;
        assert(0 <= u * (h - u) && 4 * (u * (h - u)) <= h * h) by (nonlinear_arith)
            requires 0 <= u <= h;
    }
    let p = u * (HALF_TURN - u);
    (16 * p * SCALE) / (5 * HALF_TURN * HALF_TURN - 4 * p)
}

/// The fixed-point sine of an angle.
pub fn sin_fp(a: i64) -> (r: i64)
    requires
        -FULL_TURN <= a < 3 * FULL_TURN,
    ensures
        r == sine(a as int),
        -SCALE <= r <= SCALE,
{
    let b = if a < 0 { a + FULL_TURN } else { a };
    let c = if b >= FULL_TURN { b - FULL_TURN } else { b };
    let u = if c >= FULL_TURN { c - FULL_TURN } else { c };
    if u <= HALF_TURN {
        half_sine_x(u)
    } else {
        -half_sine_x(u - HALF_TURN)
    }
}

/// The fixed-point cosine of an angle.
pub fn cos_fp(a: i64) -> (r: i64)
    requires
        -FULL_TURN <= a < 3 * FULL_TURN - QUARTER_TURN,
    ensures
        r == cosine(a as int),
        -SCALE <= r <= SCALE,
{
    sin_fp(a + QUARTER_TURN)
}

} // verus!
