//! Fixed-point sine and cosine.
//!
//! Angles are fixed-point radians (see [`crate::fixed`]).  An angle is
//! first reduced into `[0, TWO_PI_FP)`, then folded into the first
//! quarter turn, where a short alternating polynomial evaluates the
//! function.  Every executable function returns exactly the value of
//! its specification twin, and the results always stay in
//! `[-SCALE, SCALE]`.

use vstd::prelude::*;
use vstd::arithmetic::div_mod::lemma_div_pos_is_pos;
use vstd::arithmetic::div_mod::lemma_div_multiples_vanish;
use vstd::arithmetic::div_mod::lemma_small_mod;
use vstd::arithmetic::div_mod::lemma_div_of0;
use crate::fixed::SCALE;
use crate::fixed::QUARTER_PI_FP;
use crate::fixed::HALF_PI_FP;
use crate::fixed::PI_FP;
use crate::fixed::TWO_PI_FP;
use crate::fixed::FIXED_MAX;
use crate::fixed::floor_mod;
use crate::fixed::lemma_floor_div_bound;
use crate::fixed::lemma_div_ordered;
use crate::fixed::lemma_mul_bound;

verus! {

/// Truncated alternating series for sine on `[0, pi/4]`.
pub open spec fn sin_poly_spec(t: int) -> int {
    let c3 = (t * t * t) / (6 * SCALE * SCALE);
    let c5 = (c3 * (t * t)) / (20 * SCALE * SCALE);
    t - c3 + c5
}

/// Truncated alternating series for cosine on `[0, pi/4]`.
pub open spec fn cos_poly_spec(u: int) -> int {
    let c2 = (u * u) / (2 * SCALE);
    let c4 = (c2 * (u * u)) / (12 * SCALE * SCALE);
    SCALE - c2 + c4
}

/// Sine on the first quarter turn `[0, pi/2]`, folded onto the two
/// polynomials around `pi/4`.
pub open spec fn quarter_sin_spec(t: int) -> int {
    if t <= QUARTER_PI_FP {
        sin_poly_spec(t)
    } else {
        cos_poly_spec(HALF_PI_FP - t)
    }
}

/// Sine of any fixed-point angle: reduce modulo a full turn, then fold
/// the four quadrants onto the first one.
pub open spec fn sin_fp_spec(a: int) -> int {
    let r = a % (TWO_PI_FP as int);
    if r < HALF_PI_FP {
        quarter_sin_spec(r)
    } else if r < PI_FP {
        quarter_sin_spec(PI_FP - r)
    } else if r < PI_FP + HALF_PI_FP {
        -quarter_sin_spec(r - PI_FP)
    } else {
        -quarter_sin_spec(TWO_PI_FP - r)
    }
}

/// Cosine as sine shifted a quarter turn forward.
pub open spec fn cos_fp_spec(a: int) -> int {
    sin_fp_spec(a % (TWO_PI_FP as int) + HALF_PI_FP)
}

/// Range and ordering facts about the terms of `sin_poly_spec`.
proof fn lemma_sin_poly_props(t: int)
    requires
        0 <= t <= QUARTER_PI_FP,
    ensures
        ({
            let c3 = (t * t * t) / (6 * SCALE * SCALE);
            let c5 = (c3 * (t * t)) / (20 * SCALE * SCALE);
            0 <= c3 <= 2700 && c3 <= t && 0 <= c5 <= c3
        }),
{
    let c3 = (t * t * t) / (6 * SCALE * SCALE);
    let c5 = (c3 * (t * t)) / (20 * SCALE * SCALE);
    assert(0 <= t * t <= 662341696 && 0 <= t * t * t <= 2700 * (6 * SCALE * SCALE)
        && t * t * t <= (6 * SCALE * SCALE) * t) by (nonlinear_arith)
        requires
            0 <= t <= QUARTER_PI_FP,
    ;
    lemma_div_pos_is_pos(t * t * t, 6 * SCALE * SCALE);
    lemma_floor_div_bound(t * t * t, 6 * SCALE * SCALE, 2700);
    lemma_div_ordered(t * t * t, (6 * SCALE * SCALE) * t, 6 * SCALE * SCALE);
    lemma_div_multiples_vanish(t, 6 * SCALE * SCALE);
    assert(c3 <= t);
    assert(0 <= c3 * (t * t) && c3 * (t * t) <= (20 * SCALE * SCALE) * c3) by (nonlinear_arith)
        requires
            0 <= c3,
            0 <= t * t <= 662341696,
    ;
    lemma_div_pos_is_pos(c3 * (t * t), 20 * SCALE * SCALE);
    lemma_div_ordered(c3 * (t * t), (20 * SCALE * SCALE) * c3, 20 * SCALE * SCALE);
    lemma_div_multiples_vanish(c3, 20 * SCALE * SCALE);
    assert(c5 <= c3);
}

/// Range and ordering facts about the terms of `cos_poly_spec`.
proof fn lemma_cos_poly_props(u: int)
    requires
        0 <= u <= QUARTER_PI_FP,
    ensures
        ({
            let c2 = (u * u) / (2 * SCALE);
            let c4 = (c2 * (u * u)) / (12 * SCALE * SCALE);
            0 <= c2 <= 10107 && 0 <= c4 <= c2
        }),
{
    let c2 = (u * u) / (2 * SCALE);
    let c4 = (c2 * (u * u)) / (12 * SCALE * SCALE);
    assert(0 <= u * u <= 662341696 && u * u <= 10107 * (2 * SCALE)) by (nonlinear_arith)
        requires
            0 <= u <= QUARTER_PI_FP,
    ;
    lemma_div_pos_is_pos(u * u, 2 * SCALE);
    lemma_floor_div_bound(u * u, 2 * SCALE, 10107);
    assert(0 <= c2 * (u * u) && c2 * (u * u) <= (12 * SCALE * SCALE) * c2) by (nonlinear_arith)
        requires
            0 <= c2,
            0 <= u * u <= 662341696,
    ;
    lemma_div_pos_is_pos(c2 * (u * u), 12 * SCALE * SCALE);
    lemma_div_ordered(c2 * (u * u), (12 * SCALE * SCALE) * c2, 12 * SCALE * SCALE);
    lemma_div_multiples_vanish(c2, 12 * SCALE * SCALE);
    assert(c4 <= c2);
}

/// Sine series, executable; exact to its specification.
fn sin_poly(t: i64) -> (r: i64)
    requires
        0 <= t <= QUARTER_PI_FP,
    ensures
        r == sin_poly_spec(t as int),
        0 <= r <= t,
{
    proof {
        lemma_mul_bound(t as int, t as int, QUARTER_PI_FP as int, QUARTER_PI_FP as int);
        lemma_sin_poly_props(t as int);
    }
    let t2 = t * t;
    proof {
        lemma_mul_bound(t2 as int, t as int, 662341696, QUARTER_PI_FP as int);
    }
    let t3 = t2 * t;
    let c3 = t3 / (6 * SCALE * SCALE);
    proof {
        lemma_mul_bound(c3 as int, t2 as int, 2700, 662341696);
    }
    let c5 = (c3 * t2) / (20 * SCALE * SCALE);
    t - c3 + c5
}

/// Cosine series, executable; exact to its specification.
fn cos_poly(u: i64) -> (r: i64)
    requires
        0 <= u <= QUARTER_PI_FP,
    ensures
        r == cos_poly_spec(u as int),
        0 <= r <= SCALE,
{
    proof {
        lemma_mul_bound(u as int, u as int, QUARTER_PI_FP as int, QUARTER_PI_FP as int);
        lemma_cos_poly_props(u as int);
    }
    let u2 = u * u;
    let c2 = u2 / (2 * SCALE);
    proof {
        lemma_mul_bound(c2 as int, u2 as int, 10107, 662341696);
    }
    let c4 = (c2 * u2) / (12 * SCALE * SCALE);
    SCALE - c2 + c4
}

/// Sine on the first quarter turn, executable.
fn quarter_sin(t: i64) -> (r: i64)
    requires
        0 <= t <= HALF_PI_FP,
    ensures
        r == quarter_sin_spec(t as int),
        0 <= r <= SCALE,
{
    if t <= QUARTER_PI_FP {
        sin_poly(t)
    } else {
        cos_poly(HALF_PI_FP - t)
    }
}

/// Fixed-point sine of a fixed-point angle.
pub fn sin_fp(a: i64) -> (r: i64)
    requires
        -FIXED_MAX <= a <= FIXED_MAX,
    ensures
        r == sin_fp_spec(a as int),
        -SCALE <= r <= SCALE,
{
    let r0 = floor_mod(a, TWO_PI_FP);
    if r0 < HALF_PI_FP {
        quarter_sin(r0)
    } else if r0 < PI_FP {
        quarter_sin(PI_FP - r0)
    } else if r0 < PI_FP + HALF_PI_FP {
        -quarter_sin(r0 - PI_FP)
    } else {
        -quarter_sin(TWO_PI_FP - r0)
    }
}

/// Fixed-point cosine of a fixed-point angle.
pub fn cos_fp(a: i64) -> (r: i64)
    requires
        -FIXED_MAX <= a <= FIXED_MAX,
    ensures
        r == cos_fp_spec(a as int),
        -SCALE <= r <= SCALE,
{
    let r0 = floor_mod(a, TWO_PI_FP);
    sin_fp(r0 + HALF_PI_FP)
}

/// At angle zero the fixed-point sine and cosine are exact: the view
/// with pitch and yaw both zero is the identity view.
pub proof fn lemma_trig_identity_values()
    ensures
        sin_fp_spec(0) == 0,
        cos_fp_spec(0) == SCALE,
{
    lemma_small_mod(0nat, TWO_PI_FP as nat);
    lemma_small_mod(HALF_PI_FP as nat, TWO_PI_FP as nat);
    lemma_div_of0(6 * SCALE * SCALE);
    lemma_div_of0(20 * SCALE * SCALE);
    lemma_div_of0(2 * SCALE);
    lemma_div_of0(12 * SCALE * SCALE);
    assert(sin_fp_spec(0) == quarter_sin_spec(0));
    assert(sin_poly_spec(0) == 0);
    assert(cos_fp_spec(0) == sin_fp_spec(HALF_PI_FP as int));
    assert(sin_fp_spec(HALF_PI_FP as int) == quarter_sin_spec(PI_FP - HALF_PI_FP));
    assert(quarter_sin_spec(HALF_PI_FP as int) == cos_poly_spec(0));
    assert(cos_poly_spec(0) == SCALE);
}

} // verus!
