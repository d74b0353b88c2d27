//! Fixed-point arithmetic base for the globe's geometry.
//!
//! Every angle and coordinate in this crate is an `i64` holding a real
//! number scaled by [`SCALE`]: the integer `SCALE` stands for the real
//! number `1.0`.  Division and remainder always round toward negative
//! infinity (Euclidean for a positive divisor), which is exactly the
//! `/` and `%` of the mathematical integers used in the specifications,
//! so contracts can state results with `/` directly.

use vstd::prelude::*;
use vstd::arithmetic::div_mod::lemma_fundamental_div_mod;
use vstd::arithmetic::div_mod::lemma_fundamental_div_mod_converse;
use vstd::arithmetic::div_mod::lemma_mod_bound;
use vstd::arithmetic::div_mod::lemma_div_pos_is_pos;

verus! {

/// The integer that stands for the real number 1.0.
pub const SCALE: i64 = 32768;

/// pi/4 in fixed-point units, rounded to the nearest unit.
pub const QUARTER_PI_FP: i64 = 25736;

/// pi/2 in fixed-point units.
pub const HALF_PI_FP: i64 = 51472;

/// pi in fixed-point units.
pub const PI_FP: i64 = 102944;

/// 2*pi in fixed-point units; yaw values are kept in `[0, TWO_PI_FP)`.
pub const TWO_PI_FP: i64 = 205887;

/// Magnitude cap (2^62) on the dividend of `floor_div` and `floor_mod`,
/// leaving room for the sign flip inside their bodies.
pub const FIXED_MAX: i64 = 0x4000_0000_0000_0000;

/// Division rounding toward negative infinity, for a positive divisor.
/// This is the `/` of the mathematical integers in the specifications.
pub fn floor_div(a: i64, d: i64) -> (q: i64)
    requires
        1 <= d,
        -FIXED_MAX <= a <= FIXED_MAX,
    ensures
        q == a as int / d as int,
{
    if a >= 0 {
        a / d
    } else {
        let n = -a - 1;
        let q0 = n / d;
        proof {
            lemma_fundamental_div_mod(n as int, d as int);
            lemma_mod_bound(n as int, d as int);
            lemma_div_pos_is_pos(n as int, d as int);
            let s = n as int % d as int;
            assert(a as int == (-q0 - 1) * (d as int) + (d - 1 - s)) by (nonlinear_arith)
                requires
                    n as int == d as int * (q0 as int) + s,
                    a as int == -(n as int) - 1,
            ;
            lemma_fundamental_div_mod_converse(a as int, d as int, -q0 - 1, d - 1 - s);
        }
        -q0 - 1
    }
}

/// Remainder matching `floor_div`: always in `[0, m)` for a positive `m`.
/// This is the `%` of the mathematical integers in the specifications.
pub fn floor_mod(a: i64, m: i64) -> (r: i64)
    requires
        1 <= m,
        -FIXED_MAX <= a <= FIXED_MAX,
    ensures
        r == a as int % m as int,
        0 <= r < m,
{
    if a >= 0 {
        proof {
            lemma_mod_bound(a as int, m as int);
        }
        a % m
    } else {
        let n = -a;
        let s = n % m;
        proof {
            lemma_fundamental_div_mod(n as int, m as int);
            lemma_mod_bound(n as int, m as int);
            lemma_div_pos_is_pos(n as int, m as int);
            let j = n as int / m as int;
            if s == 0 {
                assert(a as int == (-j) * (m as int) + 0) by (nonlinear_arith)
                    requires
                        n as int == m as int * j + 0,
                        a as int == -(n as int),
                ;
                lemma_fundamental_div_mod_converse(a as int, m as int, -j, 0);
            } else {
                assert(a as int == (-j - 1) * (m as int) + (m as int - s)) by (nonlinear_arith)
                    requires
                        n as int == m as int * j + s,
                        a as int == -(n as int),
                ;
                lemma_fundamental_div_mod_converse(a as int, m as int, -j - 1, m as int - s);
            }
        }
        if s == 0 {
            0
        } else {
            m - s
        }
    }
}

/// A quotient is bounded by `b` whenever the dividend is bounded by `b`
/// times the divisor.
pub proof fn lemma_floor_div_bound(a: int, d: int, b: int)
    requires
        1 <= d,
        0 <= b,
        -b * d <= a <= b * d,
    ensures
        -b <= a / d <= b,
{
    lemma_fundamental_div_mod(a, d);
    lemma_mod_bound(a, d);
    let q = a / d;
    let r = a % d;
    assert(-b <= q <= b) by (nonlinear_arith)
        requires
            a == d * q + r,
            0 <= r < d,
            1 <= d,
            0 <= b,
            -b * d <= a <= b * d,
    ;
}

/// Scaling the dividend and the divisor by the same positive factor
/// leaves the quotient unchanged.
pub proof fn lemma_scaled_div(a: int, c: int, d: int)
    requires
        1 <= c,
        1 <= d,
    ensures
        (c * a) / (c * d) == a / d,
{
    lemma_fundamental_div_mod(a, d);
    lemma_mod_bound(a, d);
    let q = a / d;
    let r = a % d;
    assert(c * a == q * (c * d) + c * r && 0 <= c * r < c * d) by (nonlinear_arith)
        requires
            a == d * q + r,
            0 <= r < d,
            1 <= c,
            1 <= d,
    ;
    lemma_fundamental_div_mod_converse(c * a, c * d, q, c * r);
}

/// A product of bounded factors is bounded by the product of the bounds.
pub proof fn lemma_mul_bound(a: int, b: int, m: int, n: int)
    by (nonlinear_arith)
    requires
        -m <= a <= m,
        -n <= b <= n,
        0 <= m,
        0 <= n,
    ensures
        -(m * n) <= a * b <= m * n,
{
}

/// Division of a larger value by a positive divisor gives a larger
/// (or equal) quotient; wrapper fixing the argument order of vstd.
pub proof fn lemma_div_ordered(x: int, y: int, d: int)
    requires
        x <= y,
        0 < d,
    ensures
        x / d <= y / d,
{
    vstd::arithmetic::div_mod::lemma_div_is_ordered(x, y, d);
}

} // verus!
