//! Fixed-point sine.
//!
//! The sampler's only transcendental ingredient. The angle is a fixed-point
//! radian value (millionths of a radian, see [`crate::fixed::SCALE`]); the
//! result is a fixed-point value in `[-1, 1]`. The definition is the crate's
//! own, written out in full as spec functions: reduce the angle into one turn,
//! fold it onto the first quarter wave by the sine symmetries, evaluate a
//! degree-7 Taylor polynomial there, clamp into `[-1, 1]`, and restore the
//! sign. The executable code computes these spec functions exactly, so two
//! calls on the same angle always agree.

use vstd::prelude::*;

verus! {

use crate::fixed::{SCALE, clamp_spec, clamp_i64};
use vstd::arithmetic::div_mod::{
    lemma_div_is_ordered,
    lemma_div_pos_is_pos,
    lemma_fundamental_div_mod,
    lemma_fundamental_div_mod_converse_mod,
    lemma_mod_bound,
    lemma_mod_multiples_basic,
};

/// One degree in fixed-point radians (pi / 180, truncated to millionths).
pub const DEG_FX: i64 = 17_453;

/// A quarter turn (pi / 2) in fixed-point radians.
pub const HALF_PI_FX: i64 = 1_570_796;

/// A half turn (pi) in fixed-point radians.
pub const PI_FX: i64 = 3_141_593;

/// A full turn (2 * pi) in fixed-point radians.
pub const TWO_PI_FX: i64 = 6_283_185;

/// Largest angle magnitude `sin_fx` accepts; generous enough for every angle
/// the sampler can form from in-range parameters and clock values.
pub const ANGLE_LIMIT: i64 = 2_000_000_000_000_000;

/// The angle brought into `[0, TWO_PI_FX)` (Euclidean remainder of one turn).
pub open spec fn reduce_spec(a: int) -> int {
    a % (TWO_PI_FX as int)
}

/// Distance of a reduced angle from the start of its half turn.
pub open spec fn half_angle_spec(r: int) -> int {
    if r <= PI_FX {
        r
    } else {
        r - PI_FX
    }
}

/// The half-turn angle folded onto the first quarter turn (sine is symmetric
/// about `pi / 2`).
pub open spec fn quarter_angle_spec(y: int) -> int {
    if y > HALF_PI_FX {
        PI_FX - y
    } else {
        y
    }
}

/// Degree-7 Taylor polynomial of sine, evaluated in fixed point on the first
/// quarter turn: `x - x^3/6 + x^5/120 - x^7/5040`, every division truncating.
pub open spec fn sin_poly_spec(x: int) -> int {
    let s = SCALE as int;
    let x2 = (x * x) / s;
    let x3 = (x2 * x) / s;
    let x5 = (x3 * x2) / s;
    let x7 = (x5 * x2) / s;
    x - x3 / 6 + x5 / 120 - x7 / 5040
}

/// Fixed-point sine of an angle in fixed-point radians: reduce, fold, apply
/// the polynomial, clamp into one unit, restore the sign of the half turn.
pub open spec fn sin_spec(a: int) -> int {
    let r = reduce_spec(a);
    let p = clamp_spec(sin_poly_spec(quarter_angle_spec(half_angle_spec(r))), -(SCALE as int), SCALE as int);
    if r <= PI_FX {
        p
    } else {
        -p
    }
}

/// Reduce an angle into `[0, TWO_PI_FX)`: computes `reduce_spec` exactly.
fn reduce_angle(a: i64) -> (r: i64)
    requires
        -ANGLE_LIMIT <= a <= ANGLE_LIMIT,
    ensures
        r == reduce_spec(a as int),
        0 <= r < TWO_PI_FX,
{
    proof {
        lemma_mod_bound(a as int, TWO_PI_FX as int);
    }
    if a >= 0 {
        a % TWO_PI_FX
    } else {
        let n: i64 = (-a) % TWO_PI_FX;
        proof {
            lemma_mod_bound(-a as int, TWO_PI_FX as int);
            lemma_fundamental_div_mod(-a as int, TWO_PI_FX as int);
            let q: int = (-a as int) / (TWO_PI_FX as int);
            if n == 0 {
                lemma_mod_multiples_basic(-q, TWO_PI_FX as int);
                assert(a as int == (-q) * (TWO_PI_FX as int)) by (nonlinear_arith)
                    requires
                        -a as int == (TWO_PI_FX as int) * q + n,
                        n == 0,
                ;
            } else {
                assert(a as int == (-q - 1) * (TWO_PI_FX as int) + (TWO_PI_FX as int - n)) by (nonlinear_arith)
                    requires
                        -a as int == (TWO_PI_FX as int) * q + n,
                ;
                lemma_fundamental_div_mod_converse_mod(
                    a as int,
                    TWO_PI_FX as int,
                    -q - 1,
                    TWO_PI_FX as int - n,
                );
            }
        }
        if n == 0 {
            0
        } else {
            TWO_PI_FX - n
        }
    }
}

/// Evaluate the quarter-wave polynomial: computes `sin_poly_spec` exactly.
fn sin_poly(x: i64) -> (r: i64)
    requires
        0 <= x <= HALF_PI_FX,
    ensures
        r == sin_poly_spec(x as int),
{
    let xi: i128 = x as i128;
    let s: i128 = SCALE as i128;
    proof {
        assert(xi * xi <= 2_470_000_000_000) by (nonlinear_arith)
            requires
                0 <= xi <= 1_570_796,
        ;
        lemma_div_pos_is_pos(xi as int * xi as int, s as int);
        lemma_div_is_ordered(xi as int * xi as int, 2_470_000_000_000, s as int);
    }
    let x2: i128 = (xi * xi) / s;
    proof {
        assert(x2 * xi <= 3_880_000_000_000) by (nonlinear_arith)
            requires
                0 <= x2 <= 2_470_000,
                0 <= xi <= 1_570_796,
        ;
        lemma_div_pos_is_pos(x2 as int * xi as int, s as int);
        lemma_div_is_ordered(x2 as int * xi as int, 3_880_000_000_000, s as int);
    }
    let x3: i128 = (x2 * xi) / s;
    proof {
        assert(x3 * x2 <= 9_590_000_000_000) by (nonlinear_arith)
            requires
                0 <= x3 <= 3_880_000,
                0 <= x2 <= 2_470_000,
        ;
        lemma_div_pos_is_pos(x3 as int * x2 as int, s as int);
        lemma_div_is_ordered(x3 as int * x2 as int, 9_590_000_000_000, s as int);
    }
    let x5: i128 = (x3 * x2) / s;
    proof {
        assert(x5 * x2 <= 23_700_000_000_000) by (nonlinear_arith)
            requires
                0 <= x5 <= 9_590_000,
                0 <= x2 <= 2_470_000,
        ;
        lemma_div_pos_is_pos(x5 as int * x2 as int, s as int);
        lemma_div_is_ordered(x5 as int * x2 as int, 23_700_000_000_000, s as int);
    }
    let x7: i128 = (x5 * x2) / s;
    proof {
        lemma_div_pos_is_pos(x3 as int, 6);
        lemma_div_pos_is_pos(x5 as int, 120);
        lemma_div_pos_is_pos(x7 as int, 5040);
        lemma_div_is_ordered(x3 as int, 3_880_000_000_000, 6);
        lemma_div_is_ordered(x5 as int, 9_590_000_000_000, 120);
        lemma_div_is_ordered(x7 as int, 23_700_000_000_000, 5040);
    }
    let r: i128 = xi - x3 / 6 + x5 / 120 - x7 / 5040;
    r as i64
}

/// Fixed-point sine: computes `sin_spec` exactly; the result never leaves
/// one unit of magnitude.
pub fn sin_fx(a: i64) -> (r: i64)
    requires
        -ANGLE_LIMIT <= a <= ANGLE_LIMIT,
    ensures
        r == sin_spec(a as int),
        -SCALE <= r <= SCALE,
{
    let red: i64 = reduce_angle(a);
    let neg: bool = red > PI_FX;
    let y: i64 = if neg {
        red - PI_FX
    } else {
        red
    };
    let q: i64 = if y > HALF_PI_FX {
        PI_FX - y
    } else {
        y
    };
    let p: i64 = sin_poly(q);
    let c: i64 = clamp_i64(p, -SCALE, SCALE);
    if neg {
        -c
    } else {
        c
    }
}

} // verus!
