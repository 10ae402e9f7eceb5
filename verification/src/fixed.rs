//! Signed fixed-point scalars: an `i64` counts millionths of a unit.
//!
//! Every real-valued quantity of the visualizer (amplitudes, frequencies,
//! phases, elapsed time, coordinates, the viewport ratio) is carried as such a
//! scalar, so the whole pipeline is exact integer arithmetic. Division is
//! always performed on non-negative numerators so that executable (truncating)
//! and mathematical (Euclidean) division agree.

use vstd::prelude::*;

verus! {

use vstd::arithmetic::div_mod::{lemma_div_is_ordered, lemma_div_pos_is_pos};

/// Number of fixed-point steps in one unit: scalars count millionths.
pub const SCALE: i64 = 1_000_000;

/// Magnitude bound accepted by `fx_mul`; products of two such scalars stay
/// comfortably inside `i128` and their quotients by `SCALE` inside `i64`.
pub const FX_OPERAND_LIMIT: i64 = 1_000_000_000_000;

/// Truncating division (round toward zero), the rounding `fx_mul` uses.
/// Assumes `d > 0`; on a non-negative `n` it coincides with Euclidean `/`.
pub open spec fn div_trunc(n: int, d: int) -> int {
    if n >= 0 {
        n / d
    } else {
        -((-n) / d)
    }
}

/// Product of two fixed-point scalars, rescaled back by `SCALE`.
pub open spec fn fx_mul_spec(a: int, b: int) -> int {
    div_trunc(a * b, SCALE as int)
}

/// `v` clamped into the closed interval `[lo, hi]`.
pub open spec fn clamp_spec(v: int, lo: int, hi: int) -> int {
    if v < lo {
        lo
    } else if v > hi {
        hi
    } else {
        v
    }
}

/// Truncating division never grows a magnitude bound: if `|n| <= m` then
/// `|div_trunc(n, d)| <= m / d`.
pub proof fn lemma_div_trunc_bound(n: int, d: int, m: int)
    requires
        d >= 1,
        0 <= m,
        -m <= n <= m,
    ensures
        -(m / d) <= div_trunc(n, d) <= m / d,
{
    if n >= 0 {
        lemma_div_is_ordered(n, m, d);
        lemma_div_pos_is_pos(n, d);
        lemma_div_pos_is_pos(m, d);
    } else {
        lemma_div_is_ordered(-n, m, d);
        lemma_div_pos_is_pos(-n, d);
    }
}

/// Fixed-point multiplication: computes `fx_mul_spec` exactly.
pub fn fx_mul(a: i64, b: i64) -> (r: i64)
    requires
        -FX_OPERAND_LIMIT <= a <= FX_OPERAND_LIMIT,
        -FX_OPERAND_LIMIT <= b <= FX_OPERAND_LIMIT,
    ensures
        r == fx_mul_spec(a as int, b as int),
{
    proof {
        assert(-(FX_OPERAND_LIMIT as int * FX_OPERAND_LIMIT as int) <= a as int * b as int
            <= FX_OPERAND_LIMIT as int * FX_OPERAND_LIMIT as int) by (nonlinear_arith)
            requires
                -FX_OPERAND_LIMIT <= a <= FX_OPERAND_LIMIT,
                -FX_OPERAND_LIMIT <= b <= FX_OPERAND_LIMIT,
        ;
        lemma_div_trunc_bound(a as int * b as int, SCALE as int, FX_OPERAND_LIMIT as int * FX_OPERAND_LIMIT as int);
    }
    let p: i128 = (a as i128) * (b as i128);
    if p >= 0 {
        (p / (SCALE as i128)) as i64
    } else {
        (-((-p) / (SCALE as i128))) as i64
    }
}

/// Clamp a scalar into `[lo, hi]`: computes `clamp_spec` exactly.
pub fn clamp_i64(v: i64, lo: i64, hi: i64) -> (r: i64)
    requires
        lo <= hi,
    ensures
        r == clamp_spec(v as int, lo as int, hi as int),
        lo <= r <= hi,
{
    if v < lo {
        lo
    } else if v > hi {
        hi
    } else {
        v
    }
}

} // verus!
