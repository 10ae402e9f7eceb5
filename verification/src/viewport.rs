//! Viewport Projector: scale-to-fit-and-center ("letterbox") transform.
//!
//! The logical canvas is scaled uniformly by
//! `ratio = min(out_width / work_width, out_height / work_height)` and the
//! scaled canvas is centered in the output, leaving equal padding on the axis
//! with surplus space. Coordinates are top-left origin, y down. A zero or
//! negative output dimension is reported as `DegenerateViewport` instead of
//! dividing by zero. Recomputing with unchanged inputs yields an identical
//! transform: the result is pinned exactly to the spec functions below.

use vstd::prelude::*;

verus! {

use crate::fixed::SCALE;
use vstd::arithmetic::div_mod::{
    lemma_div_is_ordered,
    lemma_div_pos_is_pos,
    lemma_fundamental_div_mod,
    lemma_mod_bound,
};

/// A surface extent in whole pixels.
#[derive(Clone, Copy, Debug, PartialEq, Eq, Structural)]
pub struct SurfaceSize {
    pub width: i32,
    pub height: i32,
}

/// The per-frame projection: scale the logical canvas by `ratio` (fixed
/// point), then translate by `(offset_x, offset_y)` (fixed-point pixels).
/// A backend composes this with its own screen-to-clip projection.
#[derive(Clone, Copy, Debug, PartialEq, Eq, Structural)]
pub struct ViewportTransform {
    pub ratio: i64,
    pub offset_x: i64,
    pub offset_y: i64,
}

/// Why no transform could be produced.
#[derive(Clone, Copy, Debug, PartialEq, Eq, Structural)]
pub enum ViewportError {
    /// The output surface has a zero or negative dimension.
    DegenerateViewport,
}

/// The uniform scale: the smaller of the two per-axis ratios, fixed point.
pub open spec fn ratio_spec(out: SurfaceSize, work: SurfaceSize) -> int {
    let rx = (out.width as int * SCALE as int) / work.width as int;
    let ry = (out.height as int * SCALE as int) / work.height as int;
    if rx <= ry {
        rx
    } else {
        ry
    }
}

/// Horizontal padding: half the surplus width, fixed-point pixels.
pub open spec fn offset_x_spec(out: SurfaceSize, work: SurfaceSize) -> int {
    (out.width as int * SCALE as int - work.width as int * ratio_spec(out, work)) / 2
}

/// Vertical padding: half the surplus height, fixed-point pixels.
pub open spec fn offset_y_spec(out: SurfaceSize, work: SurfaceSize) -> int {
    (out.height as int * SCALE as int - work.height as int * ratio_spec(out, work)) / 2
}

/// Scaling the work axis never exceeds the output axis: `d * ((o * s) / d)`
/// is at most `o * s`, and the quotient is non-negative.
proof fn lemma_scaled_axis_fits(o: int, d: int, r: int)
    requires
        0 < o,
        0 < d,
        0 <= r <= (o * SCALE as int) / d,
    ensures
        0 <= d * r <= o * SCALE as int,
{
    let os: int = o * SCALE as int;
    let q: int = os / d;
    lemma_fundamental_div_mod(os, d);
    lemma_mod_bound(os, d);
    assert(d * q <= os);
    assert(0 <= d * r <= d * q) by (nonlinear_arith)
        requires
            0 < d,
            0 <= r <= q,
    ;
}

/// Compute the letterbox transform for drawing the logical `work` canvas
/// inside the `out` surface. Fails exactly on a degenerate (zero or
/// negative) output dimension; otherwise the ratio and both offsets are
/// pinned to their spec functions and the offsets are non-negative.
pub fn calc_projection(out: SurfaceSize, work: SurfaceSize) -> (r: Result<
    ViewportTransform,
    ViewportError,
>)
    requires
        0 < work.width,
        0 < work.height,
    ensures
        r is Err <==> (out.width <= 0 || out.height <= 0),
        r is Err ==> r->Err_0 == ViewportError::DegenerateViewport,
        r is Ok ==> r->Ok_0.ratio == ratio_spec(out, work),
        r is Ok ==> r->Ok_0.offset_x == offset_x_spec(out, work),
        r is Ok ==> r->Ok_0.offset_y == offset_y_spec(out, work),
        r is Ok ==> 0 <= r->Ok_0.ratio && 0 <= r->Ok_0.offset_x && 0 <= r->Ok_0.offset_y,
{
    if out.width <= 0 || out.height <= 0 {
        return Err(ViewportError::DegenerateViewport);
    }
    let ow: i64 = out.width as i64;
    let oh: i64 = out.height as i64;
    let ww: i64 = work.width as i64;
    let wh: i64 = work.height as i64;
    proof {
        lemma_div_pos_is_pos(ow as int * SCALE as int, ww as int);
        lemma_div_pos_is_pos(oh as int * SCALE as int, wh as int);
        lemma_div_is_ordered(
            ow as int * SCALE as int,
            0x8000_0000 * SCALE as int,
            ww as int,
        );
        lemma_div_is_ordered(
            oh as int * SCALE as int,
            0x8000_0000 * SCALE as int,
            wh as int,
        );
    }
    let rx: i64 = (ow * SCALE) / ww;
    let ry: i64 = (oh * SCALE) / wh;
    let ratio: i64 = if rx <= ry {
        rx
    } else {
        ry
    };
    proof {
        lemma_scaled_axis_fits(ow as int, ww as int, ratio as int);
        lemma_scaled_axis_fits(oh as int, wh as int, ratio as int);
    }
    let surplus_x: i128 = (ow as i128) * (SCALE as i128) - (ww as i128) * (ratio as i128);
    let surplus_y: i128 = (oh as i128) * (SCALE as i128) - (wh as i128) * (ratio as i128);
    let offset_x: i64 = (surplus_x / 2) as i64;
    let offset_y: i64 = (surplus_y / 2) as i64;
    proof {
        lemma_div_pos_is_pos(surplus_x as int, 2);
        lemma_div_pos_is_pos(surplus_y as int, 2);
        lemma_div_is_ordered(surplus_x as int, 0x8000_0000 * SCALE as int, 2);
        lemma_div_is_ordered(surplus_y as int, 0x8000_0000 * SCALE as int, 2);
    }
    Ok(ViewportTransform { ratio, offset_x, offset_y })
}

/// Law: recomputing the projection with unchanged inputs yields an identical
/// transform — `calc_projection`'s contract pins every field to its spec
/// function, so any two successful results for the same sizes coincide.
pub proof fn lemma_projection_deterministic(
    out: SurfaceSize,
    work: SurfaceSize,
    t1: ViewportTransform,
    t2: ViewportTransform,
)
    requires
        t1.ratio == ratio_spec(out, work),
        t1.offset_x == offset_x_spec(out, work),
        t1.offset_y == offset_y_spec(out, work),
        t2.ratio == ratio_spec(out, work),
        t2.offset_x == offset_x_spec(out, work),
        t2.offset_y == offset_y_spec(out, work),
    ensures
        t1 == t2,
{
}

} // verus!
