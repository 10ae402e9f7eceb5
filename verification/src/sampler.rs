//! Curve Sampler: parameters and time to an ordered sequence of sample pairs.
//!
//! Sample `i` looks at the angle of `i` degrees: the independent variable
//! advances by exactly one degree per index, so `detail` controls the angular
//! range as well as the resolution. Each emitted pair holds the point at
//! index `i` and the point at index `i + 1`; coordinates come from
//! `amplitude * sin(frequency * t + phase + time) + center` evaluated in
//! fixed point. The result is pinned exactly to the spec functions below, so
//! the sampler is total on well-formed inputs, pure, and deterministic.

use vstd::prelude::*;

verus! {

use crate::canvas::{CENTER_X_FX, CENTER_Y_FX};
use crate::fixed::{SCALE, fx_mul, fx_mul_spec, lemma_div_trunc_bound};
use crate::params::{CurveParameters, DETAIL_LIMIT, TIME_LIMIT_FX};
use crate::trig::{ANGLE_LIMIT, DEG_FX, sin_fx, sin_spec};

/// Every coordinate the sampler can produce stays within this magnitude
/// (one amplitude of at most 1000 units plus the canvas midpoint).
pub const COORD_LIMIT_FX: i64 = 2_000_000_000;

/// One point of the sampled curve, in fixed-point logical-canvas coordinates.
#[derive(Clone, Copy, Debug, PartialEq, Eq, Structural)]
pub struct SamplePoint {
    pub x: i64,
    pub y: i64,
}

/// One sampler output: the point at this index and the point one degree on.
#[derive(Clone, Copy, Debug, PartialEq, Eq, Structural)]
pub struct SamplePair {
    pub point: SamplePoint,
    pub next: SamplePoint,
}

/// The sine argument for one axis at sample index `i`:
/// `frequency * (i degrees) + phase + time`, all fixed-point radians.
pub open spec fn angle_spec(frequency: int, phase: int, time: int, i: int) -> int {
    fx_mul_spec(frequency, i * DEG_FX as int) + phase + time
}

/// The x coordinate of sample `i`.
pub open spec fn sample_x_spec(p: CurveParameters, time: int, i: int) -> int {
    fx_mul_spec(
        p.amplitude_x as int,
        sin_spec(angle_spec(p.frequency_x as int, p.phase_x as int, time, i)),
    ) + CENTER_X_FX
}

/// The y coordinate of sample `i`.
pub open spec fn sample_y_spec(p: CurveParameters, time: int, i: int) -> int {
    fx_mul_spec(
        p.amplitude_y as int,
        sin_spec(angle_spec(p.frequency_y as int, p.phase_y as int, time, i)),
    ) + CENTER_Y_FX
}

/// The point at sample index `i`. On well-formed parameters both
/// coordinates fit their fields exactly (`lemma_point_bounded`).
pub open spec fn point_spec(p: CurveParameters, time: int, i: int) -> SamplePoint {
    SamplePoint { x: sample_x_spec(p, time, i) as i64, y: sample_y_spec(p, time, i) as i64 }
}

/// The pair emitted at index `i`: the points of indices `i` and `i + 1`.
pub open spec fn pair_spec(p: CurveParameters, time: int, i: int) -> SamplePair {
    SamplePair { point: point_spec(p, time, i), next: point_spec(p, time, i + 1) }
}

/// The full sampler output: `detail` pairs in index order.
pub open spec fn samples_spec(p: CurveParameters, time: int) -> Seq<SamplePair> {
    Seq::new(p.detail as nat, |i: int| pair_spec(p, time, i))
}

/// Both coordinates of a point have magnitude at most `m`.
pub open spec fn point_bounded(pt: SamplePoint, m: int) -> bool {
    &&& -m <= pt.x <= m
    &&& -m <= pt.y <= m
}

/// Both points of a pair are bounded by `m`.
pub open spec fn pair_bounded(pr: SamplePair, m: int) -> bool {
    point_bounded(pr.point, m) && point_bounded(pr.next, m)
}

/// On well-formed parameters and an in-range clock, every sample coordinate
/// stays within `COORD_LIMIT_FX`, so the casts in `point_spec` are exact.
pub proof fn lemma_point_bounded(p: CurveParameters, time: int, i: int)
    requires
        p.wf(),
    ensures
        -COORD_LIMIT_FX <= sample_x_spec(p, time, i) <= COORD_LIMIT_FX,
        -COORD_LIMIT_FX <= sample_y_spec(p, time, i) <= COORD_LIMIT_FX,
        point_bounded(point_spec(p, time, i), COORD_LIMIT_FX as int),
{
    let sx = sin_spec(angle_spec(p.frequency_x as int, p.phase_x as int, time, i));
    let sy = sin_spec(angle_spec(p.frequency_y as int, p.phase_y as int, time, i));
    assert(-(SCALE as int) <= sx <= SCALE as int);
    assert(-(SCALE as int) <= sy <= SCALE as int);
    assert(-1_000_000_000_000_000 <= p.amplitude_x as int * sx <= 1_000_000_000_000_000)
        by (nonlinear_arith)
        requires
            -1_000_000_000 <= p.amplitude_x as int <= 1_000_000_000,
            -1_000_000 <= sx <= 1_000_000,
    ;
    assert(-1_000_000_000_000_000 <= p.amplitude_y as int * sy <= 1_000_000_000_000_000)
        by (nonlinear_arith)
        requires
            -1_000_000_000 <= p.amplitude_y as int <= 1_000_000_000,
            -1_000_000 <= sy <= 1_000_000,
    ;
    lemma_div_trunc_bound(p.amplitude_x as int * sx, SCALE as int, 1_000_000_000_000_000);
    lemma_div_trunc_bound(p.amplitude_y as int * sy, SCALE as int, 1_000_000_000_000_000);
}

/// Compute the point at sample index `i`: exactly `point_spec`.
pub fn sample_point(p: &CurveParameters, time: i64, i: u32) -> (pt: SamplePoint)
    requires
        p.wf(),
        0 <= time <= TIME_LIMIT_FX,
        i <= DETAIL_LIMIT,
    ensures
        pt == point_spec(*p, time as int, i as int),
        point_bounded(pt, COORD_LIMIT_FX as int),
{
    let t: i64 = (i as i64) * DEG_FX;
    proof {
        assert(-10_000_000_000_000_000 <= p.frequency_x as int * t as int
            <= 10_000_000_000_000_000) by (nonlinear_arith)
            requires
                -100_000_000 <= p.frequency_x as int <= 100_000_000,
                0 <= t as int <= 100_000_000,
        ;
        assert(-10_000_000_000_000_000 <= p.frequency_y as int * t as int
            <= 10_000_000_000_000_000) by (nonlinear_arith)
            requires
                -100_000_000 <= p.frequency_y as int <= 100_000_000,
                0 <= t as int <= 100_000_000,
        ;
        lemma_div_trunc_bound(p.frequency_x as int * t as int, SCALE as int, 10_000_000_000_000_000);
        lemma_div_trunc_bound(p.frequency_y as int * t as int, SCALE as int, 10_000_000_000_000_000);
    }
    let angle_x: i64 = fx_mul(p.frequency_x, t) + p.phase_x + time;
    let angle_y: i64 = fx_mul(p.frequency_y, t) + p.phase_y + time;
    let sx: i64 = sin_fx(angle_x);
    let sy: i64 = sin_fx(angle_y);
    proof {
        lemma_point_bounded(*p, time as int, i as int);
    }
    let x: i64 = fx_mul(p.amplitude_x, sx) + CENTER_X_FX;
    let y: i64 = fx_mul(p.amplitude_y, sy) + CENTER_Y_FX;
    SamplePoint { x, y }
}

/// Sample the whole curve: exactly `detail` pairs, pair `i` holding the
/// points of indices `i` and `i + 1`. Pure and total on well-formed inputs;
/// `detail == 0` yields the empty sequence.
pub fn sample_curve(p: &CurveParameters, time: i64) -> (samples: Vec<SamplePair>)
    requires
        p.wf(),
        0 <= time <= TIME_LIMIT_FX,
    ensures
        samples@ == samples_spec(*p, time as int),
        samples@.len() == p.detail,
        forall|j: int|
            0 <= j < samples@.len() ==> pair_bounded(#[trigger] samples@[j], COORD_LIMIT_FX as int),
{
    let n: u32 = p.detail;
    let mut out: Vec<SamplePair> = Vec::new();
    let mut i: u32 = 0;
    while i < n
        invariant
            i <= n,
            n == p.detail,
            p.wf(),
            0 <= time <= TIME_LIMIT_FX,
            out@.len() == i as int,
            forall|j: int| 0 <= j < i as int ==> out@[j] == pair_spec(*p, time as int, j),
            forall|j: int|
                0 <= j < i as int ==> pair_bounded(#[trigger] out@[j], COORD_LIMIT_FX as int),
        decreases n - i,
    {
        let pt = sample_point(p, time, i);
        let nx = sample_point(p, time, i + 1);
        out.push(SamplePair { point: pt, next: nx });
        i = i + 1;
    }
    proof {
        assert(out@ =~= samples_spec(*p, time as int));
    }
    out
}

/// Law: the raw sample chain is continuous — the second point of pair `i`
/// is the first point of pair `i + 1`, for every index where both exist.
pub proof fn lemma_sample_chain_continuous(p: CurveParameters, time: int)
    ensures
        forall|i: int|
            0 <= i < p.detail as int - 1 ==> (#[trigger] samples_spec(p, time)[i]).next
                == samples_spec(p, time)[i + 1].point,
{
}

/// Law: the sampler is deterministic — its contract pins the output to
/// `samples_spec`, so any two outputs for identical inputs are identical.
pub proof fn lemma_sampler_deterministic(
    p: CurveParameters,
    time: int,
    s1: Seq<SamplePair>,
    s2: Seq<SamplePair>,
)
    requires
        s1 == samples_spec(p, time),
        s2 == samples_spec(p, time),
    ensures
        s1 == s2,
{
}

} // verus!
