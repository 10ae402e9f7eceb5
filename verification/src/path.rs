//! Smooth Path Builder: sample pairs to a continuous quadratic path.
//!
//! Straight segments between raw samples show facets at low detail, so for
//! each pair `(point, next)` the builder emits one quadratic segment whose
//! control point sits two thirds of the way toward `next`:
//! `control = ((x + 2*nx) / 3, (y + 2*ny) / 3)`, end point `next`. The
//! construction is local — segment `i` depends on pair `i` alone — and the
//! path is described by one start point plus the segment sequence, with no
//! implicit breaks, so a backend can stroke it as a single curve.

use vstd::prelude::*;

verus! {

use crate::fixed::div_trunc;
use crate::sampler::{SamplePair, SamplePoint, pair_bounded};

/// Largest coordinate magnitude the builder accepts; far beyond anything the
/// sampler produces, and small enough that `x + 2 * nx` cannot overflow.
pub const PATH_COORD_LIMIT_FX: i64 = 1_000_000_000_000;

/// One smooth segment: a single quadratic control point and an end point.
#[derive(Clone, Copy, Debug, PartialEq, Eq, Structural)]
pub struct PathSegment {
    pub control: SamplePoint,
    pub end: SamplePoint,
}

/// A renderable path for one frame: where the stroke starts and the smooth
/// segments that follow. An empty sample sequence gives `start == None` and
/// no segments: nothing to render.
#[derive(Clone, Debug, PartialEq)]
pub struct SmoothPath {
    pub start: Option<SamplePoint>,
    pub segments: Vec<PathSegment>,
}

/// The control point of one pair: two thirds of the way from `point` to
/// `next` on each axis, rounded toward zero.
pub open spec fn control_spec(pr: SamplePair) -> SamplePoint {
    SamplePoint {
        x: div_trunc(pr.point.x + 2 * pr.next.x, 3) as i64,
        y: div_trunc(pr.point.y + 2 * pr.next.y, 3) as i64,
    }
}

/// The segment emitted for one pair.
pub open spec fn segment_spec(pr: SamplePair) -> PathSegment {
    PathSegment { control: control_spec(pr), end: pr.next }
}

/// The segment sequence for a sample sequence, in order.
pub open spec fn segments_spec(samples: Seq<SamplePair>) -> Seq<PathSegment> {
    samples.map_values(|pr: SamplePair| segment_spec(pr))
}

/// Where the path starts: the first sample's first point, if any.
pub open spec fn start_spec(samples: Seq<SamplePair>) -> Option<SamplePoint> {
    if samples.len() == 0 {
        None
    } else {
        Some(samples[0].point)
    }
}

/// The raw chain is continuous: each pair's second point is the next pair's
/// first point (what the sampler guarantees about its output).
pub open spec fn chain_continuous(samples: Seq<SamplePair>) -> bool {
    forall|i: int|
        0 <= i < samples.len() - 1 ==> (#[trigger] samples[i]).next == samples[i + 1].point
}

/// Truncating division by 3 of a bounded coordinate sum.
fn div3(n: i64) -> (r: i64)
    requires
        -4_000_000_000_000 <= n <= 4_000_000_000_000,
    ensures
        r == div_trunc(n as int, 3),
{
    if n >= 0 {
        n / 3
    } else {
        -((-n) / 3)
    }
}

/// Build the smooth path for a sample sequence: exactly one segment per
/// pair, each pinned to `segment_spec`, starting at the first sample; an
/// empty input yields an empty path.
pub fn build_path(samples: &Vec<SamplePair>) -> (path: SmoothPath)
    requires
        forall|j: int|
            0 <= j < samples@.len() ==> pair_bounded(
                #[trigger] samples@[j],
                PATH_COORD_LIMIT_FX as int,
            ),
    ensures
        path.segments@ == segments_spec(samples@),
        path.segments@.len() == samples@.len(),
        path.start == start_spec(samples@),
{
    let start: Option<SamplePoint> = if samples.len() == 0 {
        None
    } else {
        Some(samples[0].point)
    };
    let mut segments: Vec<PathSegment> = Vec::new();
    let n: usize = samples.len();
    let mut i: usize = 0;
    while i < n
        invariant
            i <= n,
            n == samples@.len(),
            forall|j: int|
                0 <= j < samples@.len() ==> pair_bounded(
                    #[trigger] samples@[j],
                    PATH_COORD_LIMIT_FX as int,
                ),
            segments@.len() == i as int,
            forall|j: int| 0 <= j < i as int ==> segments@[j] == segment_spec(samples@[j]),
        decreases n - i,
    {
        let pr = samples[i];
        let cx: i64 = div3(pr.point.x + 2 * pr.next.x);
        let cy: i64 = div3(pr.point.y + 2 * pr.next.y);
        segments.push(PathSegment { control: SamplePoint { x: cx, y: cy }, end: pr.next });
        i = i + 1;
    }
    proof {
        assert(segments@ =~= segments_spec(samples@));
    }
    SmoothPath { start, segments }
}

/// Law: on a continuous sample chain the built path is one unbroken curve —
/// it starts at the first sample's point and segment `i` ends exactly at the
/// point the following pair begins with, so there is no implicit break
/// between consecutive segments.
pub proof fn lemma_path_unbroken(samples: Seq<SamplePair>)
    requires
        chain_continuous(samples),
    ensures
        forall|i: int|
            0 <= i < samples.len() - 1 ==> (#[trigger] segments_spec(samples)[i]).end
                == samples[i + 1].point,
{
    assert forall|i: int| 0 <= i < samples.len() - 1 implies (#[trigger] segments_spec(
        samples,
    )[i]).end == samples[i + 1].point by {
        assert(samples[i].next == samples[i + 1].point);
    }
}

} // verus!
