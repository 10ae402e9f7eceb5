//! Per-frame composition: state and output size to a path and a transform.
//!
//! The order of one frame, exactly as the renderer consumes it: read the
//! parameter state, sample the curve, build the smooth path, compute the
//! viewport transform for the current output size. Everything here is pure;
//! the unverified shell only strokes the returned path through the returned
//! transform. A degenerate output surface skips the frame (the error is
//! recoverable: the next frame recomputes everything from scratch).

use vstd::prelude::*;

verus! {

use crate::canvas::{WORK_HEIGHT, WORK_WIDTH};
use crate::params::State;
use crate::path::{PATH_COORD_LIMIT_FX, SmoothPath, build_path, segments_spec, start_spec};
use crate::sampler::{COORD_LIMIT_FX, pair_bounded, sample_curve, samples_spec};
use crate::viewport::{
    SurfaceSize,
    ViewportError,
    ViewportTransform,
    calc_projection,
    offset_x_spec,
    offset_y_spec,
    ratio_spec,
};

/// The logical canvas as a surface size.
pub open spec fn work_size_spec() -> SurfaceSize {
    SurfaceSize { width: WORK_WIDTH, height: WORK_HEIGHT }
}

/// Everything the rendering backend needs for one frame.
#[derive(Clone, Debug, PartialEq)]
pub struct Frame {
    pub path: SmoothPath,
    pub transform: ViewportTransform,
}

/// Compose one frame from the current state and the current output size.
/// Fails exactly when the output surface is degenerate; otherwise the path
/// is the smooth path of this frame's samples and the transform letterboxes
/// the logical canvas into the output.
pub fn compose_frame(state: &State, out: SurfaceSize) -> (r: Result<Frame, ViewportError>)
    requires
        state.wf(),
    ensures
        r is Err <==> (out.width <= 0 || out.height <= 0),
        r is Err ==> r->Err_0 == ViewportError::DegenerateViewport,
        r is Ok ==> r->Ok_0.path.segments@ == segments_spec(
            samples_spec(state.params, state.clock.elapsed as int),
        ),
        r is Ok ==> r->Ok_0.path.start == start_spec(
            samples_spec(state.params, state.clock.elapsed as int),
        ),
        r is Ok ==> r->Ok_0.transform.ratio == ratio_spec(out, work_size_spec()),
        r is Ok ==> r->Ok_0.transform.offset_x == offset_x_spec(out, work_size_spec()),
        r is Ok ==> r->Ok_0.transform.offset_y == offset_y_spec(out, work_size_spec()),
{
    let work = SurfaceSize { width: WORK_WIDTH, height: WORK_HEIGHT };
    let transform = match calc_projection(out, work) {
        Ok(t) => t,
        Err(e) => {
            return Err(e);
        },
    };
    let samples = sample_curve(&state.params, state.clock.elapsed);
    proof {
        assert forall|j: int| 0 <= j < samples@.len() implies pair_bounded(
            #[trigger] samples@[j],
            PATH_COORD_LIMIT_FX as int,
        ) by {
            assert(pair_bounded(samples@[j], COORD_LIMIT_FX as int));
        }
    }
    let path = build_path(&samples);
    Ok(Frame { path, transform })
}

} // verus!
