//! Parameter state: the curve parameters and the animation clock.
//!
//! All scalar fields are fixed-point (millionths, see [`crate::fixed::SCALE`]).
//! The control surface edits parameters only through [`ParameterUpdate`]
//! values, which the state applies after clamping into the recognized control
//! ranges, so a well-formed state stays well-formed and the sampler's
//! overflow bounds always hold.

use vstd::prelude::*;

verus! {

use crate::fixed::{SCALE, clamp_spec, clamp_i64};

/// Largest amplitude the control surface offers (1000 units).
pub const AMPLITUDE_LIMIT_FX: i64 = 1_000_000_000;

/// Largest frequency the control surface offers (100 units).
pub const FREQUENCY_LIMIT_FX: i64 = 100_000_000;

/// Largest phase shift the control surface offers (100 radians).
pub const PHASE_LIMIT_FX: i64 = 100_000_000;

/// Largest sample count the control surface offers.
pub const DETAIL_LIMIT: u32 = 5000;

/// Largest clock value the pipeline accepts (a billion seconds).
pub const TIME_LIMIT_FX: i64 = 1_000_000_000_000_000;

/// The parameters of one sum-of-sines curve, immutable during a frame.
///
/// Negative amplitudes, frequencies and phases are tolerated (the curve is
/// merely mirrored), but magnitudes stay within the control-surface ranges.
#[derive(Clone, Copy, Debug, PartialEq, Eq, Structural)]
pub struct CurveParameters {
    pub amplitude_x: i64,
    pub amplitude_y: i64,
    pub frequency_x: i64,
    pub frequency_y: i64,
    pub phase_x: i64,
    pub phase_y: i64,
    /// Number of samples drawn per frame; zero means an empty curve.
    pub detail: u32,
}

impl CurveParameters {
    /// Magnitude bounds on every field; everything the sampler requires.
    pub open spec fn wf(self) -> bool {
        &&& -AMPLITUDE_LIMIT_FX <= self.amplitude_x <= AMPLITUDE_LIMIT_FX
        &&& -AMPLITUDE_LIMIT_FX <= self.amplitude_y <= AMPLITUDE_LIMIT_FX
        &&& -FREQUENCY_LIMIT_FX <= self.frequency_x <= FREQUENCY_LIMIT_FX
        &&& -FREQUENCY_LIMIT_FX <= self.frequency_y <= FREQUENCY_LIMIT_FX
        &&& -PHASE_LIMIT_FX <= self.phase_x <= PHASE_LIMIT_FX
        &&& -PHASE_LIMIT_FX <= self.phase_y <= PHASE_LIMIT_FX
        &&& self.detail <= DETAIL_LIMIT
    }

    /// Build parameters from untrusted scalars by clamping each one into the
    /// recognized control range (amplitudes to [0, 1000], frequencies and
    /// phases to [0, 100], detail to [0, 5000]).
    pub fn clamped(
        amplitude_x: i64,
        amplitude_y: i64,
        frequency_x: i64,
        frequency_y: i64,
        phase_x: i64,
        phase_y: i64,
        detail: i64,
    ) -> (p: CurveParameters)
        ensures
            p.amplitude_x == clamp_spec(amplitude_x as int, 0, AMPLITUDE_LIMIT_FX as int),
            p.amplitude_y == clamp_spec(amplitude_y as int, 0, AMPLITUDE_LIMIT_FX as int),
            p.frequency_x == clamp_spec(frequency_x as int, 0, FREQUENCY_LIMIT_FX as int),
            p.frequency_y == clamp_spec(frequency_y as int, 0, FREQUENCY_LIMIT_FX as int),
            p.phase_x == clamp_spec(phase_x as int, 0, PHASE_LIMIT_FX as int),
            p.phase_y == clamp_spec(phase_y as int, 0, PHASE_LIMIT_FX as int),
            p.detail == clamp_spec(detail as int, 0, DETAIL_LIMIT as int),
            p.wf(),
    {
        CurveParameters {
            amplitude_x: clamp_i64(amplitude_x, 0, AMPLITUDE_LIMIT_FX),
            amplitude_y: clamp_i64(amplitude_y, 0, AMPLITUDE_LIMIT_FX),
            frequency_x: clamp_i64(frequency_x, 0, FREQUENCY_LIMIT_FX),
            frequency_y: clamp_i64(frequency_y, 0, FREQUENCY_LIMIT_FX),
            phase_x: clamp_i64(phase_x, 0, PHASE_LIMIT_FX),
            phase_y: clamp_i64(phase_y, 0, PHASE_LIMIT_FX),
            detail: clamp_i64(detail, 0, DETAIL_LIMIT as i64) as u32,
        }
    }
}

impl Default for CurveParameters {
    /// The startup curve: amplitudes 610 and 580 units, frequencies 52 and
    /// 51 units, no phase shift, 500 samples.
    fn default() -> (p: CurveParameters)
        ensures
            p.amplitude_x == 610 * SCALE,
            p.amplitude_y == 580 * SCALE,
            p.frequency_x == 52 * SCALE,
            p.frequency_y == 51 * SCALE,
            p.phase_x == 0,
            p.phase_y == 0,
            p.detail == 500,
            p.wf(),
    {
        CurveParameters {
            amplitude_x: 610_000_000,
            amplitude_y: 580_000_000,
            frequency_x: 52_000_000,
            frequency_y: 51_000_000,
            phase_x: 0,
            phase_y: 0,
            detail: 500,
        }
    }
}

/// The elapsed-time value the external timing source advances once per frame.
#[derive(Clone, Copy, Debug, PartialEq, Eq, Structural)]
pub struct AnimationClock {
    /// Elapsed time in fixed-point seconds; never decreases.
    pub elapsed: i64,
}

impl AnimationClock {
    /// The clock never runs backward and stays representable.
    pub open spec fn wf(self) -> bool {
        0 <= self.elapsed <= TIME_LIMIT_FX
    }

    /// Advance the clock to a new elapsed-time reading; the timing source
    /// only ever moves it forward.
    pub fn advance(&mut self, elapsed: i64)
        requires
            old(self).wf(),
            old(self).elapsed <= elapsed <= TIME_LIMIT_FX,
        ensures
            final(self).elapsed == elapsed,
            final(self).wf(),
    {
        self.elapsed = elapsed;
    }
}

impl Default for AnimationClock {
    /// A clock that has not yet ticked.
    fn default() -> (c: AnimationClock)
        ensures
            c.elapsed == 0,
            c.wf(),
    {
        AnimationClock { elapsed: 0 }
    }
}

/// One edit coming back from the control surface: which parameter changed
/// and its requested new value (clamping happens on application).
#[derive(Clone, Copy, Debug, PartialEq, Eq, Structural)]
pub enum ParameterUpdate {
    AmplitudeX(i64),
    AmplitudeY(i64),
    FrequencyX(i64),
    FrequencyY(i64),
    PhaseX(i64),
    PhaseY(i64),
    Detail(i64),
}

/// The parameters after one update is applied: the named field takes the
/// requested value clamped into its control range, every other field keeps
/// its value.
pub open spec fn apply_update_spec(p: CurveParameters, u: ParameterUpdate) -> CurveParameters {
    match u {
        ParameterUpdate::AmplitudeX(v) => CurveParameters {
            amplitude_x: clamp_spec(v as int, 0, AMPLITUDE_LIMIT_FX as int) as i64,
            ..p
        },
        ParameterUpdate::AmplitudeY(v) => CurveParameters {
            amplitude_y: clamp_spec(v as int, 0, AMPLITUDE_LIMIT_FX as int) as i64,
            ..p
        },
        ParameterUpdate::FrequencyX(v) => CurveParameters {
            frequency_x: clamp_spec(v as int, 0, FREQUENCY_LIMIT_FX as int) as i64,
            ..p
        },
        ParameterUpdate::FrequencyY(v) => CurveParameters {
            frequency_y: clamp_spec(v as int, 0, FREQUENCY_LIMIT_FX as int) as i64,
            ..p
        },
        ParameterUpdate::PhaseX(v) => CurveParameters {
            phase_x: clamp_spec(v as int, 0, PHASE_LIMIT_FX as int) as i64,
            ..p
        },
        ParameterUpdate::PhaseY(v) => CurveParameters {
            phase_y: clamp_spec(v as int, 0, PHASE_LIMIT_FX as int) as i64,
            ..p
        },
        ParameterUpdate::Detail(v) => CurveParameters {
            detail: clamp_spec(v as int, 0, DETAIL_LIMIT as int) as u32,
            ..p
        },
    }
}

/// Everything the per-frame pipeline reads: the current curve parameters and
/// the animation clock. Owned by the orchestration layer; the control surface
/// and the timing source mutate it only through the methods here.
#[derive(Clone, Copy, Debug, PartialEq, Eq, Structural)]
pub struct State {
    pub params: CurveParameters,
    pub clock: AnimationClock,
}

impl State {
    /// Parameters and clock are both well-formed.
    pub open spec fn wf(self) -> bool {
        self.params.wf() && self.clock.wf()
    }

    /// Apply one control-surface edit; only the named parameter changes.
    pub fn apply_update(&mut self, u: ParameterUpdate)
        requires
            old(self).wf(),
        ensures
            final(self).params == apply_update_spec(old(self).params, u),
            final(self).clock == old(self).clock,
            final(self).wf(),
    {
        match u {
            ParameterUpdate::AmplitudeX(v) => {
                self.params.amplitude_x = clamp_i64(v, 0, AMPLITUDE_LIMIT_FX);
            },
            ParameterUpdate::AmplitudeY(v) => {
                self.params.amplitude_y = clamp_i64(v, 0, AMPLITUDE_LIMIT_FX);
            },
            ParameterUpdate::FrequencyX(v) => {
                self.params.frequency_x = clamp_i64(v, 0, FREQUENCY_LIMIT_FX);
            },
            ParameterUpdate::FrequencyY(v) => {
                self.params.frequency_y = clamp_i64(v, 0, FREQUENCY_LIMIT_FX);
            },
            ParameterUpdate::PhaseX(v) => {
                self.params.phase_x = clamp_i64(v, 0, PHASE_LIMIT_FX);
            },
            ParameterUpdate::PhaseY(v) => {
                self.params.phase_y = clamp_i64(v, 0, PHASE_LIMIT_FX);
            },
            ParameterUpdate::Detail(v) => {
                self.params.detail = clamp_i64(v, 0, DETAIL_LIMIT as i64) as u32;
            },
        }
    }

    /// Record the timing source's new elapsed-time reading.
    pub fn set_elapsed(&mut self, elapsed: i64)
        requires
            old(self).wf(),
            old(self).clock.elapsed <= elapsed <= TIME_LIMIT_FX,
        ensures
            final(self).clock.elapsed == elapsed,
            final(self).params == old(self).params,
            final(self).wf(),
    {
        self.clock.advance(elapsed);
    }
}

impl Default for State {
    /// The startup state: default parameters and a clock at zero.
    fn default() -> (s: State)
        ensures
            s.params.amplitude_x == 610 * SCALE,
            s.params.amplitude_y == 580 * SCALE,
            s.params.frequency_x == 52 * SCALE,
            s.params.frequency_y == 51 * SCALE,
            s.params.phase_x == 0,
            s.params.phase_y == 0,
            s.params.detail == 500,
            s.clock.elapsed == 0,
            s.wf(),
    {
        State { params: CurveParameters::default(), clock: AnimationClock::default() }
    }
}

} // verus!
