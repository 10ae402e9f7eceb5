use lissajous::canvas::{CENTER_X_FX, CENTER_Y_FX};
use lissajous::fixed::SCALE;
use lissajous::params::{AnimationClock, CurveParameters, ParameterUpdate, State};
use lissajous::path::build_path;
use lissajous::sampler::{sample_curve, SamplePair, SamplePoint};
use lissajous::trig::{sin_fx, HALF_PI_FX, PI_FX, TWO_PI_FX};
use lissajous::viewport::{calc_projection, SurfaceSize, ViewportError};
use lissajous::frame::compose_frame;

fn default_params() -> CurveParameters {
    CurveParameters::default()
}

fn work() -> SurfaceSize {
    SurfaceSize { width: 1920, height: 1080 }
}

#[test]
fn sampler_returns_detail_pairs() {
    let p = default_params();
    let samples = sample_curve(&p, 0);
    assert_eq!(samples.len(), 500);
}

#[test]
fn sampler_chain_is_continuous() {
    let p = default_params();
    let samples = sample_curve(&p, 123_456_789);
    for i in 0..samples.len() - 1 {
        assert_eq!(samples[i].next, samples[i + 1].point);
    }
}

#[test]
fn detail_zero_yields_empty_sequence_and_empty_path() {
    let mut p = default_params();
    p.detail = 0;
    let samples = sample_curve(&p, 0);
    assert!(samples.is_empty());
    let path = build_path(&samples);
    assert!(path.start.is_none());
    assert!(path.segments.is_empty());
}

#[test]
fn sampler_is_deterministic() {
    let p = default_params();
    let a = sample_curve(&p, 77_000_000);
    let b = sample_curve(&p, 77_000_000);
    assert_eq!(a, b);
}

#[test]
fn projector_identity_output() {
    let out = SurfaceSize { width: 1920, height: 1080 };
    let t = calc_projection(out, work()).unwrap();
    assert_eq!(t.ratio, SCALE);
    assert_eq!(t.offset_x, 0);
    assert_eq!(t.offset_y, 0);
}

#[test]
fn projector_half_width_letterboxes_vertically() {
    let out = SurfaceSize { width: 960, height: 1080 };
    let t = calc_projection(out, work()).unwrap();
    assert_eq!(t.ratio, SCALE / 2);
    assert_eq!(t.offset_x, 0);
    // 1080 - 1080 * 0.5 = 540 surplus pixels, split evenly top and bottom.
    assert_eq!(t.offset_y, 270 * SCALE);
    assert!(t.offset_y > 0);
    let scaled_height = 1080 * t.ratio;
    assert_eq!(2 * t.offset_y + scaled_height, 1080 * SCALE);
}

#[test]
fn projector_recomputes_identically() {
    let out = SurfaceSize { width: 1237, height: 911 };
    assert_eq!(calc_projection(out, work()), calc_projection(out, work()));
}

#[test]
fn projector_rejects_zero_width() {
    let out = SurfaceSize { width: 0, height: 1080 };
    assert_eq!(calc_projection(out, work()), Err(ViewportError::DegenerateViewport));
}

#[test]
fn projector_rejects_negative_height() {
    let out = SurfaceSize { width: 1920, height: -1 };
    assert_eq!(calc_projection(out, work()), Err(ViewportError::DegenerateViewport));
}

#[test]
fn control_point_is_two_thirds_toward_next() {
    let pair = SamplePair {
        point: SamplePoint { x: 3 * SCALE, y: 9 * SCALE },
        next: SamplePoint { x: 6 * SCALE, y: 3 * SCALE },
    };
    let path = build_path(&vec![pair]);
    // (3 + 2*6) / 3 = 5 and (9 + 2*3) / 3 = 5, exactly.
    assert_eq!(path.segments[0].control, SamplePoint { x: 5 * SCALE, y: 5 * SCALE });
    assert_eq!(path.segments[0].end, pair.next);
    assert_eq!(path.start, Some(pair.point));
}

#[test]
fn control_point_law_within_tolerance_on_awkward_values() {
    // Coordinates that do not divide evenly by three: the fixed-point result
    // must still match (x + 2*nx) / 3 to within one millionth of a unit.
    let pair = SamplePair {
        point: SamplePoint { x: 1_234_567, y: -7_654_321 },
        next: SamplePoint { x: 9_999_991, y: 8_888_887 },
    };
    let path = build_path(&vec![pair]);
    let c = path.segments[0].control;
    assert!((3 * c.x - (pair.point.x + 2 * pair.next.x)).abs() < 3);
    assert!((3 * c.y - (pair.point.y + 2 * pair.next.y)).abs() < 3);
}

#[test]
fn end_to_end_single_sample() {
    // amplitudes 610/580, frequencies 52/51, no phase, time zero, detail 1:
    // the first point is exactly the canvas center (sin(0) == 0), the second
    // is amplitude * sin(one degree's angle) + center on each axis.
    let mut p = default_params();
    p.detail = 1;
    let samples = sample_curve(&p, 0);
    assert_eq!(samples.len(), 1);
    assert_eq!(samples[0].point, SamplePoint { x: CENTER_X_FX, y: CENTER_Y_FX });

    let expected_x = 610.0 * (52.0_f64).to_radians().sin() + 960.0;
    let expected_y = 580.0 * (51.0_f64).to_radians().sin() + 540.0;
    let got_x = samples[0].next.x as f64 / SCALE as f64;
    let got_y = samples[0].next.y as f64 / SCALE as f64;
    assert!((got_x - expected_x).abs() < 0.05, "x: {got_x} vs {expected_x}");
    assert!((got_y - expected_y).abs() < 0.05, "y: {got_y} vs {expected_y}");
}

#[test]
fn sine_matches_reference_within_tolerance() {
    // The fixed-point sine against the floating-point reference, across
    // several turns in both directions.
    let mut a: i64 = -20_000_000;
    while a <= 20_000_000 {
        let got = sin_fx(a) as f64 / SCALE as f64;
        let want = (a as f64 / SCALE as f64).sin();
        assert!((got - want).abs() < 5e-4, "angle {a}: {got} vs {want}");
        a += 137_101;
    }
}

#[test]
fn sine_fixed_points() {
    assert_eq!(sin_fx(0), 0);
    assert!((sin_fx(HALF_PI_FX) - SCALE).abs() < 500);
    assert!(sin_fx(PI_FX).abs() < 500);
    assert!((sin_fx(-HALF_PI_FX) + SCALE).abs() < 500);
    // Reduction is exact, so a full turn changes nothing at all.
    assert_eq!(sin_fx(1_234_567), sin_fx(1_234_567 + TWO_PI_FX));
    assert_eq!(sin_fx(-987_654), sin_fx(-987_654 + TWO_PI_FX));
}

#[test]
fn default_state_matches_startup_values() {
    let s = State::default();
    assert_eq!(s.params.amplitude_x, 610 * SCALE);
    assert_eq!(s.params.amplitude_y, 580 * SCALE);
    assert_eq!(s.params.frequency_x, 52 * SCALE);
    assert_eq!(s.params.frequency_y, 51 * SCALE);
    assert_eq!(s.params.phase_x, 0);
    assert_eq!(s.params.phase_y, 0);
    assert_eq!(s.params.detail, 500);
    assert_eq!(s.clock.elapsed, 0);
    assert_eq!(s.clock, AnimationClock::default());
}

#[test]
fn clamped_parameters_stay_in_control_ranges() {
    let p = CurveParameters::clamped(
        -5 * SCALE,          // below range: amplitude clamps to 0
        1_500 * SCALE,       // above range: amplitude clamps to 1000
        42 * SCALE,          // in range: kept
        101 * SCALE,         // above range: frequency clamps to 100
        -1,                  // below range: phase clamps to 0
        100 * SCALE,         // at the edge: kept
        -3,                  // negative detail clamps to 0
    );
    assert_eq!(p.amplitude_x, 0);
    assert_eq!(p.amplitude_y, 1_000 * SCALE);
    assert_eq!(p.frequency_x, 42 * SCALE);
    assert_eq!(p.frequency_y, 100 * SCALE);
    assert_eq!(p.phase_x, 0);
    assert_eq!(p.phase_y, 100 * SCALE);
    assert_eq!(p.detail, 0);

    let q = CurveParameters::clamped(0, 0, 0, 0, 0, 0, 9_000);
    assert_eq!(q.detail, 5_000);
}

#[test]
fn updates_apply_clamped_and_touch_one_field() {
    let mut s = State::default();
    s.apply_update(ParameterUpdate::AmplitudeX(2_000 * SCALE));
    assert_eq!(s.params.amplitude_x, 1_000 * SCALE);
    assert_eq!(s.params.amplitude_y, 580 * SCALE);
    assert_eq!(s.params.detail, 500);
    s.apply_update(ParameterUpdate::Detail(-7));
    assert_eq!(s.params.detail, 0);
    assert_eq!(s.params.amplitude_x, 1_000 * SCALE);
    s.apply_update(ParameterUpdate::FrequencyY(7 * SCALE));
    assert_eq!(s.params.frequency_y, 7 * SCALE);
    assert_eq!(s.params.frequency_x, 52 * SCALE);
    assert_eq!(s.clock.elapsed, 0);
}

#[test]
fn clock_advances_without_touching_parameters() {
    let mut s = State::default();
    s.set_elapsed(5 * SCALE);
    assert_eq!(s.clock.elapsed, 5 * SCALE);
    s.set_elapsed(7 * SCALE);
    assert_eq!(s.clock.elapsed, 7 * SCALE);
    assert_eq!(s.params, CurveParameters::default());
}

#[test]
fn compose_frame_produces_path_and_transform() {
    let s = State::default();
    let out = SurfaceSize { width: 1920, height: 1080 };
    let f = compose_frame(&s, out).unwrap();
    assert_eq!(f.path.segments.len(), 500);
    assert_eq!(f.transform.ratio, SCALE);
    assert_eq!(f.transform.offset_x, 0);
    assert_eq!(f.transform.offset_y, 0);
    let samples = sample_curve(&s.params, 0);
    assert_eq!(f.path.start, Some(samples[0].point));
}

#[test]
fn compose_frame_skips_degenerate_output() {
    let s = State::default();
    let out = SurfaceSize { width: 0, height: 0 };
    assert_eq!(compose_frame(&s, out), Err(ViewportError::DegenerateViewport));
}

#[test]
fn path_segments_follow_sampler_output() {
    let p = default_params();
    let samples = sample_curve(&p, 9_876_543);
    let path = build_path(&samples);
    assert_eq!(path.segments.len(), samples.len());
    for i in 0..samples.len() {
        assert_eq!(path.segments[i].end, samples[i].next);
    }
    // The path is unbroken: each segment ends where the next pair begins.
    for i in 0..samples.len() - 1 {
        assert_eq!(path.segments[i].end, samples[i + 1].point);
    }
}
