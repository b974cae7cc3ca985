use tween::{ColorRgba, Interpolation, Key, Spline, Timer, Translation, Tween, TweenValue, ValueAlgebra};

fn tr(x: i64, y: i64, z: i64) -> Translation {
    Translation { x, y, z }
}

#[test]
fn start_midpoint_finish() {
    // start(Translation(-300,-300,0), Translation(300,300,0), 500ms);
    // tick 250ms -> midpoint; tick another 250ms -> end, finished.
    let mut tween: Tween<Translation> = Tween::default();
    tween.run(tr(-300, -300, 0), tr(300, 300, 0), 500);

    let (v, finished) = tween.advance_and_sample(250).unwrap();
    assert_eq!(v, tr(0, 0, 0));
    assert!(!finished);

    let (v, finished) = tween.advance_and_sample(250).unwrap();
    assert_eq!(v, tr(300, 300, 0));
    assert!(finished);
}

#[test]
fn color_sub_clamps_negative_channels() {
    // (0.2, 0.2, 0.2, 1.0) - (0.5, 0.1, 0.0, 0.0) = (0.0, 0.1, 0.2, 1.0)
    // in thousandths of a channel unit.
    let a = TweenValue(ColorRgba { r: 200, g: 200, b: 200, a: 1000 });
    let b = TweenValue(ColorRgba { r: 500, g: 100, b: 0, a: 0 });
    let d = a.sub(b);
    assert_eq!(d.0, ColorRgba { r: 0, g: 100, b: 200, a: 1000 });
}

#[test]
fn endpoints_of_a_fresh_tween() {
    let mut tween: Tween<Translation> = Tween::default();
    tween.run(tr(-7, 40, 3), tr(21, -5, 9), 1000);

    // Sampling with nothing elapsed yields the start value.
    let (v, finished) = tween.advance_and_sample(0).unwrap();
    assert_eq!(v, tr(-7, 40, 3));
    assert!(!finished);

    // Sampling at the full duration yields the end value.
    let (v, finished) = tween.advance_and_sample(1000).unwrap();
    assert_eq!(v, tr(21, -5, 9));
    assert!(finished);
}

#[test]
fn finished_exactly_when_cumulative_elapsed_reaches_duration() {
    let mut tween: Tween<Translation> = Tween::default();
    tween.run(tr(0, 0, 0), tr(100, 0, 0), 100);

    let (_, finished) = tween.advance_and_sample(30).unwrap();
    assert!(!finished);
    let (_, finished) = tween.advance_and_sample(30).unwrap();
    assert!(!finished);
    let (_, finished) = tween.advance_and_sample(30).unwrap();
    assert!(!finished);
    // Cumulative 120ms >= 100ms: now, and only now, finished.
    let (v, finished) = tween.advance_and_sample(30).unwrap();
    assert!(finished);
    assert_eq!(v, tr(100, 0, 0));
}

#[test]
fn retarget_does_not_jump() {
    let mut tween: Tween<Translation> = Tween::default();
    tween.run(tr(0, 0, 0), tr(1000, 0, 0), 1000);

    let (before, _) = tween.advance_and_sample(250).unwrap();
    tween.retarget(tr(-400, 800, 0));
    // No time has passed between the two samples.
    let (after, _) = tween.advance_and_sample(0).unwrap();
    assert_eq!(before, after);

    // The tween now heads for the new target over the remaining span.
    assert_eq!(tween.target(), Some(tr(-400, 800, 0)));
    let (v, finished) = tween.advance_and_sample(750).unwrap();
    assert_eq!(v, tr(-400, 800, 0));
    assert!(finished);
}

#[test]
fn noop_retarget_keeps_the_trajectory() {
    let mut plain: Tween<Translation> = Tween::default();
    let mut redundant: Tween<Translation> = Tween::default();
    plain.run(tr(0, 0, 0), tr(600, -600, 60), 600);
    redundant.run(tr(0, 0, 0), tr(600, -600, 60), 600);

    let (va, _) = plain.advance_and_sample(123).unwrap();
    let (wa, _) = redundant.advance_and_sample(123).unwrap();
    assert_eq!(va, wa);

    let current_target = redundant.target().unwrap();
    redundant.retarget(current_target);

    let (vb, plain_done) = plain.advance_and_sample(200).unwrap();
    let (wb, redundant_done) = redundant.advance_and_sample(200).unwrap();
    assert_eq!(vb, wb);
    assert_eq!(plain_done, redundant_done);
    let (vc, plain_done) = plain.advance_and_sample(400).unwrap();
    let (wc, redundant_done) = redundant.advance_and_sample(400).unwrap();
    assert_eq!(vc, wc);
    assert_eq!(plain_done, redundant_done);
    assert!(plain_done && redundant_done);
}

#[test]
fn zero_duration_completes_immediately() {
    let mut tween: Tween<Translation> = Tween::default();
    tween.run(tr(1, 2, 3), tr(9, 8, 7), 0);
    let (v, finished) = tween.advance_and_sample(0).unwrap();
    assert_eq!(v, tr(9, 8, 7));
    assert!(finished);

    let mut tween: Tween<Translation> = Tween::default();
    tween.run(tr(1, 2, 3), tr(9, 8, 7), 0);
    let (v, finished) = tween.advance_and_sample(16).unwrap();
    assert_eq!(v, tr(9, 8, 7));
    assert!(finished);
}

#[test]
fn retarget_when_already_finished_completes_at_new_target() {
    let mut tween: Tween<Translation> = Tween::default();
    tween.run(tr(0, 0, 0), tr(50, 0, 0), 100);
    let (_, finished) = tween.advance_and_sample(100).unwrap();
    assert!(finished);

    tween.retarget(tr(-10, -10, -10));
    let (v, finished) = tween.advance_and_sample(0).unwrap();
    assert_eq!(v, tr(-10, -10, -10));
    assert!(finished);
}

#[test]
fn target_reports_the_end_value() {
    let mut tween: Tween<Translation> = Tween::default();
    assert_eq!(tween.target(), None);
    tween.run(tr(0, 0, 0), tr(12, 34, 56), 500);
    assert_eq!(tween.target(), Some(tr(12, 34, 56)));
    tween.retarget(tr(-1, -2, -3));
    assert_eq!(tween.target(), Some(tr(-1, -2, -3)));
}

#[test]
fn tween_system_writes_the_object_and_removes_on_completion() {
    let mut tween: Tween<Translation> = Tween::default();
    tween.run(tr(0, 0, 0), tr(100, 100, 0), 100);
    let mut object = tr(0, 0, 0);

    tween::tween_system(&mut tween, &mut object, 50);
    assert_eq!(object, tr(50, 50, 0));

    tween::tween_system(&mut tween, &mut object, 50);
    assert_eq!(object, tr(100, 100, 0));

    // The trajectory was removed on the frame that finished: a further
    // frame leaves the object untouched.
    object = tr(-1, -1, -1);
    tween::tween_system(&mut tween, &mut object, 50);
    assert_eq!(object, tr(-1, -1, -1));
    assert_eq!(tween.target(), None);
}

#[test]
fn tween_to_starts_active() {
    let mut tween = Tween::tween_to(tr(2, 0, 0), tr(10, 0, 0), 8);
    assert_eq!(tween.target(), Some(tr(10, 0, 0)));
    let (v, finished) = tween.advance_and_sample(4).unwrap();
    assert_eq!(v, tr(6, 0, 0));
    assert!(!finished);
}

#[test]
fn color_tween_interpolates_channels() {
    let mut tween: Tween<ColorRgba> = Tween::default();
    let black = ColorRgba { r: 0, g: 0, b: 0, a: 1000 };
    let white = ColorRgba { r: 1000, g: 1000, b: 1000, a: 1000 };
    tween.run(black, white, 1000);
    let (v, _) = tween.advance_and_sample(250).unwrap();
    assert_eq!(v, ColorRgba { r: 250, g: 250, b: 250, a: 1000 });
    let (v, finished) = tween.advance_and_sample(750).unwrap();
    assert_eq!(v, white);
    assert!(finished);
}

#[test]
fn timer_saturates_and_reports_progress() {
    let mut t = Timer::new(100);
    assert!(!t.finished);
    t.tick(60);
    assert_eq!(t.elapsed, 60);
    assert!(!t.finished);
    assert_eq!(t.progress(), (60, 100));
    t.tick(60);
    assert_eq!(t.elapsed, 100);
    assert!(t.finished);

    let z = Timer::new(0);
    assert!(z.finished);
    assert_eq!(z.progress(), (1, 1));
}

#[test]
fn scalar_multiply_truncates_toward_zero() {
    let v = TweenValue(Translation { x: 10, y: -10, z: 5 });
    let half = v.outer_mul(1, 2);
    assert_eq!(half.0, Translation { x: 5, y: -5, z: 2 });
    let halved = v.outer_div(2, 1);
    assert_eq!(halved.0, Translation { x: 5, y: -5, z: 2 });
}

#[test]
fn algebra_add_sub_translation() {
    let a = TweenValue(Translation { x: 1, y: 2, z: 3 });
    let b = TweenValue(Translation { x: 10, y: -20, z: 30 });
    assert_eq!(a.add(b).0, Translation { x: 11, y: -18, z: 33 });
    assert_eq!(a.sub(b).0, Translation { x: -9, y: 22, z: -27 });
}

#[test]
fn spline_rejects_invalid_key_vectors() {
    let lone = vec![Key::new(0, TweenValue(tr(0, 0, 0)), Interpolation::Linear)];
    assert!(Spline::from_vec(lone).is_none());

    let unsorted = vec![
        Key::new(10, TweenValue(tr(0, 0, 0)), Interpolation::Linear),
        Key::new(5, TweenValue(tr(1, 1, 1)), Interpolation::Linear),
    ];
    assert!(Spline::from_vec(unsorted).is_none());

    let out_of_range = vec![
        Key::new(0, TweenValue(ColorRgba { r: 2000, g: 0, b: 0, a: 0 }), Interpolation::Linear),
        Key::new(10, TweenValue(ColorRgba { r: 0, g: 0, b: 0, a: 0 }), Interpolation::Linear),
    ];
    assert!(Spline::from_vec(out_of_range).is_none());
}

#[test]
fn spline_clamps_queries_outside_the_domain() {
    let keys = vec![
        Key::new(100, TweenValue(tr(-5, 0, 0)), Interpolation::Linear),
        Key::new(200, TweenValue(tr(5, 0, 0)), Interpolation::Linear),
    ];
    let spline = Spline::from_vec(keys).unwrap();
    assert_eq!(spline.clamped_sample(0).0, tr(-5, 0, 0));
    assert_eq!(spline.clamped_sample(100).0, tr(-5, 0, 0));
    assert_eq!(spline.clamped_sample(150).0, tr(0, 0, 0));
    assert_eq!(spline.clamped_sample(200).0, tr(5, 0, 0));
    assert_eq!(spline.clamped_sample(999).0, tr(5, 0, 0));
}

#[test]
fn quadratic_bezier_segment() {
    let keys = vec![
        Key::new(
            0,
            TweenValue(tr(0, 0, 0)),
            Interpolation::QuadraticBezier(TweenValue(tr(1000, 0, 0))),
        ),
        Key::new(1000, TweenValue(tr(0, 0, 0)), Interpolation::Linear),
    ];
    let spline = Spline::from_vec(keys).unwrap();
    // Bernstein blend at the segment midpoint: 2 * 0.5 * 0.5 * 1000 = 500.
    assert_eq!(spline.clamped_sample(500).0, tr(500, 0, 0));
}

#[test]
fn cubic_bezier_segment() {
    let keys = vec![
        Key::new(
            0,
            TweenValue(tr(0, 0, 0)),
            Interpolation::CubicBezier(TweenValue(tr(300, 0, 0)), TweenValue(tr(600, 0, 0))),
        ),
        Key::new(1000, TweenValue(tr(900, 0, 0)), Interpolation::Linear),
    ];
    let spline = Spline::from_vec(keys).unwrap();
    // (1/8)*0 + 3*(1/8)*300 + 3*(1/8)*600 + (1/8)*900 = 450 at the midpoint.
    assert_eq!(spline.clamped_sample(500).0, tr(450, 0, 0));
}

#[test]
fn step_segment_holds_its_value() {
    let keys = vec![
        Key::new(0, TweenValue(tr(7, 0, 0)), Interpolation::Step),
        Key::new(100, TweenValue(tr(50, 0, 0)), Interpolation::Linear),
    ];
    let spline = Spline::from_vec(keys).unwrap();
    assert_eq!(spline.clamped_sample(0).0, tr(7, 0, 0));
    assert_eq!(spline.clamped_sample(99).0, tr(7, 0, 0));
    assert_eq!(spline.clamped_sample(100).0, tr(50, 0, 0));
}

#[test]
fn eq_value_matches_structural_equality() {
    let a = TweenValue(tr(1, 2, 3));
    let b = TweenValue(tr(1, 2, 3));
    let c = TweenValue(tr(1, 2, 4));
    assert!(a.eq_value(b));
    assert!(!a.eq_value(c));
    assert!(TweenValue(ColorRgba { r: 1, g: 2, b: 3, a: 4 })
        .eq_value(TweenValue(ColorRgba { r: 1, g: 2, b: 3, a: 4 })));
}
