use moving_heads::fixture::{Angles, MovingHead, MovingHeadChannel};
use moving_heads::geometry::{solve, Offset, SolveError, Vector3};
use moving_heads::target::{ConfigurationError, Target};
use moving_heads::targeting::{ChannelFrame, ChannelKind, Diagnostic, World};

fn v(x: i64, y: i64, z: i64) -> Vector3 {
    Vector3::new(x, y, z)
}

fn head(position: Vector3, pan_max: i64, tilt_max: i64) -> MovingHead {
    MovingHead::new(
        position,
        MovingHeadChannel::new(1, 0, pan_max),
        MovingHeadChannel::new(2, 0, tilt_max),
    )
}

fn angles_of(d: Offset) -> (f64, f64) {
    let (x, y, z) = (d.x as f64, d.y as f64, d.z as f64);
    let distance = (x * x + y * y + z * z).sqrt();
    let pan = (x / distance).atan2(z / distance).to_degrees();
    let tilt = (y / distance).atan2(distance).to_degrees();
    (pan, tilt)
}

#[test]
fn integrate_clamps_at_room_edge() {
    let mut t = Target::new(v(9, 0, 0), v(10, 10, 10), 1).unwrap();
    assert_eq!(t.integrate(v(1, 0, 0)), v(10, 0, 0));
    assert_eq!(t.integrate(v(1, 0, 0)), v(10, 0, 0));
    assert_eq!(t.position(), v(10, 0, 0));
}

#[test]
fn integrate_scales_by_speed_and_clamps_below_zero() {
    let mut t = Target::new(v(5, 5, 5), v(100, 100, 100), 3).unwrap();
    assert_eq!(t.integrate(v(2, -1, 0)), v(11, 2, 5));
    assert_eq!(t.integrate(v(0, -1, 0)), v(11, 0, 5));
    assert_eq!(t.integrate(v(50, 0, 40)), v(100, 0, 100));
}

#[test]
fn integrate_extreme_samples_stay_in_room() {
    let mut t = Target::new(v(0, 0, 0), v(i64::MAX, 7, 0), i64::MAX).unwrap();
    assert_eq!(t.integrate(v(i64::MAX, i64::MIN, i64::MAX)), v(i64::MAX, 0, 0));
    assert_eq!(t.integrate(v(i64::MIN, i64::MAX, 1)), v(0, 7, 0));
}

#[test]
fn zero_sample_never_moves_target() {
    let mut t = Target::new(v(3, 4, 5), v(10, 10, 10), 7).unwrap();
    for _ in 0..5 {
        assert_eq!(t.integrate(Vector3::zero()), v(3, 4, 5));
    }
    assert_eq!(t.bounds(), v(10, 10, 10));
    assert_eq!(t.speed(), 7);
}

#[test]
fn target_rejects_bad_configuration() {
    assert_eq!(Target::new(v(0, 0, 0), v(-1, 10, 10), 1).err(), Some(ConfigurationError::NegativeRoom));
    assert_eq!(Target::new(v(0, 0, 0), v(10, 10, 10), -1).err(), Some(ConfigurationError::NegativeSpeed));
    assert_eq!(Target::new(v(11, 0, 0), v(10, 10, 10), 1).err(), Some(ConfigurationError::HomeOutsideRoom));
    assert_eq!(Target::new(v(0, -1, 0), v(10, 10, 10), 1).err(), Some(ConfigurationError::HomeOutsideRoom));
    assert!(Target::new(v(10, 10, 10), v(10, 10, 10), 0).is_ok());
}

#[test]
fn solve_straight_ahead() {
    let d = solve(v(0, 0, 0), v(0, 0, 10)).unwrap();
    assert_eq!(d, Offset { x: 0, y: 0, z: 10 });
    let (pan, tilt) = angles_of(d);
    assert!(pan.abs() < 1e-9);
    assert!(tilt.abs() < 1e-9);
}

#[test]
fn solve_diagonal() {
    let d = solve(v(0, 0, 0), v(5, 0, 5)).unwrap();
    assert_eq!(d, Offset { x: 5, y: 0, z: 5 });
    let (pan, tilt) = angles_of(d);
    assert!((pan - 45.0).abs() < 1e-9);
    assert!(tilt.abs() < 1e-9);
}

#[test]
fn solve_from_mounted_fixture() {
    assert_eq!(solve(v(2, 3, 4), v(-1, 3, 10)), Ok(Offset { x: -3, y: 0, z: 6 }));
    assert_eq!(
        solve(v(i64::MIN, 0, 0), v(i64::MAX, 0, 0)),
        Ok(Offset { x: u64::MAX as i128, y: 0, z: 0 })
    );
}

#[test]
fn solve_coincident_points_is_degenerate() {
    for p in [v(0, 0, 0), v(7, -3, 12), v(i64::MAX, i64::MIN, 0)] {
        assert_eq!(solve(p, p), Err(SolveError::DegenerateGeometry));
    }
}

#[test]
fn solve_is_deterministic() {
    let a = solve(v(1, 2, 3), v(4, 6, 8));
    let b = solve(v(1, 2, 3), v(4, 6, 8));
    assert_eq!(a, b);
}

#[test]
fn channel_range_check() {
    assert!(MovingHeadChannel::new(0, 9000, 9000).in_range());
    assert!(MovingHeadChannel::new(0, -9000, 9000).in_range());
    assert!(!MovingHeadChannel::new(0, 9500, 9000).in_range());
    assert!(!MovingHeadChannel::new(0, -9001, 9000).in_range());
    assert!(!MovingHeadChannel::new(0, i64::MIN, i64::MAX).in_range());
}

#[test]
fn point_to_writes_angles() {
    let mut m = head(v(0, 0, 0), 18000, 9000);
    assert_eq!(m.point_to(v(5, 0, 5), Angles { pan: 4500, tilt: 0 }), Ok(()));
    assert_eq!(m.pan.value, 4500);
    assert_eq!(m.tilt.value, 0);
    assert_eq!(m.position, v(0, 0, 0));
    assert_eq!(m.pan.channel, 1);
}

#[test]
fn point_to_keeps_angles_when_degenerate() {
    let mut m = head(v(3, 3, 3), 18000, 9000);
    m.pan.value = 1200;
    m.tilt.value = -300;
    assert_eq!(m.point_to(v(3, 3, 3), Angles { pan: 1, tilt: 2 }), Err(SolveError::DegenerateGeometry));
    assert_eq!(m.pan.value, 1200);
    assert_eq!(m.tilt.value, -300);
}

#[test]
fn tick_reports_out_of_range_pan_and_updates_tilt() {
    let target = Target::new(v(5, 0, 5), v(10, 10, 10), 1).unwrap();
    let mut w = World::new(target, vec![head(v(0, 0, 0), 9000, 9000)]);
    let r = w.run_tick(&vec![Angles { pan: 9500, tilt: 1000 }]);
    assert_eq!(
        r.diagnostics,
        vec![Diagnostic::OutOfRangeChannel { fixture: 0, channel: ChannelKind::Pan }]
    );
    let m = w.fixture(0);
    assert_eq!(m.pan.value, 9500);
    assert_eq!(m.tilt.value, 1000);
    assert_eq!(
        r.frame,
        vec![ChannelFrame { fixture: 0, pan_channel: 1, pan_value: 9500, tilt_channel: 2, tilt_value: 1000 }]
    );
}

#[test]
fn tick_isolates_degenerate_fixture() {
    let target = Target::new(v(4, 4, 4), v(10, 10, 10), 1).unwrap();
    let mut a = head(v(4, 4, 4), 9000, 9000);
    a.pan.value = 700;
    a.tilt.value = 800;
    let b = head(v(0, 0, 0), 9000, 100);
    let mut w = World::new(target, vec![a, b]);
    let r = w.run_tick(&vec![Angles { pan: 1, tilt: 2 }, Angles { pan: 4500, tilt: 3000 }]);
    assert_eq!(
        r.diagnostics,
        vec![
            Diagnostic::DegenerateGeometry { fixture: 0 },
            Diagnostic::OutOfRangeChannel { fixture: 1, channel: ChannelKind::Tilt },
        ]
    );
    assert_eq!(w.fixture(0).pan.value, 700);
    assert_eq!(w.fixture(0).tilt.value, 800);
    assert_eq!(w.fixture(1).pan.value, 4500);
    assert_eq!(w.fixture(1).tilt.value, 3000);
    assert_eq!(r.frame.len(), 2);
    assert_eq!(r.frame[0].pan_value, 700);
    assert_eq!(r.frame[1].tilt_value, 3000);
}

#[test]
fn fixtures_are_independent() {
    let target = Target::new(v(5, 5, 5), v(10, 10, 10), 1).unwrap();
    let shared = head(v(0, 0, 0), 9000, 9000);
    let mut w1 = World::new(target, vec![shared, head(v(1, 1, 1), 9000, 9000)]);
    let target = Target::new(v(5, 5, 5), v(10, 10, 10), 1).unwrap();
    let mut w2 = World::new(target, vec![shared, head(v(9, 2, 7), 10, 20)]);
    let r1 = w1.run_tick(&vec![Angles { pan: 4500, tilt: 100 }, Angles { pan: 1, tilt: 1 }]);
    let r2 = w2.run_tick(&vec![Angles { pan: 4500, tilt: 100 }, Angles { pan: -900, tilt: 50 }]);
    assert_eq!(w1.fixture(0), w2.fixture(0));
    assert_eq!(r1.frame[0], r2.frame[0]);
    assert_eq!(w1.aim_directions()[0], w2.aim_directions()[0]);
}

#[test]
fn tick_twice_gives_same_result() {
    let target = Target::new(v(2, 2, 2), v(10, 10, 10), 1).unwrap();
    let mut w = World::new(target, vec![head(v(0, 0, 0), 9000, 9000)]);
    let angles = vec![Angles { pan: 4500, tilt: 1234 }];
    let r1 = w.run_tick(&angles);
    let first = w.fixture(0);
    let r2 = w.run_tick(&angles);
    assert_eq!(first, w.fixture(0));
    assert_eq!(r1.frame, r2.frame);
    assert_eq!(r1.diagnostics, r2.diagnostics);
}

#[test]
fn world_integrate_moves_target_only() {
    let target = Target::new(v(0, 0, 0), v(10, 10, 10), 2).unwrap();
    let mut w = World::new(target, vec![head(v(1, 2, 3), 9000, 9000)]);
    assert_eq!(w.integrate(v(1, 1, 1)), v(2, 2, 2));
    assert_eq!(w.target_position(), v(2, 2, 2));
    assert_eq!(w.fixture(0), head(v(1, 2, 3), 9000, 9000));
    assert_eq!(w.fixture_count(), 1);
    assert_eq!(
        w.aim_directions(),
        vec![Ok(Offset { x: 1, y: 0, z: -1 })]
    );
}
