use keplerian::cb::CB;
use keplerian::csv::CSV;
use keplerian::errors::{ConversionError, ShapeError};
use keplerian::koe::{KOE, A_MIN};
use keplerian::push::Push;
use keplerian::solver::{solve, SolverConfig};
use keplerian::tick::Tick;
use keplerian::vec3::Vec3Fx;
use keplerian::SCALE;

fn fx(x: f64) -> i128 {
    (x * 1e9).round() as i128
}

fn to_f(x: i128) -> f64 {
    x as f64 / 1e9
}

fn identity_cb() -> CB {
    CB::new(
        SCALE,
        Vec3Fx::new(SCALE, 0, 0),
        Vec3Fx::new(0, SCALE, 0),
        Vec3Fx::new(0, 0, SCALE),
    )
    .unwrap()
}

#[test]
fn push_adds_the_velocity_delta() {
    let cb = identity_cb();
    let s = CSV::new(Vec3Fx::new(SCALE, 0, 0), Vec3Fx::new(0, SCALE, 0), cb);
    let pushed = s.push(Vec3Fx::new(7, -5, 11));
    assert_eq!(pushed.r, s.r);
    assert_eq!(pushed.v, Vec3Fx::new(7, SCALE - 5, 11));
    assert_eq!(pushed.cb, s.cb);
}

#[test]
fn push_of_the_zero_vector_is_the_identity() {
    let cb = identity_cb();
    let s = CSV::new(Vec3Fx::new(3, 4, 5), Vec3Fx::new(-1, 2, -3), cb);
    assert_eq!(s.push(Vec3Fx::zero()), s);
}

#[test]
fn direct_step_moves_the_position_only() {
    let cb = identity_cb();
    let s = CSV::new(Vec3Fx::new(SCALE, 0, 0), Vec3Fx::new(0, 2 * SCALE, 0), cb);
    let t = s.tick_direct(SCALE / 2);
    assert_eq!(t.r, Vec3Fx::new(SCALE, SCALE, 0));
    assert_eq!(t.v, s.v);
}

#[test]
fn tick_of_zero_is_the_identity_on_both_representations() {
    let cb = identity_cb();
    let k = KOE::new(2 * SCALE, fx(0.25), fx(0.5), fx(1.0), fx(2.0), fx(0.5), cb).unwrap();
    assert_eq!(k.tick(0), k);
    let s = CSV::from_koe(&k, &SolverConfig::standard()).unwrap();
    assert_eq!(s.tick(0), s);
    assert_eq!(s.tick_direct(0), s);
}

#[test]
fn element_tick_moves_the_mean_anomaly_linearly() {
    let cb = identity_cb();
    let k = KOE::new(SCALE, 0, 0, 0, 0, 0, cb).unwrap();
    // a = mu = 1: the mean motion is one radian per unit of time
    assert_eq!(k.n, SCALE);
    let t = k.tick(fx(0.5));
    assert_eq!(t.m0, fx(0.5));
    assert_eq!((t.a, t.e, t.inc, t.lan, t.ap, t.n), (k.a, k.e, k.inc, k.lan, k.ap, k.n));
    assert_eq!(t.rot, k.rot);
    assert_eq!(t.cb, k.cb);
}

#[test]
fn the_epoch_advances_raw_without_wrapping() {
    // m0 = 3, n = 1, dt = 1: the stored epoch is the raw sum 4.0
    let cb = identity_cb();
    let k = KOE::new(SCALE, 0, 0, 0, 0, fx(3.0), cb).unwrap();
    let t = k.tick(fx(1.0));
    assert_eq!(t.m0, fx(4.0));
}

#[test]
fn element_angles_are_stored_as_given() {
    // a node angle beyond a full turn stays exactly as the caller wrote it
    let cb = identity_cb();
    let k = KOE::new(SCALE, fx(0.3), fx(0.5), fx(7.0), fx(9.0), fx(2.5), cb).unwrap();
    assert_eq!(k.lan, fx(7.0));
    assert_eq!(k.ap, fx(9.0));
    assert_eq!(k.m0, fx(2.5));
}

#[test]
fn ticking_backwards_undoes_ticking_forwards() {
    let cb = identity_cb();
    let k = KOE::new(2 * SCALE, fx(0.25), fx(0.5), fx(1.0), fx(2.0), fx(0.5), cb).unwrap();
    assert_eq!(k.tick(fx(7.25)).tick(fx(-7.25)), k);
}

#[test]
fn shape_validation_rejects_unsupported_orbits() {
    let cb = identity_cb();
    let bad = |r: Result<KOE, ShapeError>| r.err().unwrap();
    assert_eq!(
        bad(KOE::new(0, 0, 0, 0, 0, 0, cb)),
        ShapeError::NonPositiveSemiMajorAxis
    );
    assert_eq!(
        bad(KOE::new(-SCALE, 0, 0, 0, 0, 0, cb)),
        ShapeError::NonPositiveSemiMajorAxis
    );
    assert_eq!(
        bad(KOE::new(A_MIN / 2, 0, 0, 0, 0, 0, cb)),
        ShapeError::SemiMajorAxisOutOfRange
    );
    assert_eq!(
        bad(KOE::new(SCALE, -1, 0, 0, 0, 0, cb)),
        ShapeError::NegativeEccentricity
    );
    assert_eq!(
        bad(KOE::new(SCALE, SCALE, 0, 0, 0, 0, cb)),
        ShapeError::ParabolicEccentricity
    );
    assert_eq!(
        bad(KOE::new(SCALE, 2 * SCALE, 0, 0, 0, 0, cb)),
        ShapeError::HyperbolicEccentricity
    );
}

#[test]
fn the_solver_meets_a_requested_tolerance() {
    let cfg = SolverConfig::with_tolerance(1_000, 50);
    let m0 = fx(0.5);
    let e = fx(0.5);
    let ea = solve(m0, e, &cfg).unwrap();
    let residual = to_f(ea) - 0.5 * to_f(ea).sin() - 0.5;
    assert!(residual.abs() < 1e-5, "residual = {}", residual);
}

#[test]
fn the_solver_reports_a_missed_tolerance() {
    // no iterations allowed: the initial guess stays, and its residual is
    // e * sin(m0), far above the tolerance
    let cfg = SolverConfig::with_tolerance(10, 0);
    let r = solve(fx(1.0), fx(0.9), &cfg);
    assert_eq!(r, Err(ConversionError::NotConverged));
}

#[test]
fn mean_motion_has_its_exact_value() {
    // a = 4, mu = 1: n = sqrt(mu / a^3) = 1 / 8 exactly
    let cb = identity_cb();
    let k = KOE::new(4 * SCALE, 0, 0, 0, 0, 0, cb).unwrap();
    assert_eq!(k.n, 125_000_000);
}

#[test]
fn a_singular_state_is_rejected() {
    let cb = identity_cb();
    // zero radius
    let s = CSV::new(Vec3Fx::zero(), Vec3Fx::new(0, SCALE, 0), cb);
    assert_eq!(KOE::from_csv(&s), Err(ConversionError::SingularState));
    // zero angular momentum: velocity along the radius
    let s2 = CSV::new(Vec3Fx::new(SCALE, 0, 0), Vec3Fx::new(SCALE, 0, 0), cb);
    assert_eq!(KOE::from_csv(&s2), Err(ConversionError::SingularState));
}

#[test]
fn the_capability_traits_agree_with_the_inherent_methods() {
    let cb = identity_cb();
    let k = KOE::new(SCALE, fx(0.1), fx(0.4), fx(0.9), fx(1.3), fx(0.2), cb).unwrap();
    let s = CSV::from_koe(&k, &SolverConfig::standard()).unwrap();
    let via_trait = Tick::tick(&s, fx(0.25));
    assert_eq!(via_trait, s.tick(fx(0.25)));
    let pushed = Push::push(&s, Vec3Fx::new(1, 2, 3));
    assert_eq!(pushed, s.push(Vec3Fx::new(1, 2, 3)));
}
