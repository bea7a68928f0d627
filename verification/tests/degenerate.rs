use keplerian::cb::CB;
use keplerian::csv::CSV;
use keplerian::koe::KOE;
use keplerian::solver::SolverConfig;
use keplerian::vec3::Vec3Fx;
use keplerian::SCALE;

fn fx(x: f64) -> i128 {
    (x * 1e9).round() as i128
}

fn to_f(x: i128) -> f64 {
    x as f64 / 1e9
}

fn identity_cb() -> CB {
    CB::new(
        SCALE,
        Vec3Fx::new(SCALE, 0, 0),
        Vec3Fx::new(0, SCALE, 0),
        Vec3Fx::new(0, 0, SCALE),
    )
    .unwrap()
}

fn round_trip(koe: &KOE) -> KOE {
    let csv = CSV::from_koe(koe, &SolverConfig::standard()).unwrap();
    KOE::from_csv(&csv).unwrap()
}

#[test]
fn circular_equatorial_orbit() {
    // e = 0, inc = 0: the node and periapsis angles are undefined, so the
    // conversion must hand back lan = 0, ap = 0, and the epoch angle as the
    // true longitude of the position
    let cb = identity_cb();
    let koe0 = KOE::new(SCALE, 0, 0, 0, 0, fx(0.7), cb).unwrap();
    let csv = CSV::from_koe(&koe0, &SolverConfig::standard()).unwrap();
    // the position sits one unit out, at the true longitude 0.7
    assert!((to_f(csv.r.x) - 0.7f64.cos()).abs() < 1e-5);
    assert!((to_f(csv.r.y) - 0.7f64.sin()).abs() < 1e-5);
    assert!(to_f(csv.r.z).abs() < 1e-6);
    let koe1 = KOE::from_csv(&csv).unwrap();
    assert_eq!(koe1.lan, 0);
    assert_eq!(koe1.ap, 0);
    assert!(to_f(koe1.e).abs() < 1e-5);
    assert!(to_f(koe1.inc).abs() < 1e-4);
    assert!((to_f(koe1.m0) - 0.7).abs() < 1e-4);
    assert!((to_f(koe1.a) - 1.0).abs() < 1e-4);
}

#[test]
fn circular_inclined_orbit() {
    // e = 0, inc = pi / 2: ap must come back zero and the epoch angle as
    // the argument of latitude
    let cb = identity_cb();
    let inc = std::f64::consts::FRAC_PI_2;
    let koe0 = KOE::new(SCALE, 0, fx(inc), fx(1.0), 0, fx(0.7), cb).unwrap();
    let koe1 = round_trip(&koe0);
    assert_eq!(koe1.ap, 0);
    assert!(to_f(koe1.e).abs() < 1e-5);
    assert!((to_f(koe1.inc) - inc).abs() < 1e-4);
    assert!((to_f(koe1.lan) - 1.0).abs() < 1e-4);
    assert!((to_f(koe1.m0) - 0.7).abs() < 1e-4);
}

#[test]
fn eccentric_equatorial_orbit() {
    // e = 0.3, inc = 0: lan must come back zero and ap as the longitude of
    // periapsis
    let cb = identity_cb();
    let koe0 = KOE::new(SCALE, fx(0.3), 0, 0, fx(1.2), fx(0.5), cb).unwrap();
    let koe1 = round_trip(&koe0);
    assert_eq!(koe1.lan, 0);
    assert!((to_f(koe1.e) - 0.3).abs() < 1e-5);
    assert!(to_f(koe1.inc).abs() < 1e-4);
    assert!((to_f(koe1.ap) - 1.2).abs() < 1e-4);
    assert!((to_f(koe1.m0) - 0.5).abs() < 1e-4);
    assert!((to_f(koe1.a) - 1.0).abs() < 1e-4);
}

#[test]
fn a_generic_orbit_round_trips() {
    let cb = identity_cb();
    let koe0 = KOE::new(
        fx(2.0),
        fx(0.2),
        fx(0.8),
        fx(1.1),
        fx(0.7),
        fx(0.3),
        cb,
    )
    .unwrap();
    let koe1 = round_trip(&koe0);
    assert!((to_f(koe1.a) - 2.0).abs() < 1e-4);
    assert!((to_f(koe1.e) - 0.2).abs() < 1e-5);
    assert!((to_f(koe1.inc) - 0.8).abs() < 1e-4);
    assert!((to_f(koe1.lan) - 1.1).abs() < 1e-4);
    assert!((to_f(koe1.ap) - 0.7).abs() < 1e-4);
    assert!((to_f(koe1.m0) - 0.3).abs() < 1e-4);
}

#[test]
fn the_analytic_propagator_conserves_momentum_and_energy() {
    // specific angular momentum magnitude and vis-viva energy from the
    // state must match after a tick of any length; here a long one
    let cb = CB::new(
        fx(3.5),
        Vec3Fx::new(SCALE, 0, 0),
        Vec3Fx::new(0, SCALE, 0),
        Vec3Fx::new(0, 0, SCALE),
    )
    .unwrap();
    let koe0 = KOE::new(fx(2.0), fx(0.2), fx(0.8), fx(1.1), fx(0.7), fx(0.3), cb).unwrap();
    let cfg = SolverConfig::standard();
    let csv0 = CSV::from_koe(&koe0, &cfg).unwrap();
    let koe1 = koe0.tick(fx(10.0));
    let csv1 = CSV::from_koe(&koe1, &cfg).unwrap();
    // the elements other than the epoch are untouched
    assert_eq!((koe1.a, koe1.e, koe1.inc, koe1.lan, koe1.ap, koe1.n), (
        koe0.a,
        koe0.e,
        koe0.inc,
        koe0.lan,
        koe0.ap,
        koe0.n,
    ));
    let h0 = to_f(csv0.r.cross(csv0.v).norm());
    let h1 = to_f(csv1.r.cross(csv1.v).norm());
    assert!((h0 - h1).abs() < 1e-4, "h: {} vs {}", h0, h1);
    let energy = |s: &CSV| {
        let v2 = (s.v.dot(s.v)) as f64 / 1e18;
        let r = to_f(s.r.norm());
        v2 / 2.0 - 3.5 / r
    };
    let e0 = energy(&csv0);
    let e1 = energy(&csv1);
    assert!((e0 - e1).abs() < 1e-4, "energy: {} vs {}", e0, e1);
    // and both match what vis-viva gives for the elements
    assert!((e0 - (-3.5 / 4.0)).abs() < 1e-3, "energy = {}", e0);
}

#[test]
fn analytic_cartesian_propagation_stays_on_the_orbit() {
    // a circular orbit propagated by the default Cartesian tick stays at
    // radius a, while the legacy direct first-order step drifts outward
    let cb = identity_cb();
    let koe0 = KOE::new(SCALE, 0, 0, 0, 0, 0, cb).unwrap();
    let cfg = SolverConfig::standard();
    let csv0 = CSV::from_koe(&koe0, &cfg).unwrap();
    let mut s = csv0;
    for _ in 0..8 {
        s = s.tick(fx(0.5));
    }
    let radius = to_f(s.r.norm());
    assert!((radius - 1.0).abs() < 1e-3, "radius after analytic steps = {}", radius);
    // the position has swept four radians of true longitude
    let swept = to_f(s.r.y).atan2(to_f(s.r.x)).rem_euclid(2.0 * std::f64::consts::PI);
    assert!((swept - 4.0).abs() < 1e-3, "swept angle = {}", swept);
    // the fallible form agrees with the default
    assert_eq!(csv0.tick_analytic(fx(0.5), &cfg).unwrap(), csv0.tick(fx(0.5)));
    // the legacy direct step leaves the circle
    let drifted = to_f(csv0.tick_direct(fx(0.5)).r.norm());
    assert!(drifted > 1.05, "direct step radius = {}", drifted);
}

#[test]
fn the_cartesian_tick_conserves_momentum_and_energy() {
    // the default Cartesian tick is the analytic propagation: specific
    // angular momentum magnitude and vis-viva energy are kept for any dt
    let cb = identity_cb();
    let koe0 = KOE::new(fx(2.0), fx(0.2), fx(0.8), fx(1.1), fx(0.7), fx(0.3), cb).unwrap();
    let cfg = SolverConfig::standard();
    let s0 = CSV::from_koe(&koe0, &cfg).unwrap();
    let s1 = s0.tick(fx(10.0));
    let h0 = to_f(s0.r.cross(s0.v).norm());
    let h1 = to_f(s1.r.cross(s1.v).norm());
    assert!((h0 - h1).abs() < 1e-4, "h: {} vs {}", h0, h1);
    let energy = |s: &CSV| {
        let v2 = (s.v.dot(s.v)) as f64 / 1e18;
        let r = to_f(s.r.norm());
        v2 / 2.0 - 1.0 / r
    };
    let e0 = energy(&s0);
    let e1 = energy(&s1);
    assert!((e0 - e1).abs() < 1e-4, "energy: {} vs {}", e0, e1);
}
