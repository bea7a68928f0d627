use keplerian::fx::{
    fadd, fdiv, fhalf, fmul, fsub, isqrt, norm_angle_pi, norm_angle_tau, sqrt_fx, FX_LIM, PI_FX,
    SCALE, TWO_PI_FX,
};
use keplerian::trig::{acos_fx, atan2_fx, cos_fx, sin_fx};

fn fx(x: f64) -> i128 {
    (x * 1e9).round() as i128
}

fn to_f(x: i128) -> f64 {
    x as f64 / 1e9
}

#[test]
fn fixed_point_products() {
    assert_eq!(fmul(3 * SCALE, 2 * SCALE), 6 * SCALE);
    assert_eq!(fmul(-3 * SCALE, 2 * SCALE), -6 * SCALE);
    assert_eq!(fmul(-3 * SCALE, -2 * SCALE), 6 * SCALE);
    assert_eq!(fmul(SCALE / 2, SCALE / 2), SCALE / 4);
    // saturation at the working range
    assert_eq!(fmul(FX_LIM, FX_LIM), FX_LIM);
    assert_eq!(fmul(-FX_LIM, FX_LIM), -FX_LIM);
}

#[test]
fn fixed_point_quotients() {
    assert_eq!(fdiv(6 * SCALE, 2 * SCALE), 3 * SCALE);
    assert_eq!(fdiv(-6 * SCALE, 2 * SCALE), -3 * SCALE);
    assert_eq!(fdiv(SCALE, 3 * SCALE), 333_333_333);
    assert_eq!(fdiv(0, 7), 0);
}

#[test]
fn saturating_sums() {
    assert_eq!(fadd(FX_LIM, FX_LIM), FX_LIM);
    assert_eq!(fsub(-FX_LIM, FX_LIM), -FX_LIM);
    assert_eq!(fadd(5, 7), 12);
    assert_eq!(fsub(5, 7), -2);
    assert_eq!(fhalf(-7), -3);
    assert_eq!(fhalf(7), 3);
}

#[test]
fn integer_square_roots() {
    assert_eq!(isqrt(0), 0);
    assert_eq!(isqrt(1), 1);
    assert_eq!(isqrt(10), 3);
    assert_eq!(isqrt(16), 4);
    assert_eq!(isqrt(u128::MAX), 0xFFFF_FFFF_FFFF_FFFF);
    assert_eq!(sqrt_fx(4 * SCALE), 2 * SCALE);
    assert_eq!(sqrt_fx(2 * SCALE), 1_414_213_562);
}

#[test]
fn angle_reduction() {
    assert_eq!(norm_angle_tau(0), 0);
    assert_eq!(norm_angle_tau(TWO_PI_FX), 0);
    assert_eq!(norm_angle_tau(-1), TWO_PI_FX - 1);
    assert_eq!(norm_angle_pi(0), 0);
    assert_eq!(norm_angle_pi(PI_FX), PI_FX);
    assert_eq!(norm_angle_pi(PI_FX + 1), PI_FX + 1 - TWO_PI_FX);
    let w = norm_angle_pi(fx(7.0));
    assert!((to_f(w) - (7.0 - 2.0 * std::f64::consts::PI)).abs() < 1e-6);
    // the extreme negative argument has no negation; its reduction is still exact
    assert_eq!(norm_angle_tau(i128::MIN), 6_043_868_248);
}

#[test]
fn sine_and_cosine_match_the_reference() {
    let samples = [
        -3.1, -2.5, -1.5707963, -1.0, -0.5, -0.001, 0.0, 0.001, 0.5, 1.0, 1.5707963, 2.5, 3.1,
        4.0, 6.0, 6.2831853, 10.0,
    ];
    for &x in samples.iter() {
        let s = to_f(sin_fx(fx(x)));
        let c = to_f(cos_fx(fx(x)));
        assert!((s - x.sin()).abs() < 1e-6, "sin({}) = {} vs {}", x, s, x.sin());
        assert!((c - x.cos()).abs() < 1e-6, "cos({}) = {} vs {}", x, c, x.cos());
    }
    assert_eq!(sin_fx(0), 0);
}

#[test]
fn arc_tangent_matches_the_reference() {
    let points = [
        (1.0, 1.0),
        (1.0, -1.0),
        (-1.0, 1.0),
        (-1.0, -1.0),
        (0.3, 0.9),
        (-0.7, 0.2),
        (0.0, 1.0),
        (1.0, 0.0),
        (-1.0, 0.0),
        (0.0, -1.0),
    ];
    for &(y, x) in points.iter() {
        let a = to_f(atan2_fx(fx(y), fx(x)));
        assert!((a - y.atan2(x)).abs() < 1e-6, "atan2({}, {}) = {} vs {}", y, x, a, y.atan2(x));
    }
    assert_eq!(atan2_fx(0, 0), 0);
}

#[test]
fn arc_cosine_matches_the_reference() {
    let samples = [-1.0, -0.9, -0.5, 0.0, 0.5, 0.9, 1.0];
    for &x in samples.iter() {
        let a = to_f(acos_fx(fx(x)));
        assert!((a - x.acos()).abs() < 1e-5, "acos({}) = {} vs {}", x, a, x.acos());
    }
    // out-of-range arguments are clamped, a recovery rather than an error
    assert_eq!(acos_fx(2 * SCALE), 0);
    assert!((to_f(acos_fx(-2 * SCALE)) - std::f64::consts::PI).abs() < 1e-5);
}
