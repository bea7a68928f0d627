use rand::rngs::StdRng;
use rand::{RngExt, SeedableRng};
use std::f64::consts::PI;

use keplerian::cb::CB;
use keplerian::csv::CSV;
use keplerian::koe::KOE;
use keplerian::solver::SolverConfig;
use keplerian::vec3::Vec3Fx;

const ITERATIONS: u32 = 10000;
const EPS: f64 = 1.0e-3;

fn fx(x: f64) -> i128 {
    (x * 1e9).round() as i128
}

fn to_f(x: i128) -> f64 {
    x as f64 / 1e9
}

fn approx_eq_eps(a: &f64, b: &f64, eps: &f64) -> bool {
    (a - b).abs() < *eps
}

fn vec_approx_eq_eps(a: Vec3Fx, b: Vec3Fx, eps: &f64) -> bool {
    approx_eq_eps(&to_f(a.x), &to_f(b.x), eps) && approx_eq_eps(&to_f(a.y), &to_f(b.y), eps)
        && approx_eq_eps(&to_f(a.z), &to_f(b.z), eps)
}

fn rodrigues(axis: [f64; 3], angle: f64, v: [f64; 3]) -> [f64; 3] {
    let (s, c) = angle.sin_cos();
    let dot = axis[0] * v[0] + axis[1] * v[1] + axis[2] * v[2];
    let cross = [
        axis[1] * v[2] - axis[2] * v[1],
        axis[2] * v[0] - axis[0] * v[2],
        axis[0] * v[1] - axis[1] * v[0],
    ];
    [
        v[0] * c + cross[0] * s + axis[0] * dot * (1.0 - c),
        v[1] * c + cross[1] * s + axis[1] * dot * (1.0 - c),
        v[2] * c + cross[2] * s + axis[2] * dot * (1.0 - c),
    ]
}

fn vec_fx(v: [f64; 3]) -> Vec3Fx {
    Vec3Fx::new(fx(v[0]), fx(v[1]), fx(v[2]))
}

fn get_random_cb(rng: &mut StdRng) -> CB {
    // a basis turned by a random rotation: a random unit axis, a random angle
    let raw: [f64; 3] = [
        rng.random_range(-1.0..1.0),
        rng.random_range(-1.0..1.0),
        rng.random_range(-1.0..1.0),
    ];
    let norm = (raw[0] * raw[0] + raw[1] * raw[1] + raw[2] * raw[2]).sqrt().max(1e-3);
    let axis = [raw[0] / norm, raw[1] / norm, raw[2] / norm];
    let angle = rng.random_range(0.0..2.0 * PI);
    let i = rodrigues(axis, angle, [1.0, 0.0, 0.0]);
    let j = rodrigues(axis, angle, [0.0, 1.0, 0.0]);
    let k = rodrigues(axis, angle, [0.0, 0.0, 1.0]);
    let mu: f64 = rng.random_range(1.0..1.0e6);
    CB::new(fx(mu), vec_fx(i), vec_fx(j), vec_fx(k)).unwrap()
}

fn get_random_koe(rng: &mut StdRng, cb: CB) -> KOE {
    let ecc: f64 = rng.random_range(0.0..0.999);
    let inc: f64 = rng.random_range(0.0..PI);
    let lan: f64 = rng.random_range(0.0..2.0 * PI);
    let ap: f64 = rng.random_range(0.0..2.0 * PI);
    KOE::new(
        fx(rng.random_range(1.0..100.0)), // Semi major axis
        fx(ecc),                          // Eccentricity
        fx(inc),                          // Inclination
        fx(lan),                          // Longitude of Ascending Node
        fx(ap),                           // Argument of Periapsis
        fx(rng.random_range(-PI..PI)),    // Mean anomaly
        cb,
    )
    .unwrap()
}

#[test]
fn koe_invariance() {
    let mut rng = StdRng::seed_from_u64(0x6f7262697431);
    let cfg = SolverConfig::standard();
    let mut a_ok = 0;
    let mut e_ok = 0;
    let mut inc_ok = 0;
    let mut lan_ok = 0;
    let mut ap_ok = 0;
    let mut m0_ok = 0;
    for _ in 0..ITERATIONS {
        let cb = get_random_cb(&mut rng);
        let koe0 = get_random_koe(&mut rng, cb);
        let csv0 = CSV::from_koe(&koe0, &cfg).unwrap();
        let koe1 = match KOE::from_csv(&csv0) {
            Ok(k) => k,
            Err(_) => {
                continue;
            },
        };
        if approx_eq_eps(&to_f(koe0.a), &to_f(koe1.a), &EPS) {
            a_ok += 1;
        }
        if approx_eq_eps(&to_f(koe0.e), &to_f(koe1.e), &EPS) {
            e_ok += 1;
        }
        if approx_eq_eps(&to_f(koe0.inc), &to_f(koe1.inc), &EPS) {
            inc_ok += 1;
        }
        if approx_eq_eps(&to_f(koe0.lan), &to_f(koe1.lan), &EPS) {
            lan_ok += 1;
        }
        if approx_eq_eps(&to_f(koe0.ap), &to_f(koe1.ap), &EPS) {
            ap_ok += 1;
        }
        if approx_eq_eps(&to_f(koe0.m0), &to_f(koe1.m0), &EPS) {
            m0_ok += 1;
        }
    }
    let a_ok_f = a_ok as f32 / ITERATIONS as f32;
    let e_ok_f = e_ok as f32 / ITERATIONS as f32;
    let inc_ok_f = inc_ok as f32 / ITERATIONS as f32;
    let lan_ok_f = lan_ok as f32 / ITERATIONS as f32;
    let ap_ok_f = ap_ok as f32 / ITERATIONS as f32;
    let m0_ok_f = m0_ok as f32 / ITERATIONS as f32;
    let threshold = 0.99;
    let mut failed = false;

    println!("");
    println!("EPS = {}", EPS);
    println!("threshold = {}", threshold);
    if a_ok_f < threshold {
        println!("a_ok_f = {}", a_ok_f);
        if !failed {
            failed = true;
        }
    }
    if e_ok_f < threshold {
        println!("e_ok_f = {}", e_ok_f);
        if !failed {
            failed = true;
        }
    }
    if inc_ok_f < threshold {
        println!("inc_ok_f = {}", inc_ok_f);
        if !failed {
            failed = true;
        }
    }
    if lan_ok_f < threshold {
        println!("lan_ok_f = {}", lan_ok_f);
        if !failed {
            failed = true;
        }
    }
    if ap_ok_f < threshold {
        println!("ap_ok_f = {}", ap_ok_f);
        if !failed {
            failed = true;
        }
    }
    if m0_ok_f < threshold {
        println!("m0_ok_f = {}", m0_ok_f);
        if !failed {
            failed = true;
        }
    }
    if failed {
        panic!("success rate for one of the parameters is below threshold");
    }
}

#[test]
fn csv_invariance() {
    let mut rng = StdRng::seed_from_u64(0x6f7262697432);
    let cfg = SolverConfig::standard();
    let mut r_ok = 0;
    let mut v_ok = 0;
    for _ in 0..ITERATIONS {
        let cb = get_random_cb(&mut rng);
        let koe0 = get_random_koe(&mut rng, cb);
        let csv0 = CSV::from_koe(&koe0, &cfg).unwrap();
        let koe1 = match KOE::from_csv(&csv0) {
            Ok(k) => k,
            Err(_) => {
                continue;
            },
        };
        let csv1 = CSV::from_koe(&koe1, &cfg).unwrap();
        if vec_approx_eq_eps(csv0.r, csv1.r, &EPS) {
            r_ok += 1;
        }
        if vec_approx_eq_eps(csv0.v, csv1.v, &EPS) {
            v_ok += 1;
        }
    }
    let r_ok_f = r_ok as f32 / ITERATIONS as f32;
    let v_ok_f = v_ok as f32 / ITERATIONS as f32;
    let threshold = 0.99;
    let mut failed = false;

    println!("");
    println!("EPS = {}", EPS);
    println!("threshold = {}", threshold);
    if r_ok_f < threshold {
        println!("r_ok_f = {}", r_ok_f);
        if !failed {
            failed = true;
        }
    }
    if v_ok_f < threshold {
        println!("v_ok_f = {}", v_ok_f);
        if !failed {
            failed = true;
        }
    }
    if failed {
        panic!("success rate for some of the parameters is below the threshold");
    }
}
