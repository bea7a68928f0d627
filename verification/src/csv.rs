//! Cartesian state vectors.
//!
//! A `CSV` holds a position and a velocity against a central body.  Every
//! transform returns a new value: nothing is mutated in place.  The
//! conversion from orbital elements solves Kepler's equation, builds the
//! perifocal position and velocity, and applies the cached rotation, per
//! the element set's degeneracy rules.

use vstd::prelude::*;
use vstd::arithmetic::div_mod::{lemma_div_is_ordered, lemma_div_pos_is_pos};
use crate::cb::CB;
use crate::errors::ConversionError;
use crate::fx::{
    fx_ok, fx_clamp, fx_div, fx_mul, tdiv, sqrt_val, is_isqrt, fadd, fsub, fmul, fdiv, fhalf,
    isqrt, sqrt_fx, lemma_isqrt_unique, SCALE, FX_LIM,
};
use crate::vec3::{Vec3Fx, vec_ok, vadd_spec, vscale_spec, mat_apply_spec, mul_i};
use crate::koe::{KOE, A_MIN, A_MAX, PARA_TOL};
use crate::fx::iabs;
use crate::solver::{SolverConfig, converges_within, newton_iter_spec, residual, solve, STANDARD_ITERATIONS};
use crate::trig::{sin_fx, cos_fx, atan2_fx, sin_spec, cos_spec, atan2_spec};
use crate::tick::Tick;
use crate::push::Push;

verus! {

/// Cartesian state: a radius vector and a velocity, against a central body.
#[derive(Clone, Copy, PartialEq, Eq, Structural, Debug)]
pub struct CSV {
    /// Radius vector.
    pub r: Vec3Fx,
    /// Velocity.
    pub v: Vec3Fx,
    /// The central body this state is around.
    pub cb: CB,
}

impl CSV {
    /// The invariant every constructed state satisfies.
    pub open spec fn wf(self) -> bool {
        vec_ok(self.r) && vec_ok(self.v) && self.cb.wf()
    }

    /// Build a state from a position and a velocity.
    pub fn new(r: Vec3Fx, v: Vec3Fx, cb: CB) -> (s: CSV)
        ensures
            s.r == r && s.v == v && s.cb == cb,
    {
        CSV { r, v, cb }
    }

    /// What a push yields: the velocity delta is added, saturating; the
    /// position and the body are untouched.
    pub open spec fn push_spec(self, dv: Vec3Fx) -> CSV {
        CSV { v: vadd_spec(self.v, dv), ..self }
    }

    /// Apply an instantaneous velocity change.  Pure: a new state comes
    /// back, and a zero delta is the identity.
    pub fn push(&self, dv: Vec3Fx) -> (s: CSV)
        requires
            self.wf(),
            vec_ok(dv),
        ensures
            s == self.push_spec(dv),
            s.r == self.r && s.cb == self.cb && s.v == vadd_spec(self.v, dv),
            dv.x == 0 && dv.y == 0 && dv.z == 0 ==> s == *self,
            s.wf(),
    {
        CSV { r: self.r, v: self.v.vadd(dv), cb: self.cb }
    }

    /// What the legacy direct step yields: `r + v * dt`, with `v` unchanged.
    pub open spec fn tick_direct_spec(self, dt: i128) -> CSV {
        CSV { r: vadd_spec(self.r, vscale_spec(self.v, dt)), ..self }
    }

    /// The legacy first-order step: `r + v * dt`.  A historical variant
    /// kept under its own name: it is an approximation that accumulates
    /// error per step and conserves neither energy nor angular momentum;
    /// `tick` propagates analytically through the elements instead.
    pub fn tick_direct(&self, dt: i128) -> (s: CSV)
        requires
            self.wf(),
            fx_ok(dt),
        ensures
            s == self.tick_direct_spec(dt),
            s.v == self.v && s.cb == self.cb && s.r == vadd_spec(self.r, vscale_spec(self.v, dt)),
            dt == 0 ==> s == *self,
            s.wf(),
    {
        proof {
            if dt == 0 {
                assert(fx_mul(self.v.x as int, 0) == 0) by (nonlinear_arith);
                assert(fx_mul(self.v.y as int, 0) == 0) by (nonlinear_arith);
                assert(fx_mul(self.v.z as int, 0) == 0) by (nonlinear_arith);
            }
        }
        CSV { r: self.r.vadd(self.v.vscale(dt)), v: self.v, cb: self.cb }
    }

    /// The element set the analytic step advances: the elements read off
    /// this state, with the epoch moved by `dt`.
    pub open spec fn advanced_elements_spec(self, dt: i128) -> KOE {
        crate::koe::elements_spec(self).tick_spec(dt)
    }

    /// Advance by `dt` seconds: analytic two-body propagation, exact for
    /// unperturbed motion.  The state is converted to its elements, the
    /// epoch is advanced, and the state is rebuilt with the classical
    /// solver scheme.  A zero step is the identity.  The state must
    /// describe a supported bound orbit; `tick_analytic` is the fallible
    /// form for callers who cannot establish that.
    pub fn tick(&self, dt: i128) -> (s: CSV)
        requires
            self.wf(),
            fx_ok(dt),
            crate::koe::from_csv_check(*self) is Ok,
        ensures
            s.wf(),
            s.cb == self.cb,
            dt == 0 ==> s == *self,
            dt != 0 ==> s == state_mirror_spec(
                self.advanced_elements_spec(dt),
                newton_iter_spec(
                    self.advanced_elements_spec(dt).m0 as int,
                    self.advanced_elements_spec(dt).e as int,
                    STANDARD_ITERATIONS as nat,
                ) as i128,
            ),
    {
        if dt == 0 {
            return *self;
        }
        let cfg: SolverConfig = SolverConfig::standard();
        match self.tick_analytic(dt, &cfg) {
            Ok(s) => s,
            Err(_) => {
                proof {
                    assert(false);
                }
                *self
            },
        }
    }

    /// Advance by converting to the elements, ticking them analytically,
    /// and converting back: exact two-body propagation, free of the
    /// per-step error the direct step accumulates.
    pub fn tick_analytic(&self, dt: i128, cfg: &SolverConfig) -> (result: Result<
        CSV,
        ConversionError,
    >)
        requires
            self.wf(),
            fx_ok(dt),
            cfg.wf(),
        ensures
            result is Ok ==> result->Ok_0.wf() && result->Ok_0.cb == self.cb,
            result is Err ==> {
                ||| (crate::koe::from_csv_check(*self) is Err && result->Err_0
                    == crate::koe::from_csv_check(*self)->Err_0)
                ||| {
                    &&& result->Err_0 == ConversionError::NotConverged
                    &&& cfg.tolerance is Some
                    &&& !converges_within(
                        self.advanced_elements_spec(dt).m0 as int,
                        self.advanced_elements_spec(dt).e as int,
                        cfg.tolerance->0 as int,
                        cfg.max_iterations as nat,
                    )
                }
            },
            cfg.tolerance is None ==> (result is Ok <==> crate::koe::from_csv_check(*self) is Ok),
            cfg.tolerance is None && result is Ok ==> result->Ok_0 == state_mirror_spec(
                self.advanced_elements_spec(dt),
                newton_iter_spec(
                    self.advanced_elements_spec(dt).m0 as int,
                    self.advanced_elements_spec(dt).e as int,
                    cfg.max_iterations as nat,
                ) as i128,
            ),
            result is Ok ==> exists|ea: i128|
                {
                    &&& fx_ok(ea)
                    &&& (cfg.tolerance is Some ==> iabs(
                        residual(
                            self.advanced_elements_spec(dt).m0 as int,
                            self.advanced_elements_spec(dt).e as int,
                            ea as int,
                        ),
                    ) <= cfg.tolerance->0)
                    &&& result->Ok_0 == state_mirror_spec(self.advanced_elements_spec(dt), ea)
                },
    {
        let koe: KOE = match KOE::from_csv(self) {
            Ok(k) => k,
            Err(er) => {
                return Err(er);
            },
        };
        let advanced: KOE = koe.tick(dt);
        CSV::from_koe(&advanced, cfg)
    }

    /// Build the Cartesian state of an element set: solve Kepler's equation
    /// for the eccentric anomaly, derive the true anomaly and the radial
    /// distance, assemble the perifocal position and velocity, and rotate
    /// them into the frame with the cached rotation.
    ///
    /// With no tolerance configured the conversion always succeeds; with one
    /// it reports the solver's missed tolerance.
    #[verifier::rlimit(60)]
    pub fn from_koe(koe: &KOE, cfg: &SolverConfig) -> (result: Result<CSV, ConversionError>)
        requires
            koe.wf(),
            cfg.wf(),
        ensures
            result is Ok ==> result->Ok_0.cb == koe.cb && result->Ok_0.wf(),
            result is Err ==> result->Err_0 == ConversionError::NotConverged
                && cfg.tolerance is Some,
            result is Err ==> !converges_within(
                koe.m0 as int,
                koe.e as int,
                cfg.tolerance->0 as int,
                cfg.max_iterations as nat,
            ),
            cfg.tolerance is None ==> result is Ok,
            cfg.tolerance is None ==> result->Ok_0 == state_mirror_spec(
                *koe,
                newton_iter_spec(koe.m0 as int, koe.e as int, cfg.max_iterations as nat) as i128,
            ),
            result is Ok ==> exists|ea: i128|
                {
                    &&& fx_ok(ea)
                    &&& exists|k: nat|
                        k <= cfg.max_iterations && ea as int == newton_iter_spec(
                            koe.m0 as int,
                            koe.e as int,
                            k,
                        )
                    &&& (cfg.tolerance is Some ==> iabs(
                        residual(koe.m0 as int, koe.e as int, ea as int),
                    ) <= cfg.tolerance->0)
                    &&& result->Ok_0 == state_mirror_spec(*koe, ea)
                },
    {
        let ea: i128 = match solve(koe.m0, koe.e, cfg) {
            Ok(v) => v,
            Err(er) => {
                return Err(er);
            },
        };
        let ta: i128 = Self::true_anomaly(koe.e, ea);
        let cos_ea: i128 = cos_fx(ea);
        let sin_ea: i128 = sin_fx(ea);
        let dist: i128 = Self::radial_distance(koe.a, koe.e, cos_ea);
        let r_pf: Vec3Fx = Self::perifocal_position(&koe.cb, ta, dist);
        let v_pf: Vec3Fx = Self::perifocal_velocity(koe, sin_ea, cos_ea, dist);
        // Into the frame, with the cached (degeneracy-aware) rotation.
        let rr: Vec3Fx = koe.rot.apply(r_pf);
        let vv: Vec3Fx = koe.rot.apply(v_pf);
        Ok(CSV { r: rr, v: vv, cb: koe.cb })
    }

    /// The true anomaly from the eccentric anomaly, by the half-angle
    /// identity: `ta = 2 atan2(sqrt(1 + e) sin(E / 2), sqrt(1 - e) cos(E / 2))`.
    fn true_anomaly(e: i128, ea: i128) -> (ta: i128)
        requires
            0 <= e < SCALE,
            fx_ok(ea),
        ensures
            ta as int == true_anomaly_spec(e, ea),
            fx_ok(ta),
    {
        let half_ea: i128 = fhalf(ea);
        let sh: i128 = sin_fx(half_ea);
        let ch: i128 = cos_fx(half_ea);
        let sq_p: i128 = sqrt_fx(fadd(SCALE, e));
        let sq_m: i128 = sqrt_fx(fsub(SCALE, e));
        2 * atan2_fx(fmul(sq_p, sh), fmul(sq_m, ch))
    }

    /// The radial distance `a (1 - e cos E)`: at least one unit for a
    /// well-formed bound shape.
    fn radial_distance(a: i128, e: i128, cos_ea: i128) -> (dist: i128)
        requires
            A_MIN <= a <= A_MAX,
            0 <= e < SCALE - PARA_TOL,
            -SCALE <= cos_ea <= SCALE,
        ensures
            dist as int == radial_distance_spec(a, e, cos_ea as int),
            1 <= dist <= FX_LIM,
    {
        proof {
            lemma_fx_mul_le(e as int, cos_ea as int);
        }
        let fac: i128 = fsub(SCALE, fmul(e, cos_ea));
        let dist: i128 = fmul(a, fac);
        proof {
            lemma_dist_positive(a as int, fac as int);
        }
        dist
    }

    /// The perifocal-plane position: `dist (i cos ta + j sin ta)`.
    fn perifocal_position(cb: &CB, ta: i128, dist: i128) -> (r_pf: Vec3Fx)
        requires
            cb.wf(),
            fx_ok(ta),
            fx_ok(dist),
        ensures
            r_pf == perifocal_position_spec(*cb, ta as int, dist as int),
            vec_ok(r_pf),
    {
        let cos_ta: i128 = cos_fx(ta);
        let sin_ta: i128 = sin_fx(ta);
        cb.i.vscale(cos_ta).vadd(cb.j.vscale(sin_ta)).vscale(dist)
    }

    /// The perifocal-plane velocity:
    /// `(sqrt(mu a) / dist) (-i sin E + j sqrt(1 - e^2) cos E)`.
    fn perifocal_velocity(koe: &KOE, sin_ea: i128, cos_ea: i128, dist: i128) -> (v_pf: Vec3Fx)
        requires
            koe.wf(),
            -SCALE <= sin_ea <= SCALE,
            -SCALE <= cos_ea <= SCALE,
            1 <= dist <= FX_LIM,
        ensures
            v_pf == perifocal_velocity_spec(*koe, sin_ea as int, cos_ea as int, dist as int),
            vec_ok(v_pf),
    {
        let ma: i128 = mul_i(koe.cb.mu, koe.a);
        proof {
            assert(0 <= ma as int <= (FX_LIM as int) * (FX_LIM as int)) by (nonlinear_arith)
                requires
                    ma == (koe.cb.mu as int) * (koe.a as int),
                    1 <= koe.cb.mu as int <= FX_LIM as int,
                    1 <= koe.a as int <= FX_LIM as int;
        }
        let vnum: u128 = isqrt(ma as u128);
        proof {
            assert(vnum as int <= FX_LIM as int) by (nonlinear_arith)
                requires
                    is_isqrt(ma as int, vnum as int),
                    ma as int <= (FX_LIM as int) * (FX_LIM as int);
        }
        let vcoef: i128 = fdiv(vnum as i128, dist);
        proof {
            lemma_fx_mul_le(koe.e as int, koe.e as int);
        }
        let sq_e2: i128 = sqrt_fx(fsub(SCALE, fmul(koe.e, koe.e)));
        let nse: i128 = -sin_ea;
        koe.cb.i.vscale(nse).vadd(koe.cb.j.vscale(fmul(sq_e2, cos_ea))).vscale(vcoef)
    }
}

/// What `true_anomaly` returns.
pub open spec fn true_anomaly_spec(e: i128, ea: i128) -> int {
    let half = tdiv(ea as int, 2);
    let sq_p = sqrt_val(((SCALE + e) as int) * (SCALE as int));
    let sq_m = sqrt_val(((SCALE - e) as int) * (SCALE as int));
    2 * atan2_spec(fx_mul(sq_p, sin_spec(half)), fx_mul(sq_m, cos_spec(half)))
}

/// What `radial_distance` returns.
pub open spec fn radial_distance_spec(a: i128, e: i128, cos_ea: int) -> int {
    fx_mul(a as int, fx_clamp(SCALE - fx_mul(e as int, cos_ea)))
}

/// What `perifocal_position` returns.
pub open spec fn perifocal_position_spec(cb: CB, ta: int, dist: int) -> Vec3Fx {
    vscale_spec(
        vadd_spec(
            vscale_spec(cb.i, cos_spec(ta) as i128),
            vscale_spec(cb.j, sin_spec(ta) as i128),
        ),
        dist as i128,
    )
}

/// What `perifocal_velocity` returns.
pub open spec fn perifocal_velocity_spec(koe: KOE, sin_ea: int, cos_ea: int, dist: int) -> Vec3Fx {
    let vcoef = fx_div(sqrt_val(koe.cb.mu * koe.a), dist);
    let sq_e2 = sqrt_val((fx_clamp(SCALE - fx_mul(koe.e as int, koe.e as int))) * (SCALE as int));
    vscale_spec(
        vadd_spec(
            vscale_spec(koe.cb.i, (-sin_ea) as i128),
            vscale_spec(koe.cb.j, fx_mul(sq_e2, cos_ea) as i128),
        ),
        vcoef as i128,
    )
}

/// What the conversion builds from an element set and a solved eccentric
/// anomaly: the rotated perifocal position and velocity, over the same
/// central body.
pub open spec fn state_mirror_spec(koe: KOE, ea: i128) -> CSV {
    let ta = true_anomaly_spec(koe.e, ea);
    let cos_ea = cos_spec(ea as int);
    let sin_ea = sin_spec(ea as int);
    let dist = radial_distance_spec(koe.a, koe.e, cos_ea);
    CSV {
        r: mat_apply_spec(koe.rot, perifocal_position_spec(koe.cb, ta, dist)),
        v: mat_apply_spec(koe.rot, perifocal_velocity_spec(koe, sin_ea, cos_ea, dist)),
        cb: koe.cb,
    }
}

/// Scaling a nonnegative scalar by a factor of at most one cannot grow it.
pub proof fn lemma_fx_mul_le(e: int, c: int)
    requires
        0 <= e <= FX_LIM,
        c <= SCALE,
    ensures
        fx_mul(e, c) <= e,
{
    let s = SCALE as int;
    if e * c >= 0 {
        assert(e * c <= e * s) by (nonlinear_arith)
            requires
                0 <= e && c <= s;
        lemma_div_is_ordered(e * c, e * s, s);
        assert((e * s) / s == e) by (nonlinear_arith)
            requires
                s == SCALE as int;
        lemma_div_pos_is_pos(e * c, s);
    } else {
        lemma_div_pos_is_pos(-(e * c), s);
    }
}

/// The radial distance of a well-formed bound orbit is at least one unit.
proof fn lemma_dist_positive(a: int, fac: int)
    requires
        1_000_000 <= a <= FX_LIM,
        1_000 < fac <= FX_LIM,
    ensures
        fx_mul(a, fac) >= 1,
{
    assert(a * fac >= 1_000_000 * 1_001) by (nonlinear_arith)
        requires
            a >= 1_000_000 && fac >= 1_001;
    lemma_div_is_ordered(1_001_000_000, a * fac, SCALE as int);
    lemma_div_pos_is_pos(a * fac, SCALE as int);
}

impl Tick for CSV {
    open spec fn tick_req(&self, dt: i128) -> bool {
        self.wf() && fx_ok(dt) && crate::koe::from_csv_check(*self) is Ok
    }

    open spec fn tick_ens(&self, dt: i128, s: CSV) -> bool {
        &&& s.wf()
        &&& s.cb == self.cb
        &&& (dt == 0 ==> s == *self)
        &&& (dt != 0 ==> s == state_mirror_spec(
            self.advanced_elements_spec(dt),
            newton_iter_spec(
                self.advanced_elements_spec(dt).m0 as int,
                self.advanced_elements_spec(dt).e as int,
                STANDARD_ITERATIONS as nat,
            ) as i128,
        ))
    }

    fn tick(&self, dt: i128) -> (s: CSV) {
        CSV::tick(self, dt)
    }
}

impl Push for CSV {
    open spec fn push_req(&self, dv: Vec3Fx) -> bool {
        self.wf() && vec_ok(dv)
    }

    open spec fn push_ens(&self, dv: Vec3Fx, s: CSV) -> bool {
        s == self.push_spec(dv)
    }

    fn push(&self, dv: Vec3Fx) -> (s: CSV) {
        CSV::push(self, dv)
    }
}

/// A zero velocity delta leaves the state unchanged: `push` is the
/// identity on the zero vector.
pub proof fn lemma_push_zero_identity(csv: CSV)
    requires
        csv.wf(),
    ensures
        csv.push_spec(Vec3Fx { x: 0, y: 0, z: 0 }) == csv,
{
}

/// A zero time step leaves the state unchanged: the direct step by zero is
/// the identity, as is the analytic step by its contract.
pub proof fn lemma_tick_zero_identity(csv: CSV)
    requires
        csv.wf(),
    ensures
        csv.tick_direct_spec(0) == csv,
{
    assert(fx_mul(csv.v.x as int, 0) == 0) by (nonlinear_arith);
    assert(fx_mul(csv.v.y as int, 0) == 0) by (nonlinear_arith);
    assert(fx_mul(csv.v.z as int, 0) == 0) by (nonlinear_arith);
}

} // verus!
