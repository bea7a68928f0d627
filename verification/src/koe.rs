//! Keplerian orbital elements.
//!
//! A `KOE` describes an orbit by the six classical elements, together with
//! the cached mean motion and the cached rotation from the perifocal plane
//! into the body's frame.  Construction validates the orbit shape: only the
//! bound elliptical case is accepted, and the rotation skips the angles that
//! are undefined for circular or equatorial orbits, whatever their stored
//! values.

use vstd::prelude::*;
use vstd::arithmetic::div_mod::{
    lemma_div_is_ordered, lemma_div_is_ordered_by_denominator, lemma_div_pos_is_pos,
};
use crate::cb::CB;
use crate::errors::ShapeError;
use crate::fx::{
    fx_ok, fx_clamp, fx_div, fx_mul, iabs, tdiv, wrap_pi, sqrt_val, is_isqrt, fmul, isqrt,
    norm_angle_pi, lemma_isqrt_unique, lemma_tdiv_additive, SCALE, FX_LIM, PI_FX, TWO_PI_FX,
};
use crate::vec3::{Vec3Fx, Mat3Fx, vec_ok, mat_ok, mat_id_spec, rodrigues_spec, rot_axis_angle, tdiv_clamp, dot_raw, cross_spec, vdiv_spec, vsub_spec, NORM_MAX};
use crate::trig::{sin_fx, cos_fx, acos_fx, atan2_fx, sin_spec, cos_spec, acos_spec, atan2_spec};
use crate::csv::CSV;
use crate::errors::ConversionError;
use crate::tick::Tick;

verus! {

/// Smallest accepted semi-major axis (one thousandth of a unit).
pub const A_MIN: i128 = 1_000_000;

/// Largest accepted semi-major axis (a hundred million units).
pub const A_MAX: i128 = 100_000_000_000_000_000;

/// Half-width of the band around one in which an eccentricity counts as
/// parabolic.
pub const PARA_TOL: i128 = 1_000;

/// Below this, an eccentricity counts as circular and an inclination as
/// equatorial when the degeneracy overrides are applied.
pub const EPS_DEGEN: i128 = 1_000;

/// What the mean motion is: the square root of `mu / a^3`, with the
/// scalings interleaved so the square root lands on the fixed-point scale.
pub open spec fn mean_motion_spec(mu: i128, a: i128) -> int {
    let q1 = (mu * SCALE) / (a as int);
    let q2 = (q1 * SCALE) / (a as int);
    let q3 = (q2 * SCALE) / (a as int);
    sqrt_val(q3 * SCALE)
}

/// The cached rotation an element set carries: the node and tilt rotations
/// are skipped for an equatorial orbit, the periapsis rotation for a
/// circular one, because those angles are undefined there.
pub open spec fn rotation_spec(cb: CB, e: i128, inc: i128, lan_n: i128, ap_n: i128) -> Mat3Fx {
    let base = if inc > EPS_DEGEN {
        rodrigues_spec(
            cb.k,
            cos_spec(lan_n as int) as i128,
            sin_spec(lan_n as int) as i128,
        ).compose_spec(
            rodrigues_spec(cb.i, cos_spec(inc as int) as i128, sin_spec(inc as int) as i128),
        )
    } else {
        mat_id_spec()
    };
    if e > EPS_DEGEN {
        base.compose_spec(
            rodrigues_spec(cb.k, cos_spec(ap_n as int) as i128, sin_spec(ap_n as int) as i128),
        )
    } else {
        base
    }
}

/// How a proposed shape is classified, in checking order.
pub open spec fn shape_of(a: i128, e: i128) -> Result<(), ShapeError> {
    if a <= 0 {
        Err(ShapeError::NonPositiveSemiMajorAxis)
    } else if a < A_MIN || a > A_MAX {
        Err(ShapeError::SemiMajorAxisOutOfRange)
    } else if e < 0 {
        Err(ShapeError::NegativeEccentricity)
    } else if iabs(e - SCALE) <= PARA_TOL {
        Err(ShapeError::ParabolicEccentricity)
    } else if e > SCALE {
        Err(ShapeError::HyperbolicEccentricity)
    } else {
        Ok(())
    }
}

/// Keplerian orbital elements, with the cached mean motion and rotation,
/// against a central body.
#[derive(Clone, Copy, PartialEq, Eq, Structural, Debug)]
pub struct KOE {
    /// Semi-major axis.
    pub a: i128,
    /// Eccentricity.
    pub e: i128,
    /// Inclination.
    pub inc: i128,
    /// Longitude of the ascending node.
    pub lan: i128,
    /// Argument of periapsis; for an equatorial non-circular orbit the
    /// longitude of periapsis, and zero for a circular orbit.
    pub ap: i128,
    /// Mean anomaly at the reference epoch.
    pub m0: i128,
    /// Mean motion, cached at construction.
    pub n: i128,
    /// Rotation from the perifocal plane into the body's frame, cached at
    /// construction.
    pub rot: Mat3Fx,
    /// The central body this orbit is around.
    pub cb: CB,
}

impl KOE {
    /// The invariant every constructed element set satisfies.  The cached
    /// mean motion and rotation are derived fields: they are pinned to
    /// their defining formulas, so no hand-built value can carry a cache
    /// inconsistent with its elements.
    pub open spec fn wf(self) -> bool {
        &&& A_MIN <= self.a <= A_MAX
        &&& 0 <= self.e && iabs(self.e - SCALE) > PARA_TOL && self.e < SCALE
        &&& 0 <= self.inc <= PI_FX
        &&& fx_ok(self.lan)
        &&& fx_ok(self.ap)
        &&& fx_ok(self.m0)
        &&& self.n == mean_motion_spec(self.cb.mu, self.a)
        &&& 0 <= self.n <= FX_LIM
        &&& self.rot == rotation_spec(self.cb, self.e, self.inc, self.lan, self.ap)
        &&& self.cb.wf()
    }

    /// The state after a tick: only the mean anomaly moves, by `n * dt`,
    /// stored raw and saturating only at the edge of the working range.
    pub open spec fn tick_spec(self, dt: i128) -> KOE {
        KOE { m0: fx_clamp(self.m0 + fx_mul(self.n as int, dt as int)) as i128, ..self }
    }

    /// Build an element set against a central body, rejecting shapes outside
    /// the bound elliptical case.  The node, periapsis and epoch angles are
    /// stored exactly as given (the trigonometry reduces its own arguments);
    /// the mean motion and the perifocal rotation are computed once and
    /// cached.
    ///
    /// The rotation composes, in order, a rotation by `lan` about the polar
    /// axis, one by `inc` about the reference axis, and one by `ap` about the
    /// polar axis again; the first two are skipped for an equatorial orbit
    /// and the last for a circular one, because those angles are undefined
    /// there and must not be applied even if a stored value is nonzero.
    pub fn new(a: i128, e: i128, inc: i128, lan: i128, ap: i128, m0: i128, cb: CB) -> (r: Result<
        KOE,
        ShapeError,
    >)
        requires
            fx_ok(a),
            fx_ok(e),
            0 <= inc <= PI_FX,
            fx_ok(lan),
            fx_ok(ap),
            fx_ok(m0),
            cb.wf(),
        ensures
            r is Ok <==> shape_of(a, e) is Ok,
            r is Err ==> shape_of(a, e) is Err && r->Err_0 == shape_of(a, e)->Err_0,
            r is Ok ==> {
                let k = r->Ok_0;
                &&& k.a == a
                &&& k.e == e
                &&& k.inc == inc
                &&& k.lan == lan
                &&& k.ap == ap
                &&& k.m0 == m0
                &&& k.n == mean_motion_spec(cb.mu, a)
                &&& k.cb == cb
                &&& k.rot == rotation_spec(cb, e, inc, lan, ap)
                &&& k.wf()
                &&& (inc <= EPS_DEGEN && e <= EPS_DEGEN ==> k.rot == mat_id_spec())
            },
    {
        if a <= 0 {
            return Err(ShapeError::NonPositiveSemiMajorAxis);
        }
        if a < A_MIN || a > A_MAX {
            return Err(ShapeError::SemiMajorAxisOutOfRange);
        }
        if e < 0 {
            return Err(ShapeError::NegativeEccentricity);
        }
        let dev: i128 = e - SCALE;
        if -PARA_TOL <= dev && dev <= PARA_TOL {
            return Err(ShapeError::ParabolicEccentricity);
        }
        if e > SCALE {
            return Err(ShapeError::HyperbolicEccentricity);
        }
        let n: i128 = Self::mean_motion(cb.mu, a);
        let mut rot: Mat3Fx = Mat3Fx::identity();
        if inc > EPS_DEGEN {
            let rl: Mat3Fx = rot_axis_angle(cb.k, cos_fx(lan), sin_fx(lan));
            let ri: Mat3Fx = rot_axis_angle(cb.i, cos_fx(inc), sin_fx(inc));
            rot = rl.compose(ri);
        }
        if e > EPS_DEGEN {
            let ra: Mat3Fx = rot_axis_angle(cb.k, cos_fx(ap), sin_fx(ap));
            rot = rot.compose(ra);
        }
        Ok(KOE { a, e, inc, lan, ap, m0, n, rot, cb })
    }

    /// The cached mean motion: `sqrt(mu / a^3)`, in fixed point.
    pub fn mean_motion(mu: i128, a: i128) -> (n: i128)
        requires
            1 <= mu <= FX_LIM,
            A_MIN <= a <= A_MAX,
        ensures
            n == mean_motion_spec(mu, a),
            0 <= n <= FX_LIM,
    {
        proof {
            lemma_div_is_ordered((mu as int) * (SCALE as int), (FX_LIM as int) * (SCALE as int),
                a as int);
            lemma_div_is_ordered_by_denominator((FX_LIM as int) * (SCALE as int), A_MIN as int,
                a as int);
            lemma_div_pos_is_pos((mu as int) * (SCALE as int), a as int);
        }
        let q1: u128 = ((mu as u128) * (SCALE as u128)) / (a as u128);
        proof {
            lemma_div_is_ordered((q1 as int) * (SCALE as int), 1_000_000_000_000_000_000_000 * (
            SCALE as int), a as int);
            lemma_div_is_ordered_by_denominator(1_000_000_000_000_000_000_000 * (SCALE as int),
                A_MIN as int, a as int);
            lemma_div_pos_is_pos((q1 as int) * (SCALE as int), a as int);
        }
        let q2: u128 = (q1 * (SCALE as u128)) / (a as u128);
        proof {
            lemma_div_is_ordered((q2 as int) * (SCALE as int), 1_000_000_000_000_000_000_000_000 * (
            SCALE as int), a as int);
            lemma_div_is_ordered_by_denominator(1_000_000_000_000_000_000_000_000 * (SCALE as int),
                A_MIN as int, a as int);
            lemma_div_pos_is_pos((q2 as int) * (SCALE as int), a as int);
        }
        let q3: u128 = (q2 * (SCALE as u128)) / (a as u128);
        let q4: u128 = q3 * (SCALE as u128);
        let n: u128 = isqrt(q4);
        proof {
            assert(n as int <= FX_LIM as int) by (nonlinear_arith)
                requires
                    is_isqrt(q4 as int, n as int),
                    q4 as int <= 1_000_000_000_000_000_000_000_000_000_000_000_000;
            lemma_isqrt_unique(q4 as int, n as int, sqrt_val(q4 as int));
        }
        n as i128
    }

    /// Advance the epoch by `dt`: the mean anomaly moves linearly with time
    /// at the cached mean motion, stored raw as `m0 + n * dt` (saturating
    /// only at the edge of the working range); the shape, orientation and
    /// cached rotation are untouched, which is exact for unperturbed
    /// two-body motion.
    pub fn tick(&self, dt: i128) -> (s: KOE)
        requires
            self.wf(),
            fx_ok(dt),
        ensures
            s == self.tick_spec(dt),
            s.a == self.a && s.e == self.e && s.inc == self.inc && s.lan == self.lan && s.ap
                == self.ap && s.n == self.n && s.rot == self.rot && s.cb == self.cb,
            s.m0 == fx_clamp(self.m0 + fx_mul(self.n as int, dt as int)),
            dt == 0 ==> s == *self,
            s.wf(),
    {
        proof {
            if dt == 0 {
                assert(fx_mul(self.n as int, 0) == 0) by (nonlinear_arith);
            }
        }
        let dm: i128 = fmul(self.n, dt);
        let m1: i128 = crate::fx::fadd(self.m0, dm);
        KOE { m0: m1, ..*self }
    }

    /// The specific orbital energy determined by the elements, by vis-viva:
    /// `-mu / (2 a)`, in fixed point.
    pub open spec fn energy_fx(self) -> int {
        -tdiv(self.cb.mu * SCALE, 2 * self.a)
    }

    /// The square of the specific angular momentum determined by the
    /// elements, up to the constant scale: `mu * a * (1 - e^2)`.
    pub open spec fn h_shape(self) -> int {
        self.cb.mu * self.a * (((SCALE as int) + self.e) * ((SCALE as int) - self.e))
    }
}

/// The analytic propagator conserves the two-body invariants: after any
/// tick, the energy and the angular momentum determined by the elements are
/// unchanged, as are every element but the mean anomaly.
pub proof fn lemma_tick_conserves(koe: KOE, dt: i128)
    ensures
        koe.tick_spec(dt).energy_fx() == koe.energy_fx(),
        koe.tick_spec(dt).h_shape() == koe.h_shape(),
        koe.tick_spec(dt).a == koe.a,
        koe.tick_spec(dt).e == koe.e,
        koe.tick_spec(dt).inc == koe.inc,
        koe.tick_spec(dt).lan == koe.lan,
        koe.tick_spec(dt).ap == koe.ap,
        koe.tick_spec(dt).n == koe.n,
        koe.tick_spec(dt).rot == koe.rot,
        koe.tick_spec(dt).cb == koe.cb,
{
}

/// Ticking by zero is the identity on well-formed elements.
pub proof fn lemma_tick_zero_identity(koe: KOE)
    requires
        koe.wf(),
    ensures
        koe.tick_spec(0) == koe,
{
    assert(fx_mul(koe.n as int, 0) == 0) by (nonlinear_arith);
}

/// Two successive ticks land within one fixed-point unit of the single
/// combined tick, and every field but the epoch agrees exactly, as long as
/// nothing saturates: the epoch advances linearly up to the truncation of
/// each step's scaling.
pub proof fn lemma_tick_additive(koe: KOE, t1: i128, t2: i128)
    requires
        fx_ok(koe.m0),
        0 <= koe.n <= FX_LIM,
        fx_ok(t1),
        fx_ok(t2),
        iabs(t1 + t2) <= FX_LIM,
        iabs(koe.m0 as int) + iabs(tdiv(koe.n * t1, SCALE as int)) + iabs(
            tdiv(koe.n * t2, SCALE as int),
        ) + 1 <= FX_LIM,
    ensures
        iabs(koe.tick_spec(t1).tick_spec(t2).m0 - koe.tick_spec((t1 + t2) as i128).m0) <= 1,
        koe.tick_spec(t1).tick_spec(t2) == (KOE {
            m0: koe.tick_spec(t1).tick_spec(t2).m0,
            ..koe.tick_spec((t1 + t2) as i128)
        }),
{
    let s = SCALE as int;
    let a = (koe.n as int) * (t1 as int);
    let b = (koe.n as int) * (t2 as int);
    assert((koe.n as int) * (((t1 + t2) as i128) as int) == a + b) by (nonlinear_arith)
        requires
            ((t1 + t2) as i128) as int == t1 + t2,
            a == (koe.n as int) * (t1 as int),
            b == (koe.n as int) * (t2 as int);
    lemma_tdiv_additive(a, b, s);
}

/// Ticking backwards undoes ticking forwards, exactly, as long as the raw
/// epoch stays inside the working range: the truncated scaling of the step
/// is odd, so the two advances cancel term for term.
pub proof fn lemma_tick_undo(koe: KOE, dt: i128)
    requires
        fx_ok(koe.m0),
        fx_ok(dt),
        iabs(koe.m0 + fx_mul(koe.n as int, dt as int)) <= FX_LIM,
    ensures
        koe.tick_spec(dt).tick_spec((-dt) as i128) == koe,
{
    assert((koe.n as int) * ((-dt) as int) == -((koe.n as int) * (dt as int)))
        by (nonlinear_arith);
    assert(fx_mul(koe.n as int, (-dt) as int) == -fx_mul(koe.n as int, dt as int));
}

impl Tick for KOE {
    open spec fn tick_req(&self, dt: i128) -> bool {
        self.wf() && fx_ok(dt)
    }

    open spec fn tick_ens(&self, dt: i128, s: KOE) -> bool {
        s == self.tick_spec(dt)
    }

    fn tick(&self, dt: i128) -> (s: KOE) {
        KOE::tick(self, dt)
    }
}

/// The common quadrant resolution: the principal arc cosine when the sign
/// test is nonnegative, its reflex otherwise, wrapped off a full turn.
pub open spec fn resolve_spec(ang: int, nonneg: bool) -> int {
    if nonneg {
        ang
    } else if TWO_PI_FX - ang >= TWO_PI_FX {
        0
    } else {
        TWO_PI_FX - ang
    }
}

/// What `node_angle` returns.
pub open spec fn node_angle_spec(cb: CB, nvec: Vec3Fx, nn: i128) -> int {
    let ang = acos_spec(fx_clamp(tdiv(dot_raw(nvec, cb.i), nn as int)));
    resolve_spec(ang, dot_raw(nvec, cb.j) >= 0)
}

/// What `periapsis_angle` returns.
pub open spec fn periapsis_angle_spec(h: Vec3Fx, nvec: Vec3Fx, nn: i128, evec: Vec3Fx, es: i128) -> int {
    let un = vdiv_spec(nvec, nn);
    let ue = vdiv_spec(evec, es);
    let ang = acos_spec(fx_clamp(tdiv(dot_raw(un, ue), SCALE as int)));
    resolve_spec(ang, dot_raw(evec, cross_spec(h, nvec)) >= 0)
}

/// What `periapsis_longitude` returns.
pub open spec fn periapsis_longitude_spec(cb: CB, evec: Vec3Fx, es: i128) -> int {
    let ang = acos_spec(fx_clamp(tdiv(dot_raw(evec, cb.i), es as int)));
    resolve_spec(ang, dot_raw(evec, cb.j) >= 0)
}

/// What `anomaly_generic` returns.
pub open spec fn anomaly_generic_spec(evec: Vec3Fx, es: i128, r: Vec3Fx, nr: i128, v: Vec3Fx) -> int {
    let ue = vdiv_spec(evec, es);
    let ang = acos_spec(fx_clamp(tdiv(dot_raw(ue, r), nr as int)));
    resolve_spec(ang, dot_raw(r, v) >= 0)
}

/// What `anomaly_true_longitude` returns: note the negated sign convention.
pub open spec fn anomaly_true_longitude_spec(cb: CB, r: Vec3Fx, nr: i128, v: Vec3Fx) -> int {
    let ang = acos_spec(fx_clamp(tdiv(dot_raw(cb.i, r), nr as int)));
    resolve_spec(ang, dot_raw(cb.i, v) <= 0)
}

/// What `anomaly_arg_latitude` returns: note the negated sign convention.
pub open spec fn anomaly_arg_latitude_spec(nvec: Vec3Fx, nn: i128, r: Vec3Fx, nr: i128, v: Vec3Fx) -> int {
    let un = vdiv_spec(nvec, nn);
    let ang = acos_spec(fx_clamp(tdiv(dot_raw(un, r), nr as int)));
    resolve_spec(ang, dot_raw(nvec, v) <= 0)
}

/// What `mean_from_true` returns: the eccentric anomaly by the half-angle
/// identity, then Kepler's equation forwards, reduced around zero.
pub open spec fn mean_from_true_spec(es: i128, ta: i128) -> int {
    let half = tdiv(ta as int, 2);
    let sh = sin_spec(half);
    let ch = cos_spec(half);
    let sq_m = sqrt_val(((SCALE - es) as int) * (SCALE as int));
    let sq_p = sqrt_val(((SCALE + es) as int) * (SCALE as int));
    let ea = 2 * atan2_spec(fx_mul(sh, sq_m), fx_mul(ch, sq_p));
    wrap_pi(ea - fx_mul(es as int, sin_spec(ea)))
}

/// The norm of the radius vector of a state.
pub open spec fn radius_norm_spec(csv: CSV) -> int {
    sqrt_val(dot_raw(csv.r, csv.r))
}

/// The specific angular momentum of a state.
pub open spec fn momentum_spec(csv: CSV) -> Vec3Fx {
    cross_spec(csv.r, csv.v)
}

/// The norm of the specific angular momentum.
pub open spec fn momentum_norm_spec(csv: CSV) -> int {
    sqrt_val(dot_raw(momentum_spec(csv), momentum_spec(csv)))
}

/// The eccentricity vector: `(v x h) / mu - r / |r|`.
pub open spec fn ecc_vector_spec(csv: CSV) -> Vec3Fx {
    vsub_spec(
        vdiv_spec(cross_spec(csv.v, momentum_spec(csv)), csv.cb.mu),
        vdiv_spec(csv.r, radius_norm_spec(csv) as i128),
    )
}

/// The eccentricity: the norm of the eccentricity vector.
pub open spec fn ecc_norm_spec(csv: CSV) -> int {
    sqrt_val(dot_raw(ecc_vector_spec(csv), ecc_vector_spec(csv)))
}

/// The reciprocal of the semi-major axis by vis-viva: `2 / |r| - v^2 / mu`.
pub open spec fn vis_viva_inv_spec(csv: CSV) -> int {
    fx_clamp(
        fx_clamp(tdiv(2 * (SCALE as int) * (SCALE as int), radius_norm_spec(csv))) - fx_clamp(
            tdiv(dot_raw(csv.v, csv.v), csv.cb.mu as int),
        ),
    )
}

/// The semi-major axis determined by a state.
pub open spec fn axis_spec(csv: CSV) -> int {
    fx_div(SCALE as int, vis_viva_inv_spec(csv))
}

/// The inclination determined by a state, through the clamped arc cosine.
pub open spec fn inclination_spec(csv: CSV) -> int {
    acos_spec(fx_clamp(tdiv(dot_raw(momentum_spec(csv), csv.cb.k), momentum_norm_spec(csv))))
}

/// The node vector: `k x h`.
pub open spec fn node_vector_spec(csv: CSV) -> Vec3Fx {
    cross_spec(csv.cb.k, momentum_spec(csv))
}

/// The norm of the node vector.
pub open spec fn node_norm_spec(csv: CSV) -> int {
    sqrt_val(dot_raw(node_vector_spec(csv), node_vector_spec(csv)))
}

/// Whether the conversion of a state succeeds, and with which error it
/// fails, in checking order.
pub open spec fn from_csv_check(csv: CSV) -> Result<(), ConversionError> {
    if radius_norm_spec(csv) < 1 {
        Err(ConversionError::SingularState)
    } else if momentum_norm_spec(csv) < 1 {
        Err(ConversionError::SingularState)
    } else if ecc_norm_spec(csv) >= SCALE - PARA_TOL {
        if ecc_norm_spec(csv) <= SCALE + PARA_TOL {
            Err(ConversionError::Shape(ShapeError::ParabolicEccentricity))
        } else {
            Err(ConversionError::Shape(ShapeError::HyperbolicEccentricity))
        }
    } else if vis_viva_inv_spec(csv) < 1 {
        Err(ConversionError::Shape(ShapeError::NonPositiveSemiMajorAxis))
    } else if axis_spec(csv) < A_MIN || axis_spec(csv) > A_MAX {
        Err(ConversionError::Shape(ShapeError::SemiMajorAxisOutOfRange))
    } else if inclination_spec(csv) > EPS_DEGEN && node_norm_spec(csv) < 1 {
        Err(ConversionError::SingularState)
    } else {
        Ok(())
    }
}

/// Which node angle the conversion stores: zero for an equatorial orbit.
pub open spec fn lan_sel_spec(csv: CSV) -> int {
    if inclination_spec(csv) <= EPS_DEGEN {
        0
    } else {
        node_angle_spec(csv.cb, node_vector_spec(csv), node_norm_spec(csv) as i128)
    }
}

/// Which periapsis angle the conversion stores: zero for a circular orbit,
/// the longitude of periapsis for an equatorial non-circular one, and the
/// argument of periapsis otherwise.
pub open spec fn ap_sel_spec(csv: CSV) -> int {
    if ecc_norm_spec(csv) <= EPS_DEGEN {
        0
    } else if inclination_spec(csv) <= EPS_DEGEN {
        periapsis_longitude_spec(csv.cb, ecc_vector_spec(csv), ecc_norm_spec(csv) as i128)
    } else {
        periapsis_angle_spec(
            momentum_spec(csv),
            node_vector_spec(csv),
            node_norm_spec(csv) as i128,
            ecc_vector_spec(csv),
            ecc_norm_spec(csv) as i128,
        )
    }
}

/// Which anomaly the conversion reads off the state: the true anomaly, or
/// its substitute for a circular orbit.
pub open spec fn ta_sel_spec(csv: CSV) -> int {
    if ecc_norm_spec(csv) > EPS_DEGEN {
        anomaly_generic_spec(
            ecc_vector_spec(csv),
            ecc_norm_spec(csv) as i128,
            csv.r,
            radius_norm_spec(csv) as i128,
            csv.v,
        )
    } else if inclination_spec(csv) <= EPS_DEGEN {
        anomaly_true_longitude_spec(csv.cb, csv.r, radius_norm_spec(csv) as i128, csv.v)
    } else {
        anomaly_arg_latitude_spec(
            node_vector_spec(csv),
            node_norm_spec(csv) as i128,
            csv.r,
            radius_norm_spec(csv) as i128,
            csv.v,
        )
    }
}

/// The epoch angle the conversion stores, before its reduction.
pub open spec fn m0_sel_spec(csv: CSV) -> int {
    mean_from_true_spec(ecc_norm_spec(csv) as i128, ta_sel_spec(csv) as i128)
}

/// The whole element set the conversion of a state builds when it
/// succeeds, field by field.
pub open spec fn elements_spec(csv: CSV) -> KOE {
    KOE {
        a: axis_spec(csv) as i128,
        e: ecc_norm_spec(csv) as i128,
        inc: inclination_spec(csv) as i128,
        lan: lan_sel_spec(csv) as i128,
        ap: ap_sel_spec(csv) as i128,
        m0: m0_sel_spec(csv) as i128,
        n: mean_motion_spec(csv.cb.mu, axis_spec(csv) as i128) as i128,
        rot: rotation_spec(
            csv.cb,
            ecc_norm_spec(csv) as i128,
            inclination_spec(csv) as i128,
            lan_sel_spec(csv) as i128,
            ap_sel_spec(csv) as i128,
        ),
        cb: csv.cb,
    }
}

impl KOE {
    /// Build the orbital elements of a Cartesian state.
    ///
    /// The specific angular momentum, the eccentricity vector and the node
    /// vector drive the classical formulas; the degeneracy overrides are
    /// applied in their stated precedence: a circular orbit zeroes the
    /// argument of periapsis, an equatorial orbit zeroes the node and, when
    /// not circular, redefines the periapsis angle as the longitude of
    /// periapsis; a circular orbit replaces the true anomaly by the true
    /// longitude (equatorial) or the argument of latitude (inclined).
    /// Shapes outside the bound elliptical case come back as errors, as do
    /// singular states (zero radius or zero angular momentum).
    #[verifier::rlimit(60)]
    pub fn from_csv(csv: &CSV) -> (result: Result<KOE, ConversionError>)
        requires
            csv.wf(),
        ensures
            result is Ok <==> from_csv_check(*csv) is Ok,
            result is Err ==> result->Err_0 == from_csv_check(*csv)->Err_0,
            result is Ok ==> {
                let k = result->Ok_0;
                &&& k.a == axis_spec(*csv)
                &&& k.e == ecc_norm_spec(*csv)
                &&& k.inc == inclination_spec(*csv)
                &&& k.lan == lan_sel_spec(*csv)
                &&& k.ap == ap_sel_spec(*csv)
                &&& k.m0 == m0_sel_spec(*csv)
                &&& k.n == mean_motion_spec(csv.cb.mu, axis_spec(*csv) as i128)
                &&& k.rot == rotation_spec(
                    csv.cb,
                    ecc_norm_spec(*csv) as i128,
                    inclination_spec(*csv) as i128,
                    lan_sel_spec(*csv) as i128,
                    ap_sel_spec(*csv) as i128,
                )
                &&& k.cb == csv.cb
                &&& k == elements_spec(*csv)
                &&& k.wf()
            },
            result is Ok && result->Ok_0.e <= EPS_DEGEN ==> result->Ok_0.ap == 0,
            result is Ok && result->Ok_0.inc <= EPS_DEGEN ==> result->Ok_0.lan == 0,
    {
        let r: Vec3Fx = csv.r;
        let v: Vec3Fx = csv.v;
        let cb: CB = csv.cb;
        let nr: i128 = r.norm();
        if nr < 1 {
            return Err(ConversionError::SingularState);
        }
        // Specific angular momentum.
        let h: Vec3Fx = r.cross(v);
        let nh: i128 = h.norm();
        if nh < 1 {
            return Err(ConversionError::SingularState);
        }
        // Eccentricity vector: (v x h) / mu - r / |r|.
        let evec: Vec3Fx = v.cross(h).vdiv(cb.mu).vsub(r.vdiv(nr));
        let es: i128 = evec.norm();
        if es >= SCALE - PARA_TOL {
            if es <= SCALE + PARA_TOL {
                return Err(ConversionError::Shape(ShapeError::ParabolicEccentricity));
            }
            return Err(ConversionError::Shape(ShapeError::HyperbolicEccentricity));
        }
        // Semi-major axis from vis-viva: a = 1 / (2 / |r| - v^2 / mu).
        let ss2: i128 = 2 * crate::vec3::mul_i(SCALE, SCALE);
        let t1: i128 = tdiv_clamp(ss2, nr);
        let t2: i128 = tdiv_clamp(v.dot(v), cb.mu);
        let inv: i128 = crate::fx::fsub(t1, t2);
        if inv < 1 {
            return Err(ConversionError::Shape(ShapeError::NonPositiveSemiMajorAxis));
        }
        let a: i128 = crate::fx::fdiv(SCALE, inv);
        if a < A_MIN || a > A_MAX {
            return Err(ConversionError::Shape(ShapeError::SemiMajorAxisOutOfRange));
        }
        // Inclination, with the cosine clamped against round-off.
        let cos_inc: i128 = tdiv_clamp(h.dot(cb.k), nh);
        let inc: i128 = acos_fx(cos_inc);
        // Node vector.
        let nvec: Vec3Fx = cb.k.cross(h);
        let nn: i128 = nvec.norm();
        let equatorial: bool = inc <= EPS_DEGEN;
        let circular: bool = es <= EPS_DEGEN;
        if !equatorial && nn < 1 {
            return Err(ConversionError::SingularState);
        }
        let mut lan: i128 = 0;
        let mut ap: i128 = 0;
        if !equatorial {
            lan = Self::node_angle(&cb, &nvec, nn);
            if !circular {
                ap = Self::periapsis_angle(&h, &nvec, nn, &evec, es);
            }
        } else {
            if !circular {
                ap = Self::periapsis_longitude(&cb, &evec, es);
            }
        }
        let ta: i128 = if !circular {
            Self::anomaly_generic(&evec, es, &r, nr, &v)
        } else if equatorial {
            Self::anomaly_true_longitude(&cb, &r, nr, &v)
        } else {
            Self::anomaly_arg_latitude(&nvec, nn, &r, nr, &v)
        };
        let m0: i128 = Self::mean_from_true(es, ta);
        proof {
            assert(shape_of(a, es) is Ok);
        }
        match KOE::new(a, es, inc, lan, ap, m0, cb) {
            Ok(k) => Ok(k),
            Err(se) => Err(ConversionError::Shape(se)),
        }
    }

    /// The longitude of the ascending node: the angle from the reference
    /// axis to the node vector, resolved into `[0, 2 pi)` by the sign of
    /// the node vector against the `j` axis.
    fn node_angle(cb: &CB, nvec: &Vec3Fx, nn: i128) -> (lan: i128)
        requires
            cb.wf(),
            vec_ok(*nvec),
            1 <= nn <= NORM_MAX,
        ensures
            lan == node_angle_spec(*cb, *nvec, nn),
            0 <= lan < TWO_PI_FX,
    {
        let c: i128 = tdiv_clamp(nvec.dot(cb.i), nn);
        let ang: i128 = acos_fx(c);
        if nvec.dot(cb.j) >= 0 {
            ang
        } else {
            let l: i128 = TWO_PI_FX - ang;
            if l >= TWO_PI_FX {
                0
            } else {
                l
            }
        }
    }

    /// The argument of periapsis: the angle from the node vector to the
    /// eccentricity vector, resolved by the sign of the eccentricity vector
    /// against `h x n`.
    fn periapsis_angle(h: &Vec3Fx, nvec: &Vec3Fx, nn: i128, evec: &Vec3Fx, es: i128) -> (ap: i128)
        requires
            vec_ok(*h),
            vec_ok(*nvec),
            vec_ok(*evec),
            1 <= nn <= NORM_MAX,
            1 <= es <= NORM_MAX,
        ensures
            ap == periapsis_angle_spec(*h, *nvec, nn, *evec, es),
            0 <= ap < TWO_PI_FX,
    {
        let un: Vec3Fx = nvec.vdiv(nn);
        let ue: Vec3Fx = evec.vdiv(es);
        let c: i128 = tdiv_clamp(un.dot(ue), SCALE);
        let ang: i128 = acos_fx(c);
        if evec.dot(h.cross(*nvec)) >= 0 {
            ang
        } else {
            let w: i128 = TWO_PI_FX - ang;
            if w >= TWO_PI_FX {
                0
            } else {
                w
            }
        }
    }

    /// The longitude of periapsis, for an equatorial non-circular orbit:
    /// the angle from the reference axis to the eccentricity vector,
    /// resolved by its sign against the `j` axis.
    fn periapsis_longitude(cb: &CB, evec: &Vec3Fx, es: i128) -> (ap: i128)
        requires
            cb.wf(),
            vec_ok(*evec),
            1 <= es <= NORM_MAX,
        ensures
            ap == periapsis_longitude_spec(*cb, *evec, es),
            0 <= ap < TWO_PI_FX,
    {
        let c: i128 = tdiv_clamp(evec.dot(cb.i), es);
        let ang: i128 = acos_fx(c);
        if evec.dot(cb.j) >= 0 {
            ang
        } else {
            let w: i128 = TWO_PI_FX - ang;
            if w >= TWO_PI_FX {
                0
            } else {
                w
            }
        }
    }

    /// The true anomaly: the angle from the eccentricity vector to the
    /// radius vector, resolved by the sign of `r . v`.
    fn anomaly_generic(evec: &Vec3Fx, es: i128, r: &Vec3Fx, nr: i128, v: &Vec3Fx) -> (ta: i128)
        requires
            vec_ok(*evec),
            vec_ok(*r),
            vec_ok(*v),
            1 <= es <= NORM_MAX,
            1 <= nr <= NORM_MAX,
        ensures
            ta == anomaly_generic_spec(*evec, es, *r, nr, *v),
            0 <= ta < TWO_PI_FX,
    {
        let ue: Vec3Fx = evec.vdiv(es);
        let c: i128 = tdiv_clamp(ue.dot(*r), nr);
        let ang: i128 = acos_fx(c);
        if r.dot(*v) >= 0 {
            ang
        } else {
            let w: i128 = TWO_PI_FX - ang;
            if w >= TWO_PI_FX {
                0
            } else {
                w
            }
        }
    }

    /// The true longitude, replacing the true anomaly for a circular
    /// equatorial orbit: the angle from the reference axis to the radius
    /// vector, resolved by the negated sign convention on `i . v`.
    fn anomaly_true_longitude(cb: &CB, r: &Vec3Fx, nr: i128, v: &Vec3Fx) -> (ta: i128)
        requires
            cb.wf(),
            vec_ok(*r),
            vec_ok(*v),
            1 <= nr <= NORM_MAX,
        ensures
            ta == anomaly_true_longitude_spec(*cb, *r, nr, *v),
            0 <= ta < TWO_PI_FX,
    {
        let c: i128 = tdiv_clamp(cb.i.dot(*r), nr);
        let ang: i128 = acos_fx(c);
        if cb.i.dot(*v) <= 0 {
            ang
        } else {
            let w: i128 = TWO_PI_FX - ang;
            if w >= TWO_PI_FX {
                0
            } else {
                w
            }
        }
    }

    /// The argument of latitude, replacing the true anomaly for a circular
    /// inclined orbit: the angle from the node vector to the radius vector,
    /// resolved by the negated sign convention on `n . v`.
    fn anomaly_arg_latitude(nvec: &Vec3Fx, nn: i128, r: &Vec3Fx, nr: i128, v: &Vec3Fx) -> (ta:
        i128)
        requires
            vec_ok(*nvec),
            vec_ok(*r),
            vec_ok(*v),
            1 <= nn <= NORM_MAX,
            1 <= nr <= NORM_MAX,
        ensures
            ta == anomaly_arg_latitude_spec(*nvec, nn, *r, nr, *v),
            0 <= ta < TWO_PI_FX,
    {
        let un: Vec3Fx = nvec.vdiv(nn);
        let c: i128 = tdiv_clamp(un.dot(*r), nr);
        let ang: i128 = acos_fx(c);
        if nvec.dot(*v) <= 0 {
            ang
        } else {
            let w: i128 = TWO_PI_FX - ang;
            if w >= TWO_PI_FX {
                0
            } else {
                w
            }
        }
    }

    /// The mean anomaly from the true anomaly: the eccentric anomaly by the
    /// half-angle identity, then Kepler's equation forwards, reduced into
    /// the half-open turn around zero.
    fn mean_from_true(es: i128, ta: i128) -> (m0: i128)
        requires
            0 <= es < SCALE,
            0 <= ta < TWO_PI_FX,
        ensures
            m0 == mean_from_true_spec(es, ta),
            -(TWO_PI_FX - PI_FX) < m0 <= PI_FX,
    {
        let half_ta: i128 = crate::fx::fhalf(ta);
        let sh: i128 = sin_fx(half_ta);
        let ch: i128 = cos_fx(half_ta);
        let sq_m: i128 = crate::fx::sqrt_fx(crate::fx::fsub(SCALE, es));
        let sq_p: i128 = crate::fx::sqrt_fx(crate::fx::fadd(SCALE, es));
        let ea: i128 = 2 * atan2_fx(crate::fx::fmul(sh, sq_m), crate::fx::fmul(ch, sq_p));
        let m: i128 = ea - crate::fx::fmul(es, sin_fx(ea));
        norm_angle_pi(m)
    }
}

} // verus!
