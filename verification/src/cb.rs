//! The central body: a gravitational parameter and a local basis.
//!
//! The basis must be an orthonormal right-handed triple within the stated
//! tolerances; construction checks this and never corrects a bad basis.
//! A central body is an immutable value after construction: every state
//! built against it carries a copy and nothing ever mutates one.

use vstd::prelude::*;
use crate::errors::ValidationError;
use crate::fx::{fx_ok, fx_clamp, iabs, tdiv, SCALE, FX_LIM};
use crate::vec3::{Vec3Fx, vec_ok, dot_raw, cross_spec, mul_i, tdiv_clamp};

verus! {

/// Tolerance on the raw dot product of two basis vectors (scale squared).
pub const ORTHO_TOL: i128 = 2_000_000_000_000;

/// Tolerance on the raw self dot product against one (scale squared).
pub const UNIT_TOL: i128 = 2_000_000_000_000;

/// Tolerance, per component, on `cross(i, j)` against `k` (vector scale).
pub const CROSS_TOL: i128 = 2_000;

/// Largest component a unit basis vector can have.
pub const BASIS_MAX: i128 = 1_100_000_000;

/// Two basis vectors count as perpendicular.
pub open spec fn orthogonal_ok(a: Vec3Fx, b: Vec3Fx) -> bool {
    iabs(dot_raw(a, b)) <= ORTHO_TOL
}

/// A basis vector counts as unit length.
pub open spec fn unit_ok(a: Vec3Fx) -> bool {
    iabs(dot_raw(a, a) - (SCALE as int) * (SCALE as int)) <= UNIT_TOL
}

/// The triple counts as right-handed: `cross(i, j)` lands on `k`.
pub open spec fn handed_ok(i: Vec3Fx, j: Vec3Fx, k: Vec3Fx) -> bool {
    let c = cross_spec(i, j);
    iabs(c.x - k.x) <= CROSS_TOL && iabs(c.y - k.y) <= CROSS_TOL && iabs(c.z - k.z) <= CROSS_TOL
}

/// The full basis invariant.
pub open spec fn basis_ok(i: Vec3Fx, j: Vec3Fx, k: Vec3Fx) -> bool {
    orthogonal_ok(i, j) && orthogonal_ok(i, k) && orthogonal_ok(j, k) && unit_ok(i) && unit_ok(j)
        && unit_ok(k) && handed_ok(i, j, k)
}

/// Central body: standard gravitational parameter and a local coordinate
/// system.  `i` points along the reference direction in the equator plane,
/// `k` towards the pole, and `j` completes the right-handed triple.
#[derive(Clone, Copy, PartialEq, Eq, Structural, Debug)]
pub struct CB {
    /// Standard gravitational parameter.
    pub mu: i128,
    /// Unit vector towards the reference direction on the equator.
    pub i: Vec3Fx,
    /// Unit vector completing the right-handed basis: `cross(k, i)`.
    pub j: Vec3Fx,
    /// Unit vector towards the pole.
    pub k: Vec3Fx,
}

impl CB {
    /// The invariant every constructed central body satisfies.
    pub open spec fn wf(self) -> bool {
        basis_ok(self.i, self.j, self.k) && 1 <= self.mu <= FX_LIM && vec_ok(self.i) && vec_ok(
            self.j,
        ) && vec_ok(self.k)
    }

    /// What `new` returns: the checks in order, each with its error kind.
    pub open spec fn new_spec(mu: i128, i: Vec3Fx, j: Vec3Fx, k: Vec3Fx) -> Result<
        CB,
        ValidationError,
    > {
        if !(orthogonal_ok(i, j) && orthogonal_ok(i, k) && orthogonal_ok(j, k)) {
            Err(ValidationError::NotOrthogonal)
        } else if !(unit_ok(i) && unit_ok(j) && unit_ok(k)) {
            Err(ValidationError::NotUnitLength)
        } else if !handed_ok(i, j, k) {
            Err(ValidationError::NotRightHanded)
        } else if mu < 1 {
            Err(ValidationError::NonPositiveMu)
        } else {
            Ok(CB { mu, i, j, k })
        }
    }

    /// Build a central body, checking that `i`, `j`, `k` form an orthonormal
    /// right-handed basis and that `mu` is positive.  Fails fast: a bad basis
    /// is reported, never corrected.
    pub fn new(mu: i128, i: Vec3Fx, j: Vec3Fx, k: Vec3Fx) -> (r: Result<CB, ValidationError>)
        requires
            fx_ok(mu),
            vec_ok(i),
            vec_ok(j),
            vec_ok(k),
        ensures
            r == Self::new_spec(mu, i, j, k),
            r is Ok ==> r->Ok_0.wf() && r->Ok_0.mu == mu && r->Ok_0.i == i && r->Ok_0.j == j
                && r->Ok_0.k == k,
    {
        let dij: i128 = i.dot(j);
        let dik: i128 = i.dot(k);
        let djk: i128 = j.dot(k);
        if dij > ORTHO_TOL || dij < -ORTHO_TOL || dik > ORTHO_TOL || dik < -ORTHO_TOL || djk
            > ORTHO_TOL || djk < -ORTHO_TOL {
            return Err(ValidationError::NotOrthogonal);
        }
        let one: i128 = mul_i(SCALE, SCALE);
        let ni: i128 = i.dot(i) - one;
        let nj: i128 = j.dot(j) - one;
        let nk: i128 = k.dot(k) - one;
        if ni > UNIT_TOL || ni < -UNIT_TOL || nj > UNIT_TOL || nj < -UNIT_TOL || nk > UNIT_TOL || nk
            < -UNIT_TOL {
            return Err(ValidationError::NotUnitLength);
        }
        let c: Vec3Fx = i.cross(j);
        let ex: i128 = c.x - k.x;
        let ey: i128 = c.y - k.y;
        let ez: i128 = c.z - k.z;
        if ex > CROSS_TOL || ex < -CROSS_TOL || ey > CROSS_TOL || ey < -CROSS_TOL || ez > CROSS_TOL
            || ez < -CROSS_TOL {
            return Err(ValidationError::NotRightHanded);
        }
        if mu < 1 {
            return Err(ValidationError::NonPositiveMu);
        }
        Ok(CB { mu, i, j, k })
    }

    /// What `change_cb` returns: project onto this basis, recombine in the
    /// other, with one exact truncated division at the end.
    pub open spec fn change_cb_spec(self, vec: Vec3Fx, other: CB) -> Vec3Fx {
        let d1 = dot_raw(vec, self.i);
        let d2 = dot_raw(vec, self.j);
        let d3 = dot_raw(vec, self.k);
        let ss = (SCALE as int) * (SCALE as int);
        Vec3Fx {
            x: fx_clamp(tdiv(other.i.x * d1 + other.j.x * d2 + other.k.x * d3, ss)) as i128,
            y: fx_clamp(tdiv(other.i.y * d1 + other.j.y * d2 + other.k.y * d3, ss)) as i128,
            z: fx_clamp(tdiv(other.i.z * d1 + other.j.z * d2 + other.k.z * d3, ss)) as i128,
        }
    }

    /// Re-express a vector given in this body's basis in `other`'s basis.
    /// Both bases share their origin: a pure rotation, no translation.
    pub fn change_cb(&self, vec: Vec3Fx, other: &CB) -> (r: Vec3Fx)
        requires
            self.wf(),
            other.wf(),
            vec_ok(vec),
        ensures
            r == self.change_cb_spec(vec, *other),
            vec_ok(r),
    {
        proof {
            lemma_basis_component_bound(self.i);
            lemma_basis_component_bound(self.j);
            lemma_basis_component_bound(self.k);
            lemma_basis_component_bound(other.i);
            lemma_basis_component_bound(other.j);
            lemma_basis_component_bound(other.k);
            lemma_projection_bound(vec, self.i);
            lemma_projection_bound(vec, self.j);
            lemma_projection_bound(vec, self.k);
        }
        let d1: i128 = vec.dot(self.i);
        let d2: i128 = vec.dot(self.j);
        let d3: i128 = vec.dot(self.k);
        proof {
            lemma_recombination_bound(other.i.x as int, other.j.x as int, other.k.x as int,
                d1 as int, d2 as int, d3 as int);
            lemma_recombination_bound(other.i.y as int, other.j.y as int, other.k.y as int,
                d1 as int, d2 as int, d3 as int);
            lemma_recombination_bound(other.i.z as int, other.j.z as int, other.k.z as int,
                d1 as int, d2 as int, d3 as int);
        }
        let nx: i128 = other.i.x * d1 + other.j.x * d2 + other.k.x * d3;
        let ny: i128 = other.i.y * d1 + other.j.y * d2 + other.k.y * d3;
        let nz: i128 = other.i.z * d1 + other.j.z * d2 + other.k.z * d3;
        let ss: i128 = mul_i(SCALE, SCALE);
        Vec3Fx { x: tdiv_clamp(nx, ss), y: tdiv_clamp(ny, ss), z: tdiv_clamp(nz, ss) }
    }
}

/// A vector of unit length within tolerance has components below `BASIS_MAX`.
pub proof fn lemma_basis_component_bound(v: Vec3Fx)
    by (nonlinear_arith)
    requires
        unit_ok(v),
    ensures
        -BASIS_MAX <= v.x <= BASIS_MAX,
        -BASIS_MAX <= v.y <= BASIS_MAX,
        -BASIS_MAX <= v.z <= BASIS_MAX,
{
}

/// A projection of a bounded vector onto a unit axis is bounded.
proof fn lemma_projection_bound(v: Vec3Fx, axis: Vec3Fx)
    by (nonlinear_arith)
    requires
        vec_ok(v),
        -BASIS_MAX <= axis.x <= BASIS_MAX,
        -BASIS_MAX <= axis.y <= BASIS_MAX,
        -BASIS_MAX <= axis.z <= BASIS_MAX,
    ensures
        -3 * (FX_LIM as int) * (BASIS_MAX as int) <= dot_raw(v, axis) <= 3 * (FX_LIM as int) * (
        BASIS_MAX as int),
{
}

/// Recombining three bounded projections along unit axes cannot overflow.
proof fn lemma_recombination_bound(c1: int, c2: int, c3: int, d1: int, d2: int, d3: int)
    by (nonlinear_arith)
    requires
        -BASIS_MAX <= c1 <= BASIS_MAX,
        -BASIS_MAX <= c2 <= BASIS_MAX,
        -BASIS_MAX <= c3 <= BASIS_MAX,
        -3 * (FX_LIM as int) * (BASIS_MAX as int) <= d1 <= 3 * (FX_LIM as int) * (BASIS_MAX as int),
        -3 * (FX_LIM as int) * (BASIS_MAX as int) <= d2 <= 3 * (FX_LIM as int) * (BASIS_MAX as int),
        -3 * (FX_LIM as int) * (BASIS_MAX as int) <= d3 <= 3 * (FX_LIM as int) * (BASIS_MAX as int),
    ensures
        iabs(c1 * d1) <= 3 * (FX_LIM as int) * (BASIS_MAX as int) * (BASIS_MAX as int),
        iabs(c2 * d2) <= 3 * (FX_LIM as int) * (BASIS_MAX as int) * (BASIS_MAX as int),
        iabs(c3 * d3) <= 3 * (FX_LIM as int) * (BASIS_MAX as int) * (BASIS_MAX as int),
        iabs(c1 * d1 + c2 * d2 + c3 * d3) <= 9 * (FX_LIM as int) * (BASIS_MAX as int) * (
        BASIS_MAX as int) < i128::MAX,
{
}

/// A basis whose first two vectors coincide is rejected: the self dot
/// product of a unit vector is far above the orthogonality tolerance.
pub proof fn lemma_equal_axes_rejected(mu: i128, i: Vec3Fx, k: Vec3Fx)
    requires
        unit_ok(i),
    ensures
        CB::new_spec(mu, i, i, k) is Err,
{
    assert(dot_raw(i, i) >= (SCALE as int) * (SCALE as int) - UNIT_TOL);
}

/// A left-handed triple is rejected: if `cross(i, j)` lands exactly on the
/// antipode of a unit `k`, the handedness check cannot pass, whatever the
/// other checks say.
pub proof fn lemma_left_handed_rejected(mu: i128, i: Vec3Fx, j: Vec3Fx, k: Vec3Fx)
    requires
        unit_ok(k),
        cross_spec(i, j).x == -k.x && cross_spec(i, j).y == -k.y && cross_spec(i, j).z == -k.z,
    ensures
        CB::new_spec(mu, i, j, k) is Err,
{
    if handed_ok(i, j, k) {
        let c = cross_spec(i, j);
        assert(iabs(c.x as int - k.x) == iabs(2 * (k.x as int)));
        assert(iabs(k.x as int) <= CROSS_TOL && iabs(k.y as int) <= CROSS_TOL && iabs(k.z as int) <= CROSS_TOL);
        assert(dot_raw(k, k) <= 3 * (CROSS_TOL as int) * (CROSS_TOL as int)) by (nonlinear_arith)
            requires
                iabs(k.x as int) <= CROSS_TOL && iabs(k.y as int) <= CROSS_TOL && iabs(k.z as int)
                    <= CROSS_TOL;
        assert(false);
    }
}

} // verus!
