//! Fixed-point 3-vectors and 3x3 matrices.
//!
//! Components carry the same scale as the scalars in `fx`.  A dot product is
//! returned raw (scaled by `SCALE * SCALE`), since callers divide it by a
//! norm or by `SCALE` themselves; every other operation keeps the scale.

use vstd::prelude::*;
use crate::fx::{
    fx_ok, fx_clamp, fx_mul, fx_div, tdiv, is_isqrt, sqrt_val, fadd, fsub, fmul, fdiv, isqrt,
    lemma_isqrt_unique, SCALE, FX_LIM,
};

verus! {

/// Largest value a vector norm can take.
pub const NORM_MAX: i128 = 1_800_000_000_000_000_000;

#[derive(Clone, Copy, PartialEq, Eq, Structural, Debug)]
pub struct Vec3Fx {
    pub x: i128,
    pub y: i128,
    pub z: i128,
}

pub open spec fn vec_ok(v: Vec3Fx) -> bool {
    fx_ok(v.x) && fx_ok(v.y) && fx_ok(v.z)
}

/// The dot product before rescaling: carries `SCALE * SCALE`.
pub open spec fn dot_raw(a: Vec3Fx, b: Vec3Fx) -> int {
    a.x * b.x + a.y * b.y + a.z * b.z
}

/// The cross product, brought back to vector scale.
pub open spec fn cross_spec(a: Vec3Fx, b: Vec3Fx) -> Vec3Fx {
    Vec3Fx {
        x: fx_clamp(tdiv(a.y * b.z - a.z * b.y, SCALE as int)) as i128,
        y: fx_clamp(tdiv(a.z * b.x - a.x * b.z, SCALE as int)) as i128,
        z: fx_clamp(tdiv(a.x * b.y - a.y * b.x, SCALE as int)) as i128,
    }
}

pub open spec fn vadd_spec(a: Vec3Fx, b: Vec3Fx) -> Vec3Fx {
    Vec3Fx {
        x: fx_clamp(a.x + b.x) as i128,
        y: fx_clamp(a.y + b.y) as i128,
        z: fx_clamp(a.z + b.z) as i128,
    }
}

pub open spec fn vsub_spec(a: Vec3Fx, b: Vec3Fx) -> Vec3Fx {
    Vec3Fx {
        x: fx_clamp(a.x - b.x) as i128,
        y: fx_clamp(a.y - b.y) as i128,
        z: fx_clamp(a.z - b.z) as i128,
    }
}

pub open spec fn vscale_spec(v: Vec3Fx, s: i128) -> Vec3Fx {
    Vec3Fx {
        x: fx_mul(v.x as int, s as int) as i128,
        y: fx_mul(v.y as int, s as int) as i128,
        z: fx_mul(v.z as int, s as int) as i128,
    }
}

pub open spec fn vdiv_spec(v: Vec3Fx, d: i128) -> Vec3Fx {
    Vec3Fx {
        x: fx_div(v.x as int, d as int) as i128,
        y: fx_div(v.y as int, d as int) as i128,
        z: fx_div(v.z as int, d as int) as i128,
    }
}

/// Exact product of two bounded scalars.
pub fn mul_i(a: i128, b: i128) -> (r: i128)
    requires
        fx_ok(a),
        fx_ok(b),
    ensures
        r == a * b,
{
    assert(-((FX_LIM as int) * (FX_LIM as int)) <= (a as int) * (b as int) <= (FX_LIM as int) * (
    FX_LIM as int)) by (nonlinear_arith)
        requires
            -FX_LIM <= a as int <= FX_LIM,
            -FX_LIM <= b as int <= FX_LIM;
    a * b
}

/// Truncated division by a positive divisor, clamped into fixed-point range.
pub fn tdiv_clamp(a: i128, b: i128) -> (r: i128)
    requires
        a != i128::MIN,
        1 <= b,
    ensures
        r == fx_clamp(tdiv(a as int, b as int)),
        fx_ok(r),
{
    let neg: bool = a < 0;
    let ma: u128 = if a >= 0 {
        a as u128
    } else {
        (-a) as u128
    };
    let p: u128 = ma / (b as u128);
    let c: u128 = if p > FX_LIM as u128 {
        FX_LIM as u128
    } else {
        p
    };
    if neg {
        -(c as i128)
    } else {
        c as i128
    }
}

impl Vec3Fx {
    pub fn new(x: i128, y: i128, z: i128) -> (r: Vec3Fx)
        ensures
            r.x == x && r.y == y && r.z == z,
    {
        Vec3Fx { x, y, z }
    }

    pub fn zero() -> (r: Vec3Fx)
        ensures
            r.x == 0 && r.y == 0 && r.z == 0,
            vec_ok(r),
    {
        Vec3Fx { x: 0, y: 0, z: 0 }
    }

    /// Componentwise sum, saturating.
    pub fn vadd(self, o: Vec3Fx) -> (r: Vec3Fx)
        requires
            vec_ok(self),
            vec_ok(o),
        ensures
            r == vadd_spec(self, o),
            vec_ok(r),
    {
        Vec3Fx { x: fadd(self.x, o.x), y: fadd(self.y, o.y), z: fadd(self.z, o.z) }
    }

    /// Componentwise difference, saturating.
    pub fn vsub(self, o: Vec3Fx) -> (r: Vec3Fx)
        requires
            vec_ok(self),
            vec_ok(o),
        ensures
            r == vsub_spec(self, o),
            vec_ok(r),
    {
        Vec3Fx { x: fsub(self.x, o.x), y: fsub(self.y, o.y), z: fsub(self.z, o.z) }
    }

    /// Multiply by a fixed-point scalar.
    pub fn vscale(self, s: i128) -> (r: Vec3Fx)
        requires
            vec_ok(self),
            fx_ok(s),
        ensures
            r == vscale_spec(self, s),
            vec_ok(r),
    {
        Vec3Fx { x: fmul(self.x, s), y: fmul(self.y, s), z: fmul(self.z, s) }
    }

    /// Divide by a positive scalar (for example a norm).
    pub fn vdiv(self, d: i128) -> (r: Vec3Fx)
        requires
            vec_ok(self),
            1 <= d <= crate::fx::DIV_MAX,
        ensures
            r == vdiv_spec(self, d),
            vec_ok(r),
    {
        Vec3Fx { x: fdiv(self.x, d), y: fdiv(self.y, d), z: fdiv(self.z, d) }
    }

    /// Dot product, raw: the result carries `SCALE * SCALE`.
    pub fn dot(self, o: Vec3Fx) -> (r: i128)
        requires
            vec_ok(self),
            vec_ok(o),
        ensures
            r == dot_raw(self, o),
            -3 * (FX_LIM as int) * (FX_LIM as int) <= r <= 3 * (FX_LIM as int) * (FX_LIM as int),
    {
        let px: i128 = mul_i(self.x, o.x);
        let py: i128 = mul_i(self.y, o.y);
        let pz: i128 = mul_i(self.z, o.z);
        proof {
            assert(-((FX_LIM as int) * (FX_LIM as int)) <= px as int <= (FX_LIM as int) * (
            FX_LIM as int)) by (nonlinear_arith)
                requires
                    px == (self.x as int) * (o.x as int),
                    -FX_LIM <= self.x as int <= FX_LIM,
                    -FX_LIM <= o.x as int <= FX_LIM;
            assert(-((FX_LIM as int) * (FX_LIM as int)) <= py as int <= (FX_LIM as int) * (
            FX_LIM as int)) by (nonlinear_arith)
                requires
                    py == (self.y as int) * (o.y as int),
                    -FX_LIM <= self.y as int <= FX_LIM,
                    -FX_LIM <= o.y as int <= FX_LIM;
            assert(-((FX_LIM as int) * (FX_LIM as int)) <= pz as int <= (FX_LIM as int) * (
            FX_LIM as int)) by (nonlinear_arith)
                requires
                    pz == (self.z as int) * (o.z as int),
                    -FX_LIM <= self.z as int <= FX_LIM,
                    -FX_LIM <= o.z as int <= FX_LIM;
        }
        px + py + pz
    }

    /// Cross product, brought back to vector scale, saturating.
    pub fn cross(self, o: Vec3Fx) -> (r: Vec3Fx)
        requires
            vec_ok(self),
            vec_ok(o),
        ensures
            r == cross_spec(self, o),
            vec_ok(r),
    {
        proof {
            lemma_prod_bound(self.y as int, o.z as int);
            lemma_prod_bound(self.z as int, o.y as int);
            lemma_prod_bound(self.z as int, o.x as int);
            lemma_prod_bound(self.x as int, o.z as int);
            lemma_prod_bound(self.x as int, o.y as int);
            lemma_prod_bound(self.y as int, o.x as int);
        }
        let cx: i128 = mul_i(self.y, o.z) - mul_i(self.z, o.y);
        let cy: i128 = mul_i(self.z, o.x) - mul_i(self.x, o.z);
        let cz: i128 = mul_i(self.x, o.y) - mul_i(self.y, o.x);
        Vec3Fx {
            x: tdiv_clamp(cx, SCALE),
            y: tdiv_clamp(cy, SCALE),
            z: tdiv_clamp(cz, SCALE),
        }
    }

    /// Euclidean norm: the square root of the raw self dot product.
    pub fn norm(self) -> (r: i128)
        requires
            vec_ok(self),
        ensures
            is_isqrt(dot_raw(self, self), r as int),
            r as int == sqrt_val(dot_raw(self, self)),
            0 <= r <= NORM_MAX,
    {
        proof {
            lemma_square_nonneg(self.x as int);
            lemma_square_nonneg(self.y as int);
            lemma_square_nonneg(self.z as int);
        }
        let d: i128 = self.dot(self);
        let r: u128 = isqrt(d as u128);
        proof {
            assert(r as int <= NORM_MAX as int) by (nonlinear_arith)
                requires
                    is_isqrt(d as int, r as int),
                    d as int <= 3 * (FX_LIM as int) * (FX_LIM as int);
            lemma_isqrt_unique(d as int, r as int, sqrt_val(d as int));
        }
        r as i128
    }
}

proof fn lemma_prod_bound(a: int, b: int)
    by (nonlinear_arith)
    requires
        -FX_LIM <= a <= FX_LIM,
        -FX_LIM <= b <= FX_LIM,
    ensures
        -((FX_LIM as int) * (FX_LIM as int)) <= a * b <= (FX_LIM as int) * (FX_LIM as int),
{
}

proof fn lemma_square_nonneg(a: int)
    by (nonlinear_arith)
    ensures
        a * a >= 0,
{
}

/// A 3x3 matrix of fixed-point entries, row by row.
#[derive(Clone, Copy, PartialEq, Eq, Structural, Debug)]
pub struct Mat3Fx {
    pub r0: Vec3Fx,
    pub r1: Vec3Fx,
    pub r2: Vec3Fx,
}

pub open spec fn mat_ok(m: Mat3Fx) -> bool {
    vec_ok(m.r0) && vec_ok(m.r1) && vec_ok(m.r2)
}

pub open spec fn mat_id_spec() -> Mat3Fx {
    Mat3Fx {
        r0: Vec3Fx { x: SCALE, y: 0, z: 0 },
        r1: Vec3Fx { x: 0, y: SCALE, z: 0 },
        r2: Vec3Fx { x: 0, y: 0, z: SCALE },
    }
}

/// What applying a matrix to a vector yields, row by row.
pub open spec fn mat_apply_spec(m: Mat3Fx, v: Vec3Fx) -> Vec3Fx {
    Vec3Fx {
        x: fx_clamp(tdiv(dot_raw(m.r0, v), SCALE as int)) as i128,
        y: fx_clamp(tdiv(dot_raw(m.r1, v), SCALE as int)) as i128,
        z: fx_clamp(tdiv(dot_raw(m.r2, v), SCALE as int)) as i128,
    }
}

impl Mat3Fx {
    /// The identity rotation.
    pub fn identity() -> (r: Mat3Fx)
        ensures
            r == mat_id_spec(),
            mat_ok(r),
    {
        Mat3Fx {
            r0: Vec3Fx { x: SCALE, y: 0, z: 0 },
            r1: Vec3Fx { x: 0, y: SCALE, z: 0 },
            r2: Vec3Fx { x: 0, y: 0, z: SCALE },
        }
    }

    /// Apply the matrix to a vector.
    pub fn apply(self, v: Vec3Fx) -> (r: Vec3Fx)
        requires
            mat_ok(self),
            vec_ok(v),
        ensures
            r == mat_apply_spec(self, v),
            vec_ok(r),
    {
        let dx: i128 = self.r0.dot(v);
        let dy: i128 = self.r1.dot(v);
        let dz: i128 = self.r2.dot(v);
        Vec3Fx {
            x: tdiv_clamp(dx, SCALE),
            y: tdiv_clamp(dy, SCALE),
            z: tdiv_clamp(dz, SCALE),
        }
    }

    /// What the matrix product is, row by row: each row of `self` against
    /// the columns of `o`.
    pub open spec fn compose_spec(self, o: Mat3Fx) -> Mat3Fx {
        Mat3Fx {
            r0: mat_apply_spec(o.transpose_spec_helper(), self.r0),
            r1: mat_apply_spec(o.transpose_spec_helper(), self.r1),
            r2: mat_apply_spec(o.transpose_spec_helper(), self.r2),
        }
    }

    /// Matrix product: `self` applied after `o`.
    pub fn compose(self, o: Mat3Fx) -> (r: Mat3Fx)
        requires
            mat_ok(self),
            mat_ok(o),
        ensures
            r == self.compose_spec(o),
            mat_ok(r),
    {
        let t: Mat3Fx = o.transpose();
        Mat3Fx { r0: t.apply(self.r0), r1: t.apply(self.r1), r2: t.apply(self.r2) }
    }

    /// The columns of the matrix, as rows.
    pub open spec fn transpose_spec_helper(self) -> Mat3Fx {
        Mat3Fx {
            r0: Vec3Fx { x: self.r0.x, y: self.r1.x, z: self.r2.x },
            r1: Vec3Fx { x: self.r0.y, y: self.r1.y, z: self.r2.y },
            r2: Vec3Fx { x: self.r0.z, y: self.r1.z, z: self.r2.z },
        }
    }

    /// Swap rows and columns.
    pub fn transpose(self) -> (r: Mat3Fx)
        requires
            mat_ok(self),
        ensures
            r == self.transpose_spec_helper(),
            mat_ok(r),
    {
        Mat3Fx {
            r0: Vec3Fx { x: self.r0.x, y: self.r1.x, z: self.r2.x },
            r1: Vec3Fx { x: self.r0.y, y: self.r1.y, z: self.r2.y },
            r2: Vec3Fx { x: self.r0.z, y: self.r1.z, z: self.r2.z },
        }
    }
}


/// What `rot_axis_angle` returns: the Rodrigues rotation matrix about a
/// unit axis, from the cosine and sine of the angle, entry by entry.
pub open spec fn rodrigues_spec(axis: Vec3Fx, cosv: i128, sinv: i128) -> Mat3Fx {
    let omc = fx_clamp(SCALE - cosv);
    Mat3Fx {
        r0: Vec3Fx {
            x: fx_clamp(cosv + fx_mul(omc as int, fx_mul(axis.x as int, axis.x as int))) as i128,
            y: fx_clamp(
                fx_mul(omc as int, fx_mul(axis.x as int, axis.y as int)) - fx_mul(
                    sinv as int,
                    axis.z as int,
                ),
            ) as i128,
            z: fx_clamp(
                fx_mul(omc as int, fx_mul(axis.x as int, axis.z as int)) + fx_mul(
                    sinv as int,
                    axis.y as int,
                ),
            ) as i128,
        },
        r1: Vec3Fx {
            x: fx_clamp(
                fx_mul(omc as int, fx_mul(axis.x as int, axis.y as int)) + fx_mul(
                    sinv as int,
                    axis.z as int,
                ),
            ) as i128,
            y: fx_clamp(cosv + fx_mul(omc as int, fx_mul(axis.y as int, axis.y as int))) as i128,
            z: fx_clamp(
                fx_mul(omc as int, fx_mul(axis.y as int, axis.z as int)) - fx_mul(
                    sinv as int,
                    axis.x as int,
                ),
            ) as i128,
        },
        r2: Vec3Fx {
            x: fx_clamp(
                fx_mul(omc as int, fx_mul(axis.x as int, axis.z as int)) - fx_mul(
                    sinv as int,
                    axis.y as int,
                ),
            ) as i128,
            y: fx_clamp(
                fx_mul(omc as int, fx_mul(axis.y as int, axis.z as int)) + fx_mul(
                    sinv as int,
                    axis.x as int,
                ),
            ) as i128,
            z: fx_clamp(cosv + fx_mul(omc as int, fx_mul(axis.z as int, axis.z as int))) as i128,
        },
    }
}

/// Build the rotation matrix about a unit axis from the cosine and sine of
/// the rotation angle, by the Rodrigues formula.
pub fn rot_axis_angle(axis: Vec3Fx, cosv: i128, sinv: i128) -> (r: Mat3Fx)
    requires
        vec_ok(axis),
        fx_ok(cosv),
        fx_ok(sinv),
    ensures
        r == rodrigues_spec(axis, cosv, sinv),
        mat_ok(r),
{
    let omc: i128 = fsub(SCALE, cosv);
    let xx: i128 = fmul(omc, fmul(axis.x, axis.x));
    let yy: i128 = fmul(omc, fmul(axis.y, axis.y));
    let zz: i128 = fmul(omc, fmul(axis.z, axis.z));
    let xy: i128 = fmul(omc, fmul(axis.x, axis.y));
    let xz: i128 = fmul(omc, fmul(axis.x, axis.z));
    let yz: i128 = fmul(omc, fmul(axis.y, axis.z));
    let sx: i128 = fmul(sinv, axis.x);
    let sy: i128 = fmul(sinv, axis.y);
    let sz: i128 = fmul(sinv, axis.z);
    Mat3Fx {
        r0: Vec3Fx { x: fadd(cosv, xx), y: fsub(xy, sz), z: fadd(xz, sy) },
        r1: Vec3Fx { x: fadd(xy, sz), y: fadd(cosv, yy), z: fsub(yz, sx) },
        r2: Vec3Fx { x: fsub(xz, sy), y: fadd(yz, sx), z: fadd(cosv, zz) },
    }
}

} // verus!
