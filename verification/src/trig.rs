//! Fixed-point trigonometry.
//!
//! Sine and cosine come from an odd Taylor polynomial after range reduction
//! into a quarter turn; the arc tangent from two half-angle reductions and a
//! short alternating series; the arc cosine from the arc tangent and a square
//! root, with its argument clamped into `[-1, 1]` to absorb round-off, as a
//! recovery rather than an error.  Each function ensures equality with a
//! spec-level mirror built from the exact fixed-point operations, together
//! with its range.

use vstd::prelude::*;
use crate::fx::{
    fx_ok, fx_clamp, fx_mul, fx_div, wrap_pi, sqrt_val, is_isqrt, fadd, fsub, fmul, fdiv, isqrt,
    norm_angle_pi, lemma_isqrt_unique, SCALE, FX_LIM, PI_FX, TWO_PI_FX, HALF_PI_FX,
};
use crate::vec3::mul_i;

verus! {

/// Clamp a scalar into `[lo, hi]`, as a spec value.
pub open spec fn clamp_to(x: int, lo: int, hi: int) -> int {
    if x < lo {
        lo
    } else if x > hi {
        hi
    } else {
        x
    }
}

/// Fold an angle in `[-PI_FX, PI_FX]` into `[-HALF_PI_FX, HALF_PI_FX]`,
/// keeping its sine.
pub open spec fn fold_half(a: int) -> int {
    if a > HALF_PI_FX {
        PI_FX - a
    } else if a < -HALF_PI_FX {
        -PI_FX - a
    } else {
        a
    }
}

/// The sine polynomial on a folded angle, in fixed-point steps.
pub open spec fn sin_poly(a: int) -> int {
    let x2 = fx_mul(a, a);
    let u6 = fx_clamp(SCALE - fx_div(x2, 156 * (SCALE as int)));
    let u5 = fx_clamp(SCALE - fx_div(fx_mul(x2, u6), 110 * (SCALE as int)));
    let u4 = fx_clamp(SCALE - fx_div(fx_mul(x2, u5), 72 * (SCALE as int)));
    let u3 = fx_clamp(SCALE - fx_div(fx_mul(x2, u4), 42 * (SCALE as int)));
    let u2 = fx_clamp(SCALE - fx_div(fx_mul(x2, u3), 20 * (SCALE as int)));
    let u1 = fx_clamp(SCALE - fx_div(fx_mul(x2, u2), 6 * (SCALE as int)));
    clamp_to(fx_mul(a, u1), -(SCALE as int), SCALE as int)
}

/// What `sin_fx` returns.
pub open spec fn sin_spec(x: int) -> int {
    sin_poly(fold_half(wrap_pi(x)))
}

/// What `cos_fx` returns.
pub open spec fn cos_spec(x: int) -> int {
    sin_spec(HALF_PI_FX - wrap_pi(x))
}

/// Sine of a fixed-point angle in radians.
pub fn sin_fx(x: i128) -> (r: i128)
    requires
        fx_ok(x),
    ensures
        r == sin_spec(x as int),
        -SCALE <= r <= SCALE,
{
    let a0: i128 = norm_angle_pi(x);
    let a: i128 = if a0 > HALF_PI_FX {
        PI_FX - a0
    } else if a0 < -HALF_PI_FX {
        -PI_FX - a0
    } else {
        a0
    };
    let x2: i128 = fmul(a, a);
    let u6: i128 = fsub(SCALE, fdiv(x2, 156 * SCALE));
    let u5: i128 = fsub(SCALE, fdiv(fmul(x2, u6), 110 * SCALE));
    let u4: i128 = fsub(SCALE, fdiv(fmul(x2, u5), 72 * SCALE));
    let u3: i128 = fsub(SCALE, fdiv(fmul(x2, u4), 42 * SCALE));
    let u2: i128 = fsub(SCALE, fdiv(fmul(x2, u3), 20 * SCALE));
    let u1: i128 = fsub(SCALE, fdiv(fmul(x2, u2), 6 * SCALE));
    let s: i128 = fmul(a, u1);
    if s > SCALE {
        SCALE
    } else if s < -SCALE {
        -SCALE
    } else {
        s
    }
}

/// Cosine of a fixed-point angle in radians.
pub fn cos_fx(x: i128) -> (r: i128)
    requires
        fx_ok(x),
    ensures
        r == cos_spec(x as int),
        -SCALE <= r <= SCALE,
{
    let a: i128 = norm_angle_pi(x);
    sin_fx(HALF_PI_FX - a)
}

/// The arc tangent series on a doubly reduced argument.
pub open spec fn atan_poly(z: int) -> int {
    let w = fx_mul(z, z);
    let p3 = fx_mul(z, w);
    let p5 = fx_mul(p3, w);
    let p7 = fx_mul(p5, w);
    let p9 = fx_mul(p7, w);
    let s = z - fx_div(p3, 3 * (SCALE as int)) + fx_div(p5, 5 * (SCALE as int)) - fx_div(
        p7,
        7 * (SCALE as int),
    ) + fx_div(p9, 9 * (SCALE as int));
    s
}

/// What `atan_unit` returns: the arc tangent of a ratio in `[0, 1]`,
/// after clamping the ratio there.
pub open spec fn atan_unit_spec(z0: int) -> int {
    let z = clamp_to(z0, 0, SCALE as int);
    let h1 = sqrt_val((SCALE as int) * (SCALE as int) + z * z);
    let z1 = clamp_to(fx_div(z, (SCALE as int) + h1), 0, SCALE as int);
    let h2 = sqrt_val((SCALE as int) * (SCALE as int) + z1 * z1);
    let z2 = clamp_to(fx_div(z1, (SCALE as int) + h2), 0, SCALE as int);
    clamp_to(4 * atan_poly(z2), 0, HALF_PI_FX as int)
}

/// Arc tangent of a ratio in `[0, 1]` (clamped there first).
pub fn atan_unit(z0: i128) -> (r: i128)
    requires
        fx_ok(z0),
    ensures
        r == atan_unit_spec(z0 as int),
        0 <= r <= HALF_PI_FX,
{
    let z: i128 = if z0 < 0 {
        0
    } else if z0 > SCALE {
        SCALE
    } else {
        z0
    };
    proof {
        lemma_square_le(z as int);
    }
    let q1: i128 = mul_i(SCALE, SCALE) + mul_i(z, z);
    let h1: u128 = isqrt(q1 as u128);
    proof {
        lemma_isqrt_bound(q1 as int, h1 as int);
        lemma_isqrt_unique(q1 as int, h1 as int, sqrt_val(q1 as int));
    }
    let z1r: i128 = fdiv(z, SCALE + (h1 as i128));
    let z1: i128 = if z1r < 0 {
        0
    } else if z1r > SCALE {
        SCALE
    } else {
        z1r
    };
    proof {
        lemma_square_le(z1 as int);
    }
    let q2: i128 = mul_i(SCALE, SCALE) + mul_i(z1, z1);
    let h2: u128 = isqrt(q2 as u128);
    proof {
        lemma_isqrt_bound(q2 as int, h2 as int);
        lemma_isqrt_unique(q2 as int, h2 as int, sqrt_val(q2 as int));
    }
    let z2r: i128 = fdiv(z1, SCALE + (h2 as i128));
    let z2: i128 = if z2r < 0 {
        0
    } else if z2r > SCALE {
        SCALE
    } else {
        z2r
    };
    let w: i128 = fmul(z2, z2);
    let p3: i128 = fmul(z2, w);
    let p5: i128 = fmul(p3, w);
    let p7: i128 = fmul(p5, w);
    let p9: i128 = fmul(p7, w);
    let s: i128 = z2 - fdiv(p3, 3 * SCALE) + fdiv(p5, 5 * SCALE) - fdiv(p7, 7 * SCALE) + fdiv(
        p9,
        9 * SCALE,
    );
    let s4: i128 = 4 * s;
    if s4 < 0 {
        0
    } else if s4 > HALF_PI_FX {
        HALF_PI_FX
    } else {
        s4
    }
}

/// A square root of a sum of two bounded squares stays in divisor range.
proof fn lemma_isqrt_bound(q: int, h: int)
    by (nonlinear_arith)
    requires
        is_isqrt(q, h),
        q <= 2 * (SCALE as int) * (SCALE as int),
    ensures
        0 <= h <= 2 * (SCALE as int),
{
}

/// What `atan2_fx` returns: the signed angle of the point `(x, y)`,
/// in `(-PI_FX, PI_FX]`, measured from the positive first axis.
pub open spec fn atan2_spec(y: int, x: int) -> int {
    let ax = if x >= 0 {
        x
    } else {
        -x
    };
    let ay = if y >= 0 {
        y
    } else {
        -y
    };
    if ax == 0 && ay == 0 {
        0
    } else {
        let core = if ay <= ax {
            atan_unit_spec(fx_div(ay, ax))
        } else {
            HALF_PI_FX - atan_unit_spec(fx_div(ax, ay))
        };
        let half = if x >= 0 {
            core
        } else {
            (PI_FX as int) - core
        };
        if y >= 0 {
            half
        } else {
            -half
        }
    }
}

/// Quadrant-resolved arc tangent of `y / x`.
pub fn atan2_fx(y: i128, x: i128) -> (r: i128)
    requires
        fx_ok(y),
        fx_ok(x),
    ensures
        r == atan2_spec(y as int, x as int),
        -PI_FX <= r <= PI_FX,
        y >= 0 ==> 0 <= r,
        y < 0 ==> r <= 0,
{
    let ax: i128 = if x >= 0 {
        x
    } else {
        -x
    };
    let ay: i128 = if y >= 0 {
        y
    } else {
        -y
    };
    if ax == 0 && ay == 0 {
        return 0;
    }
    let core: i128 = if ay <= ax {
        atan_unit(fdiv(ay, ax))
    } else {
        HALF_PI_FX - atan_unit(fdiv(ax, ay))
    };
    let half: i128 = if x >= 0 {
        core
    } else {
        PI_FX - core
    };
    if y >= 0 {
        half
    } else {
        -half
    }
}

/// What `acos_fx` returns, with the argument clamped into `[-1, 1]`.
pub open spec fn acos_spec(x: int) -> int {
    let c = clamp_to(x, -(SCALE as int), SCALE as int);
    atan2_spec(sqrt_val((SCALE as int) * (SCALE as int) - c * c), c)
}

/// Arc cosine; the argument is clamped into `[-1, 1]` first, absorbing
/// floating round-off in the callers' dot-product ratios.
pub fn acos_fx(x: i128) -> (r: i128)
    requires
        fx_ok(x),
    ensures
        r == acos_spec(x as int),
        0 <= r <= PI_FX,
{
    let c: i128 = if x > SCALE {
        SCALE
    } else if x < -SCALE {
        -SCALE
    } else {
        x
    };
    proof {
        lemma_square_le(c as int);
    }
    let q: i128 = mul_i(SCALE, SCALE) - mul_i(c, c);
    let s: u128 = isqrt(q as u128);
    proof {
        lemma_isqrt_bound(q as int, s as int);
        lemma_isqrt_unique(q as int, s as int, sqrt_val(q as int));
    }
    atan2_fx(s as i128, c)
}

/// A clamped cosine has a square at most one.
proof fn lemma_square_le(c: int)
    by (nonlinear_arith)
    requires
        -(SCALE as int) <= c <= SCALE as int,
    ensures
        0 <= c * c <= (SCALE as int) * (SCALE as int),
{
}

} // verus!
