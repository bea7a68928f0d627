//! Fixed-point scalar arithmetic.
//!
//! A scalar is an `i128` holding the physical value times `SCALE`.  Results
//! of every operation are saturated into `[-FX_LIM, FX_LIM]`, so the
//! operations are total and their contracts are exact: each ensures equality
//! with a spec-level function built from truncated division and clamping.

use vstd::prelude::*;
use vstd::arithmetic::div_mod::{
    lemma_fundamental_div_mod, lemma_fundamental_div_mod_converse,
    lemma_mod_division_less_than_divisor,
};

verus! {

/// Number of fixed-point units in one physical unit.
pub const SCALE: i128 = 1_000_000_000;

/// Largest magnitude a fixed-point scalar may take (10^9 physical units).
pub const FX_LIM: i128 = 1_000_000_000_000_000_000;

/// Largest divisor `fdiv` accepts; large enough for a vector norm.
pub const DIV_MAX: i128 = 4_000_000_000_000_000_000;

/// One half turn, in fixed-point radians.
pub const PI_FX: i128 = 3_141_592_654;

/// One full turn, in fixed-point radians.
pub const TWO_PI_FX: i128 = 6_283_185_307;

/// One quarter turn, in fixed-point radians.
pub const HALF_PI_FX: i128 = 1_570_796_327;

pub open spec fn fx_ok(x: i128) -> bool {
    -FX_LIM <= x <= FX_LIM
}

pub open spec fn iabs(x: int) -> int {
    if x >= 0 {
        x
    } else {
        -x
    }
}

pub open spec fn fx_clamp(x: int) -> int {
    if x > FX_LIM {
        FX_LIM as int
    } else if x < -FX_LIM {
        -FX_LIM as int
    } else {
        x
    }
}

/// Division truncated toward zero, defined for positive divisors.
pub open spec fn tdiv(a: int, b: int) -> int {
    if a >= 0 {
        a / b
    } else {
        -((-a) / b)
    }
}

/// What multiplying two fixed-point scalars yields.
pub open spec fn fx_mul(a: int, b: int) -> int {
    fx_clamp(tdiv(a * b, SCALE as int))
}

/// What dividing one fixed-point scalar by another yields.
pub open spec fn fx_div(a: int, b: int) -> int {
    fx_clamp(tdiv(a * (SCALE as int), b))
}

/// Saturating addition.
pub fn fadd(a: i128, b: i128) -> (r: i128)
    requires
        fx_ok(a),
        fx_ok(b),
    ensures
        r == fx_clamp(a + b),
        fx_ok(r),
{
    let s: i128 = a + b;
    if s > FX_LIM {
        FX_LIM
    } else if s < -FX_LIM {
        -FX_LIM
    } else {
        s
    }
}

/// Saturating subtraction.
pub fn fsub(a: i128, b: i128) -> (r: i128)
    requires
        fx_ok(a),
        fx_ok(b),
    ensures
        r == fx_clamp(a - b),
        fx_ok(r),
{
    let s: i128 = a - b;
    if s > FX_LIM {
        FX_LIM
    } else if s < -FX_LIM {
        -FX_LIM
    } else {
        s
    }
}

/// Saturating fixed-point multiplication: `a * b / SCALE`, truncated.
pub fn fmul(a: i128, b: i128) -> (r: i128)
    requires
        fx_ok(a),
        fx_ok(b),
    ensures
        r == fx_mul(a as int, b as int),
        fx_ok(r),
{
    let neg: bool = (a < 0) != (b < 0);
    let ma: u128 = if a >= 0 {
        a as u128
    } else {
        (-a) as u128
    };
    let mb: u128 = if b >= 0 {
        b as u128
    } else {
        (-b) as u128
    };
    assert((ma as int) * (mb as int) <= (FX_LIM as int) * (FX_LIM as int)) by (nonlinear_arith)
        requires
            0 <= ma as int <= FX_LIM as int,
            0 <= mb as int <= FX_LIM as int;
    let p: u128 = (ma * mb) / (SCALE as u128);
    let c: u128 = if p > FX_LIM as u128 {
        FX_LIM as u128
    } else {
        p
    };
    let r: i128 = if neg {
        -(c as i128)
    } else {
        c as i128
    };
    proof {
        let ai = a as int;
        let bi = b as int;
        let mai = ma as int;
        let mbi = mb as int;
        if neg {
            assert(ai * bi == -(mai * mbi)) by (nonlinear_arith)
                requires
                    (ai < 0 && bi >= 0 && mai == -ai && mbi == bi) || (ai >= 0 && bi < 0 && mai == ai
                        && mbi == -bi);
        } else {
            assert(ai * bi == mai * mbi) by (nonlinear_arith)
                requires
                    (ai >= 0 && bi >= 0 && mai == ai && mbi == bi) || (ai < 0 && bi < 0 && mai == -ai
                        && mbi == -bi);
        }
    }
    r
}

/// Saturating fixed-point division: `a * SCALE / b`, truncated.
/// The divisor must be positive; `DIV_MAX` admits a vector norm.
pub fn fdiv(a: i128, b: i128) -> (r: i128)
    requires
        fx_ok(a),
        1 <= b <= DIV_MAX,
    ensures
        r == fx_div(a as int, b as int),
        fx_ok(r),
{
    let neg: bool = a < 0;
    let ma: u128 = if a >= 0 {
        a as u128
    } else {
        (-a) as u128
    };
    assert((ma as int) * (SCALE as int) <= (FX_LIM as int) * (SCALE as int)) by (nonlinear_arith)
        requires
            0 <= ma as int <= FX_LIM as int;
    let p: u128 = (ma * (SCALE as u128)) / (b as u128);
    let c: u128 = if p > FX_LIM as u128 {
        FX_LIM as u128
    } else {
        p
    };
    let r: i128 = if neg {
        -(c as i128)
    } else {
        c as i128
    };
    proof {
        let ai = a as int;
        let mai = ma as int;
        let si = SCALE as int;
        if neg {
            assert(ai * si == -(mai * si)) by (nonlinear_arith)
                requires
                    ai < 0 && mai == -ai && si > 0;
        }
    }
    r
}

/// Halve a fixed-point scalar, truncating toward zero.
pub fn fhalf(a: i128) -> (r: i128)
    requires
        fx_ok(a),
    ensures
        r == tdiv(a as int, 2),
        fx_ok(r),
{
    let neg: bool = a < 0;
    let ma: u128 = if a >= 0 {
        a as u128
    } else {
        (-a) as u128
    };
    let h: u128 = ma / 2;
    if neg {
        -(h as i128)
    } else {
        h as i128
    }
}

pub open spec fn is_isqrt(x: int, r: int) -> bool {
    0 <= r && r * r <= x && x < (r + 1) * (r + 1)
}

/// The integer square root, as a spec-level value.
pub open spec fn sqrt_val(x: int) -> int {
    choose|r: int| is_isqrt(x, r)
}

/// Any two integer square roots of the same value coincide.
pub proof fn lemma_isqrt_unique(x: int, r1: int, r2: int)
    by (nonlinear_arith)
    requires
        is_isqrt(x, r1),
        is_isqrt(x, r2),
    ensures
        r1 == r2,
{
}

/// Floor of the square root, by binary search.
pub fn isqrt(x: u128) -> (r: u128)
    ensures
        is_isqrt(x as int, r as int),
        r as int == sqrt_val(x as int),
        r <= 0xFFFF_FFFF_FFFF_FFFF,
{
    let mut lo: u128 = 0;
    let mut hi: u128 = 0x1_0000_0000_0000_0000;
    proof {
        assert((hi as int) * (hi as int) > u128::MAX as int) by (nonlinear_arith)
            requires
                hi == 0x1_0000_0000_0000_0000u128;
    }
    while hi - lo > 1
        invariant
            lo < hi,
            hi <= 0x1_0000_0000_0000_0000,
            (lo as int) * (lo as int) <= x as int,
            (x as int) < (hi as int) * (hi as int),
        decreases hi - lo,
    {
        let mid: u128 = lo + (hi - lo) / 2;
        assert((mid as int) * (mid as int) < u128::MAX as int) by (nonlinear_arith)
            requires
                0 <= mid as int && (mid as int) < 0x1_0000_0000_0000_0000;
        if mid * mid <= x {
            lo = mid;
        } else {
            hi = mid;
        }
    }
    proof {
        assert(is_isqrt(x as int, lo as int));
        assert(exists|r: int| is_isqrt(x as int, r));
        lemma_isqrt_unique(x as int, lo as int, sqrt_val(x as int));
    }
    lo
}

/// Square root of a fixed-point scalar: `isqrt(x * SCALE)` keeps the scale.
pub fn sqrt_fx(x: i128) -> (r: i128)
    requires
        0 <= x <= FX_LIM,
    ensures
        r == sqrt_val(x * SCALE),
        is_isqrt(x * SCALE, r as int),
        0 <= r <= FX_LIM,
{
    assert((x as int) * (SCALE as int) <= (FX_LIM as int) * (SCALE as int)) by (nonlinear_arith)
        requires
            0 <= x as int <= FX_LIM as int;
    let p: u128 = (x as u128) * (SCALE as u128);
    let r: u128 = isqrt(p);
    proof {
        assert(is_isqrt(p as int, r as int));
        assert(r as int <= FX_LIM as int) by (nonlinear_arith)
            requires
                is_isqrt(p as int, r as int),
                p as int <= (FX_LIM as int) * (SCALE as int);
    }
    r as i128
}

/// What reducing an angle into `[0, TWO_PI_FX)` yields.
pub open spec fn wrap_tau(x: int) -> int {
    x % (TWO_PI_FX as int)
}

/// What reducing an angle into `(-TWO_PI_FX + PI_FX, PI_FX]` yields.
pub open spec fn wrap_pi(x: int) -> int {
    if wrap_tau(x) > PI_FX {
        wrap_tau(x) - TWO_PI_FX
    } else {
        wrap_tau(x)
    }
}

/// Reduce an angle into `[0, TWO_PI_FX)`.
pub fn norm_angle_tau(x: i128) -> (r: i128)
    ensures
        r == wrap_tau(x as int),
        0 <= r < TWO_PI_FX,
{
    let t: u128 = TWO_PI_FX as u128;
    if x >= 0 {
        let m: u128 = (x as u128) % t;
        m as i128
    } else {
        let ma: u128 = if x == i128::MIN {
            // magnitude of i128::MIN expressed without negating it
            (i128::MAX as u128) + 1
        } else {
            (-x) as u128
        };
        let m: u128 = ma % t;
        let r: i128 = if m == 0 {
            0
        } else {
            (t - m) as i128
        };
        proof {
            let xi = x as int;
            let ti = TWO_PI_FX as int;
            let mi = m as int;
            let q = (ma as int) / ti;
            assert(ma as int == ti * q + mi);
            if m == 0 {
                lemma_fundamental_div_mod_converse(xi, ti, -q, 0);
            } else {
                assert(xi == ti * (-q - 1) + (ti - mi)) by (nonlinear_arith)
                    requires
                        xi == -(ma as int),
                        ma as int == ti * q + mi;
                lemma_fundamental_div_mod_converse(xi, ti, -q - 1, ti - mi);
            }
        }
        r
    }
}

/// Reduce an angle into `(-TWO_PI_FX + PI_FX, PI_FX]`.
pub fn norm_angle_pi(x: i128) -> (r: i128)
    ensures
        r == wrap_pi(x as int),
        -PI_FX <= r <= PI_FX,
        -(TWO_PI_FX - PI_FX) < r,
{
    let t: i128 = norm_angle_tau(x);
    if t > PI_FX {
        t - TWO_PI_FX
    } else {
        t
    }
}

/// For nonnegative operands, splitting a sum across two divisions loses at
/// most one unit against dividing the sum.
proof fn lemma_div_sum_bound(a: int, b: int, d: int)
    requires
        a >= 0,
        b >= 0,
        d >= 1,
    ensures
        a / d + b / d <= (a + b) / d <= a / d + b / d + 1,
{
    lemma_fundamental_div_mod(a, d);
    lemma_fundamental_div_mod(b, d);
    lemma_mod_division_less_than_divisor(a, d);
    lemma_mod_division_less_than_divisor(b, d);
    let qa = a / d;
    let qb = b / d;
    let ra = a % d;
    let rb = b % d;
    if ra + rb < d {
        assert(a + b == (qa + qb) * d + (ra + rb)) by (nonlinear_arith)
            requires
                a == d * qa + ra,
                b == d * qb + rb;
        lemma_fundamental_div_mod_converse(a + b, d, qa + qb, ra + rb);
    } else {
        assert(a + b == (qa + qb + 1) * d + (ra + rb - d)) by (nonlinear_arith)
            requires
                a == d * qa + ra,
                b == d * qb + rb;
        lemma_fundamental_div_mod_converse(a + b, d, qa + qb + 1, ra + rb - d);
    }
}

/// For a nonnegative and a negative operand, the split is off by at most
/// one unit in either direction.
proof fn lemma_tdiv_mixed_bound(p: int, m: int, d: int)
    requires
        p >= 0,
        m > 0,
        d >= 1,
    ensures
        iabs(tdiv(p, d) + tdiv(-m, d) - tdiv(p - m, d)) <= 1,
{
    lemma_fundamental_div_mod(p, d);
    lemma_fundamental_div_mod(m, d);
    lemma_mod_division_less_than_divisor(p, d);
    lemma_mod_division_less_than_divisor(m, d);
    let qp = p / d;
    let qm = m / d;
    let rp = p % d;
    let rm = m % d;
    if p - m >= 0 {
        if rp - rm >= 0 {
            assert(p - m == (qp - qm) * d + (rp - rm)) by (nonlinear_arith)
                requires
                    p == d * qp + rp,
                    m == d * qm + rm;
            lemma_fundamental_div_mod_converse(p - m, d, qp - qm, rp - rm);
        } else {
            assert(p - m == (qp - qm - 1) * d + (rp - rm + d)) by (nonlinear_arith)
                requires
                    p == d * qp + rp,
                    m == d * qm + rm;
            lemma_fundamental_div_mod_converse(p - m, d, qp - qm - 1, rp - rm + d);
        }
    } else {
        if rm - rp >= 0 {
            assert(m - p == (qm - qp) * d + (rm - rp)) by (nonlinear_arith)
                requires
                    p == d * qp + rp,
                    m == d * qm + rm;
            lemma_fundamental_div_mod_converse(m - p, d, qm - qp, rm - rp);
        } else {
            assert(m - p == (qm - qp - 1) * d + (rm - rp + d)) by (nonlinear_arith)
                requires
                    p == d * qp + rp,
                    m == d * qm + rm;
            lemma_fundamental_div_mod_converse(m - p, d, qm - qp - 1, rm - rp + d);
        }
    }
}

/// Truncated division almost distributes over addition: splitting a sum
/// across two divisions moves the result by at most one unit.
pub proof fn lemma_tdiv_additive(a: int, b: int, d: int)
    requires
        d >= 1,
    ensures
        iabs(tdiv(a, d) + tdiv(b, d) - tdiv(a + b, d)) <= 1,
{
    if a >= 0 && b >= 0 {
        lemma_div_sum_bound(a, b, d);
    } else if a < 0 && b < 0 {
        lemma_div_sum_bound(-a, -b, d);
    } else if a >= 0 {
        lemma_tdiv_mixed_bound(a, -b, d);
    } else {
        lemma_tdiv_mixed_bound(b, -a, d);
    }
}

} // verus!
