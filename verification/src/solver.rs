//! The Kepler solver: Newton-Raphson iteration on Kepler's equation.
//!
//! `solve` inverts `f(E) = E - e * sin(E) - M` for the eccentric anomaly `E`.
//! The iteration budget and the optional tolerance-based early exit are
//! explicit, configurable parameters, not hidden constants.  Without a
//! tolerance the solver runs its fixed budget and always answers, as the
//! classical ten-step scheme does; with one it reports a missed tolerance
//! instead of handing back an unexamined inaccurate result.

use vstd::prelude::*;
use crate::errors::ConversionError;
use crate::fx::{fx_ok, fx_clamp, fx_div, fx_mul, iabs, fsub, fmul, fdiv, SCALE, FX_LIM};
use crate::trig::{sin_spec, cos_spec, sin_fx, cos_fx};

verus! {

/// The classical iteration budget: ten Newton steps.
pub const STANDARD_ITERATIONS: u32 = 10;

/// How the solver runs: a fixed iteration budget, and an optional
/// fixed-point tolerance on the residual for early exit.
#[derive(Clone, Copy, Debug)]
pub struct SolverConfig {
    /// Upper bound on Newton steps.
    pub max_iterations: u32,
    /// Largest acceptable residual, or `None` to always run the full budget.
    pub tolerance: Option<i128>,
}

impl SolverConfig {
    pub open spec fn wf(self) -> bool {
        self.tolerance is Some ==> 0 <= self.tolerance->0 <= FX_LIM
    }

    /// The classical scheme: ten Newton steps, no convergence check.
    pub fn standard() -> (r: SolverConfig)
        ensures
            r.max_iterations == STANDARD_ITERATIONS,
            r.tolerance is None,
            r.wf(),
    {
        SolverConfig { max_iterations: STANDARD_ITERATIONS, tolerance: None }
    }

    /// A guarded scheme: a tolerance with a larger budget, failing loudly
    /// when the tolerance is missed.
    pub fn with_tolerance(tolerance: i128, max_iterations: u32) -> (r: SolverConfig)
        requires
            0 <= tolerance <= FX_LIM,
        ensures
            r.max_iterations == max_iterations,
            r.tolerance == Some(tolerance),
            r.wf(),
    {
        SolverConfig { max_iterations, tolerance: Some(tolerance) }
    }
}

/// The fixed-point residual of Kepler's equation at a candidate anomaly.
pub open spec fn residual(m0: int, e: int, ea: int) -> int {
    fx_clamp(fx_clamp(ea - fx_mul(e, sin_spec(ea))) - m0)
}

/// One Newton step on Kepler's equation, in fixed-point arithmetic, with
/// the denominator floored at one unit.
pub open spec fn newton_step_spec(m0: int, e: int, ea: int) -> int {
    let f = residual(m0, e, ea);
    let d0 = fx_clamp(SCALE - fx_mul(e, cos_spec(ea)));
    let d = if d0 < 1 {
        1
    } else {
        d0
    };
    fx_clamp(ea - fx_div(f, d))
}

/// The candidate anomaly after `k` Newton steps from the initial guess
/// `ea = m0`.
pub open spec fn newton_iter_spec(m0: int, e: int, k: nat) -> int
    decreases k,
{
    if k == 0 {
        m0
    } else {
        newton_step_spec(m0, e, newton_iter_spec(m0, e, (k - 1) as nat))
    }
}

/// Whether some Newton iterate within the budget meets the tolerance.
pub open spec fn converges_within(m0: int, e: int, tol: int, budget: nat) -> bool {
    exists|k: nat| k <= budget && iabs(residual(m0, e, newton_iter_spec(m0, e, k))) <= tol
}

/// Solve Kepler's equation for the eccentric anomaly.
pub fn solve(m0: i128, e: i128, cfg: &SolverConfig) -> (r: Result<i128, ConversionError>)
    requires
        fx_ok(m0),
        0 <= e < SCALE,
        cfg.wf(),
    ensures
        r is Ok ==> fx_ok(r->Ok_0),
        r is Err ==> cfg.tolerance is Some && r->Err_0 == ConversionError::NotConverged,
        cfg.tolerance is None ==> r is Ok && r->Ok_0 as int == newton_iter_spec(
            m0 as int,
            e as int,
            cfg.max_iterations as nat,
        ),
        r is Ok && cfg.tolerance is Some ==> iabs(
            residual(m0 as int, e as int, r->Ok_0 as int),
        ) <= cfg.tolerance->0,
        r is Ok ==> exists|k: nat|
            k <= cfg.max_iterations && r->Ok_0 as int == newton_iter_spec(m0 as int, e as int, k),
        cfg.tolerance matches Some(t) ==> (r is Ok <==> converges_within(
            m0 as int,
            e as int,
            t as int,
            cfg.max_iterations as nat,
        )),
{
    let mut ea: i128 = m0;
    let mut it: u32 = 0;
    while it < cfg.max_iterations
        invariant
            fx_ok(ea),
            fx_ok(m0),
            0 <= e < SCALE,
            cfg.wf(),
            it <= cfg.max_iterations,
            ea as int == newton_iter_spec(m0 as int, e as int, it as nat),
            cfg.tolerance matches Some(t) ==> forall|k: nat|
                k < it ==> iabs(residual(m0 as int, e as int, newton_iter_spec(m0 as int, e as int, k)))
                    > t,
        decreases cfg.max_iterations - it,
    {
        let s: i128 = sin_fx(ea);
        let c: i128 = cos_fx(ea);
        let f: i128 = fsub(fsub(ea, fmul(e, s)), m0);
        if let Some(t) = cfg.tolerance {
            let af: i128 = if f >= 0 {
                f
            } else {
                -f
            };
            if af <= t {
                proof {
                    assert(ea as int == newton_iter_spec(m0 as int, e as int, it as nat));
                    assert(iabs(residual(m0 as int, e as int, newton_iter_spec(m0 as int, e as int, it as nat))) <= t);
                }
                return Ok(ea);
            }
            proof {
                assert(iabs(residual(m0 as int, e as int, newton_iter_spec(m0 as int, e as int, it as nat))) > t);
            }
        }
        // The denominator 1 - e * cos(E) is positive for an elliptical
        // eccentricity; the floor guards the truncated extreme e = 1 - ulp.
        let denom0: i128 = fsub(SCALE, fmul(e, c));
        let denom: i128 = if denom0 < 1 {
            1
        } else {
            denom0
        };
        ea = fsub(ea, fdiv(f, denom));
        it = it + 1;
    }
    match cfg.tolerance {
        None => Ok(ea),
        Some(t) => {
            let s: i128 = sin_fx(ea);
            let f: i128 = fsub(fsub(ea, fmul(e, s)), m0);
            let af: i128 = if f >= 0 {
                f
            } else {
                -f
            };
            if af <= t {
                proof {
                    assert(iabs(residual(m0 as int, e as int, newton_iter_spec(m0 as int, e as int, it as nat))) <= t);
                }
                Ok(ea)
            } else {
                proof {
                    assert(iabs(residual(m0 as int, e as int, newton_iter_spec(m0 as int, e as int, it as nat))) > t);
                    assert(forall|k: nat| k <= cfg.max_iterations ==> iabs(residual(m0 as int, e as int, newton_iter_spec(m0 as int, e as int, k))) > t);
                }
                Err(ConversionError::NotConverged)
            }
        },
    }
}

} // verus!
