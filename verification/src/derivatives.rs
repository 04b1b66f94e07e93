//! Ready-made derivative functions: the default rate and the rates the
//! demo problems and the test problems integrate.
//!
//! Each one implements [`Derivative`] with an exact spec: the evaluation
//! either returns precisely the stated mantissa formula or reports the
//! overflow that formula meets.

use crate::fixed::{add_res, mul_res, sub_res, Fixed, SCALE};
use crate::ode_solver::{Derivative, OdeSolverParams};
use crate::SolverError;
use vstd::prelude::*;

verus! {

/// Default initial time of a run.
pub const T_INITIAL: i32 = 0;

/// Default final time of a run.
pub const T_FINAL: i32 = 1;

/// Default step size: one hundredth.
pub const TIME_STEP_MANT: i64 = 10_000_000_000;

/// Default Newton tolerance: ten to the minus eighth.
pub const TOLERANCE_MANT: i64 = 10_000;

/// Default Newton iteration cap.
pub const MAX_ITERATIONS: i32 = 100;

/// Default sample count: (T_FINAL - T_INITIAL) / time_step.
pub const DEFAULT_NUM_STEPS: i32 = 100;

/// The default rate f(t, y) = t, with f'(t, y) = 1.
#[derive(Clone, Copy, Debug, PartialEq, Eq, Structural)]
pub struct TimeRate;

impl Derivative for TimeRate {
    /// Exactly the time argument.
    open spec fn rate_res(&self, t: int, y: int) -> Result<int, SolverError> {
        Ok(t)
    }

    /// Exactly one.
    open spec fn prime_res(&self, t: int, y: int) -> Result<int, SolverError> {
        Ok(SCALE as int)
    }

    fn rate(&self, t: Fixed, y: Fixed) -> (r: Result<Fixed, SolverError>) {
        Ok(t)
    }

    fn rate_prime(&self, t: Fixed, y: Fixed) -> (r: Result<Fixed, SolverError>) {
        Ok(Fixed::from_scaled(SCALE))
    }
}

/// The rate f(t, y) = 2 t, with f'(t, y) = 0.  Its exact solution is
/// y(t) = y(t0) + t^2 - t0^2, a polynomial every rule integrates without
/// truncation error.
#[derive(Clone, Copy, Debug, PartialEq, Eq, Structural)]
pub struct DoubleTimeRate;

impl Derivative for DoubleTimeRate {
    /// Exactly t + t.
    open spec fn rate_res(&self, t: int, y: int) -> Result<int, SolverError> {
        add_res(t, t)
    }

    /// Exactly zero: the rate does not depend on the state.
    open spec fn prime_res(&self, t: int, y: int) -> Result<int, SolverError> {
        Ok(0)
    }

    fn rate(&self, t: Fixed, y: Fixed) -> (r: Result<Fixed, SolverError>) {
        t.add(t)
    }

    fn rate_prime(&self, t: Fixed, y: Fixed) -> (r: Result<Fixed, SolverError>) {
        Ok(Fixed::from_scaled(0))
    }
}

/// The autonomous decay rate f(t, y) = -y, with f'(t, y) = -1.  Its
/// exact solution decays exponentially, which makes it the standard
/// smooth problem for order-of-accuracy measurements.
#[derive(Clone, Copy, Debug, PartialEq, Eq, Structural)]
pub struct NegativeStateRate;

impl Derivative for NegativeStateRate {
    /// Exactly -y.
    open spec fn rate_res(&self, t: int, y: int) -> Result<int, SolverError> {
        sub_res(0, y)
    }

    /// Exactly minus one.
    open spec fn prime_res(&self, t: int, y: int) -> Result<int, SolverError> {
        Ok(-SCALE as int)
    }

    fn rate(&self, t: Fixed, y: Fixed) -> (r: Result<Fixed, SolverError>) {
        Fixed::from_scaled(0).sub(y)
    }

    fn rate_prime(&self, t: Fixed, y: Fixed) -> (r: Result<Fixed, SolverError>) {
        Ok(Fixed::from_scaled(-SCALE))
    }
}

/// Mantissa of minus twenty.
pub const NEG_TWENTY: i64 = -20_000_000_000_000;

/// Mantissa of minus forty.
pub const NEG_FORTY: i64 = -40_000_000_000_000;

/// The stiff-leaning rate f(t, y) = -20 t y^2, with its Jacobian term
/// f'(t, y) = -40 t y: the demo problem of the implicit rule.
#[derive(Clone, Copy, Debug, PartialEq, Eq, Structural)]
pub struct QuadraticDecayRate;

impl Derivative for QuadraticDecayRate {
    /// Exactly ((-20 * t) * y) * y, factor by factor in evaluation
    /// order, each product truncated as [`mul_res`] states.
    open spec fn rate_res(&self, t: int, y: int) -> Result<int, SolverError> {
        match mul_res(NEG_TWENTY as int, t) {
            Err(e) => Err(e),
            Ok(a) => match mul_res(a, y) {
                Err(e) => Err(e),
                Ok(b) => mul_res(b, y),
            },
        }
    }

    /// Exactly (-40 * t) * y, factor by factor in evaluation order.
    open spec fn prime_res(&self, t: int, y: int) -> Result<int, SolverError> {
        match mul_res(NEG_FORTY as int, t) {
            Err(e) => Err(e),
            Ok(a) => mul_res(a, y),
        }
    }

    fn rate(&self, t: Fixed, y: Fixed) -> (r: Result<Fixed, SolverError>) {
        let a = match Fixed::from_scaled(NEG_TWENTY).mul(t) {
            Ok(v) => v,
            Err(e) => return Err(e),
        };
        let b = match a.mul(y) {
            Ok(v) => v,
            Err(e) => return Err(e),
        };
        b.mul(y)
    }

    fn rate_prime(&self, t: Fixed, y: Fixed) -> (r: Result<Fixed, SolverError>) {
        let a = match Fixed::from_scaled(NEG_FORTY).mul(t) {
            Ok(v) => v,
            Err(e) => return Err(e),
        };
        a.mul(y)
    }
}

impl Default for OdeSolverParams<TimeRate> {
    /// The default run: the default rate over [0, 1] in steps of one
    /// hundredth, tolerance of ten to the minus eighth, one hundred
    /// Newton iterations allowed.
    fn default() -> (r: Self)
        ensures
            r.wf(),
            r.f == TimeRate,
            r.num_steps == DEFAULT_NUM_STEPS,
            r.t_initial == T_INITIAL,
            r.time_step@ == TIME_STEP_MANT as int,
            r.tolerance@ == TOLERANCE_MANT as int,
            r.max_iters == MAX_ITERATIONS,
    {
        OdeSolverParams {
            f: TimeRate,
            num_steps: DEFAULT_NUM_STEPS,
            t_initial: T_INITIAL,
            time_step: Fixed::from_scaled(TIME_STEP_MANT),
            tolerance: Fixed::from_scaled(TOLERANCE_MANT),
            max_iters: MAX_ITERATIONS,
        }
    }
}

} // verus!
