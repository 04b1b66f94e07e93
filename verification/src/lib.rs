//! A small initial-value-problem ODE integration toolkit.
//!
//! Four interchangeable single-step integration rules (explicit Euler,
//! Heun, classical Runge-Kutta 4, implicit Euler) advance an approximate
//! solution trajectory over a fixed number of uniform time steps.  The
//! implicit rule solves a per-step nonlinear stage equation with a
//! Newton-Raphson root finder.  All state values are exact decimal
//! fixed-point numbers, so every arithmetic step of every rule carries a
//! proved, deterministic contract.

pub mod derivatives;
pub mod exactness;
pub mod explicit_euler_method;
pub mod fixed;
pub mod heun_method;
pub mod implicit_euler_method;
pub mod newton_raphson_method;
pub mod ode_solver;
pub mod runge_kutta4;
pub mod text;

use vstd::prelude::*;

verus! {

/// The failure conditions that the toolkit reports to its callers.
///
/// The core never terminates the process: configuration violations are
/// rejected at construction, arithmetic that leaves the representable
/// range is reported per run, and a vanishing Newton denominator is
/// reported as a singular Jacobian.
#[derive(Clone, Copy, Debug, PartialEq, Eq, Structural)]
pub enum SolverError {
    /// A parameter violates a construction invariant (non-positive step
    /// count, step size or tolerance).
    InvalidParams,
    /// An intermediate value left the representable fixed-point range.
    Overflow,
    /// The derivative of the stage residual evaluated to zero, so a
    /// Newton update would divide by zero.
    SingularJacobian,
}

} // verus!
