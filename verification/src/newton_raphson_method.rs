//! The Newton-Raphson root finder used by the implicit Euler rule.
//!
//! `find_root`-style iteration: starting from an initial guess, repeat
//! x <- x - g(x) / g'(x).  The convergence check |g(x)| <= tolerance is
//! evaluated at the current iterate before each update, so a guess that
//! already satisfies the tolerance is returned unchanged with zero
//! iterations performed.  Once the update count exceeds the iteration
//! cap the current iterate is returned without signaling failure:
//! silent best-effort return is the contract.  A residual derivative of
//! zero is reported as a singular Jacobian instead of dividing.

use crate::fixed::{abs_i, agrees, div_res, sub_res, Fixed, SCALE};
use crate::SolverError;
use vstd::prelude::*;

verus! {

/// A scalar nonlinear equation g(z) = 0 together with its derivative,
/// as handed to the root finder.  The implicit rule builds one per step;
/// its capture set (the derivative function, the step time, the previous
/// sample and the step size) is an explicit struct, not a hidden closure
/// environment.
pub trait Residual: Sized {
    /// Mathematical result of evaluating the residual at `z`.
    spec fn g_res(&self, z: int) -> Result<int, SolverError>;

    /// Mathematical result of evaluating the residual derivative at `z`.
    spec fn g_prime_res(&self, z: int) -> Result<int, SolverError>;

    /// Evaluate g(z).
    fn g(&self, z: Fixed) -> (r: Result<Fixed, SolverError>)
        ensures
            agrees(r, self.g_res(z@)),
    ;

    /// Evaluate g'(z).
    fn g_prime(&self, z: Fixed) -> (r: Result<Fixed, SolverError>)
        ensures
            agrees(r, self.g_prime_res(z@)),
    ;
}

/// The exact outcome of the Newton-Raphson loop from iterate `x` with
/// `iters` updates already performed: the returned iterate and the total
/// update count, or the first failure the loop reports.
///
/// One recursion step mirrors one loop pass: evaluate the residual, stop
/// within tolerance, stop on a vanished derivative, divide, update, stop
/// once the count exceeds the cap.
pub open spec fn newton_res(
    g: spec_fn(int) -> Result<int, SolverError>,
    gp: spec_fn(int) -> Result<int, SolverError>,
    x: int,
    iters: int,
    tol: int,
    max_iters: int,
) -> Result<(int, int), SolverError>
    decreases max_iters - iters,
{
    match g(x) {
        Err(e) => Err(e),
        Ok(gx) => if abs_i(gx) <= tol {
            Ok((x, iters))
        } else {
            match gp(x) {
                Err(e) => Err(e),
                Ok(gpx) => if gpx == 0 {
                    Err(SolverError::SingularJacobian)
                } else {
                    match div_res(gx, gpx) {
                        Err(e) => Err(e),
                        Ok(d) => match sub_res(x, d) {
                            Err(e) => Err(e),
                            Ok(x2) => if iters + 1 > max_iters {
                                Ok((x2, iters + 1))
                            } else {
                                newton_res(g, gp, x2, iters + 1, tol, max_iters)
                            },
                        },
                    }
                },
            }
        },
    }
}

/// The root finder performs at most `max_iters + 1` updates: whatever it
/// returns, its update count never exceeds the cap by more than the one
/// update of the pass that reaches the cap.
pub proof fn lemma_newton_iteration_bound(
    g: spec_fn(int) -> Result<int, SolverError>,
    gp: spec_fn(int) -> Result<int, SolverError>,
    x: int,
    iters: int,
    tol: int,
    max_iters: int,
)
    requires
        0 <= iters <= max_iters,
    ensures
        match newton_res(g, gp, x, iters, tol, max_iters) {
            Ok(p) => iters <= p.1 <= max_iters + 1,
            Err(_) => true,
        },
    decreases max_iters - iters,
{
    match g(x) {
        Err(_) => {},
        Ok(gx) => {
            if abs_i(gx) <= tol {
            } else {
                match gp(x) {
                    Err(_) => {},
                    Ok(gpx) => {
                        if gpx != 0 {
                            match div_res(gx, gpx) {
                                Err(_) => {},
                                Ok(d) => match sub_res(x, d) {
                                    Err(_) => {},
                                    Ok(x2) => {
                                        if iters + 1 <= max_iters {
                                            lemma_newton_iteration_bound(
                                                g,
                                                gp,
                                                x2,
                                                iters + 1,
                                                tol,
                                                max_iters,
                                            );
                                        }
                                    },
                                },
                            }
                        }
                    },
                }
            }
        },
    }
}

/// Boundedness on a residual that never meets the tolerance: when every
/// evaluation returns a magnitude above the tolerance, a successful
/// return happens after exactly `max_iters + 1` updates — the loop never
/// runs forever and never claims convergence early.
pub proof fn lemma_newton_exhausts(
    g: spec_fn(int) -> Result<int, SolverError>,
    gp: spec_fn(int) -> Result<int, SolverError>,
    x: int,
    iters: int,
    tol: int,
    max_iters: int,
)
    requires
        0 <= iters <= max_iters,
        forall|z: int|
            match #[trigger] g(z) {
                Ok(v) => abs_i(v) > tol,
                Err(_) => true,
            },
    ensures
        match newton_res(g, gp, x, iters, tol, max_iters) {
            Ok(p) => p.1 == max_iters + 1,
            Err(_) => true,
        },
    decreases max_iters - iters,
{
    match g(x) {
        Err(_) => {},
        Ok(gx) => {
            match gp(x) {
                Err(_) => {},
                Ok(gpx) => {
                    if gpx != 0 {
                        match div_res(gx, gpx) {
                            Err(_) => {},
                            Ok(d) => match sub_res(x, d) {
                                Err(_) => {},
                                Ok(x2) => {
                                    if iters + 1 <= max_iters {
                                        lemma_newton_exhausts(g, gp, x2, iters + 1, tol, max_iters);
                                    }
                                },
                            },
                        }
                    }
                },
            }
        },
    }
}

/// Solve g(z) = 0 by Newton-Raphson iteration from the guess
/// `x_initial`, returning the final iterate and the number of updates
/// performed.
///
/// The returned pair and every failure are pinned exactly by
/// [`newton_res`]; in particular a guess already within the tolerance
/// comes back unchanged with a count of zero, and the count never
/// exceeds `max_iters + 1`.
pub fn newton_raphson_method_root<R: Residual>(
    problem: &R,
    x_initial: Fixed,
    tol: Fixed,
    max_iters: i32,
) -> (r: Result<(Fixed, i32), SolverError>)
    requires
        tol@ >= 0,
        0 <= max_iters < i32::MAX,
    ensures
        (match r {
            Ok(p) => newton_res(
                (|z: int| problem.g_res(z)),
                (|z: int| problem.g_prime_res(z)),
                x_initial@,
                0,
                tol@,
                max_iters as int,
            ) == Ok::<(int, int), SolverError>((p.0@, p.1 as int)),
            Err(e) => newton_res(
                (|z: int| problem.g_res(z)),
                (|z: int| problem.g_prime_res(z)),
                x_initial@,
                0,
                tol@,
                max_iters as int,
            ) == Err::<(int, int), SolverError>(e),
        }),
        (match problem.g_res(x_initial@) {
            Ok(g0) => abs_i(g0) <= tol@,
            Err(_) => false,
        }) ==> r == Ok::<(Fixed, i32), SolverError>((x_initial, 0)),
{
    let ghost gc = (|z: int| problem.g_res(z));
    let ghost gpc = (|z: int| problem.g_prime_res(z));
    let mut x = x_initial;
    let mut iters: i32 = 0;
    loop
        invariant
            tol@ >= 0,
            0 <= iters <= max_iters < i32::MAX,
            gc == (|z: int| problem.g_res(z)),
            gpc == (|z: int| problem.g_prime_res(z)),
            newton_res(gc, gpc, x@, iters as int, tol@, max_iters as int) == newton_res(
                gc,
                gpc,
                x_initial@,
                0,
                tol@,
                max_iters as int,
            ),
            iters == 0 ==> x == x_initial,
        decreases max_iters - iters,
    {
        let gx = match problem.g(x) {
            Ok(v) => v,
            Err(e) => return Err(e),
        };
        if gx.abs_le(&tol) {
            return Ok((x, iters));
        }
        let gpx = match problem.g_prime(x) {
            Ok(v) => v,
            Err(e) => return Err(e),
        };
        if gpx.as_scaled() == 0 {
            return Err(SolverError::SingularJacobian);
        }
        let delta = match gx.div(gpx) {
            Ok(v) => v,
            Err(e) => return Err(e),
        };
        let x_next = match x.sub(delta) {
            Ok(v) => v,
            Err(e) => return Err(e),
        };
        x = x_next;
        iters = iters + 1;
        if iters > max_iters {
            return Ok((x, iters));
        }
    }
}

/// A residual that never vanishes: g(z) = 1 and g'(z) = 1 everywhere.
/// Newton-Raphson can never satisfy any tolerance below one on it, so it
/// exercises the iteration cap.
pub struct ConstantResidual;

impl Residual for ConstantResidual {
    /// Always one.
    open spec fn g_res(&self, z: int) -> Result<int, SolverError> {
        Ok(SCALE as int)
    }

    /// Always one.
    open spec fn g_prime_res(&self, z: int) -> Result<int, SolverError> {
        Ok(SCALE as int)
    }

    fn g(&self, z: Fixed) -> (r: Result<Fixed, SolverError>) {
        Ok(Fixed::from_scaled(SCALE))
    }

    fn g_prime(&self, z: Fixed) -> (r: Result<Fixed, SolverError>) {
        Ok(Fixed::from_scaled(SCALE))
    }
}

} // verus!
