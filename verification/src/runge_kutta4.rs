//! The classical 4th-order Runge-Kutta rule.
//!
//! For each step, with h the step size: k1 = h * f(t_i, y),
//! k2 = h * f(t_i + h/2, y + k1/2), k3 = h * f(t_i + h/2, y + k2/2),
//! k4 = h * f(t_i + h, y + k3), and the new sample is
//! y + (k1 + 2 k2 + 2 k3 + k4) / 6.  The stage order and the 1-2-2-1
//! weighting are the defining contract, so the spec functions state the
//! weighted sum exactly as the executable rule computes it.

use crate::fixed::{add_res, div_res, mul_res, Fixed, SCALE};
use crate::ode_solver::{
    plot_arrays, plot_arrays_post, sample_time, time_res, trajectory_pairs,
    trajectory_pairs_post, Derivative, OdeSolver, OdeSolverParams, PlotSolution, Printable,
    Solve, SolverChoice, SolverKind, WriteSolution,
};
use crate::text::{solution_lines, solution_lines_post};
use crate::SolverError;
use vstd::prelude::*;

verus! {

/// Mantissa of two.
pub const TWO: i64 = 2_000_000_000_000;

/// Mantissa of six.
pub const SIX: i64 = 6_000_000_000_000;

/// One Runge-Kutta update from state `y` toward sample `i`:
/// `y + (k1 + 2 k2 + 2 k3 + k4) / 6`, or the first failure along that
/// evaluation, stage by stage in evaluation order.
#[verifier::opaque]
pub open spec fn rk4_step_res<F: Derivative>(
    f: F,
    t0s: int,
    h: int,
    y: int,
    i: int,
) -> Result<int, SolverError> {
    match time_res(t0s, h, i) {
        Err(e) => Err(e),
        Ok(t) => match f.rate_res(t, y) {
            Err(e) => Err(e),
            Ok(a1) => match mul_res(h, a1) {
                Err(e) => Err(e),
                Ok(k1) => match div_res(h, TWO as int) {
                    Err(e) => Err(e),
                    Ok(h2) => match add_res(t, h2) {
                        Err(e) => Err(e),
                        Ok(tm) => match div_res(k1, TWO as int) {
                            Err(e) => Err(e),
                            Ok(k1h) => match add_res(y, k1h) {
                                Err(e) => Err(e),
                                Ok(y2) => match f.rate_res(tm, y2) {
                                    Err(e) => Err(e),
                                    Ok(a2) => match mul_res(h, a2) {
                                        Err(e) => Err(e),
                                        Ok(k2) => rk4_step_tail(f, h, y, t, k1, tm, k2),
                                    },
                                },
                            },
                        },
                    },
                },
            },
        },
    }
}

/// The later stages of one Runge-Kutta update: k3 from the refined
/// midpoint state, k4 from the endpoint state, then the weighted sum.
#[verifier::opaque]
pub open spec fn rk4_step_tail<F: Derivative>(
    f: F,
    h: int,
    y: int,
    t: int,
    k1: int,
    tm: int,
    k2: int,
) -> Result<int, SolverError> {
    match div_res(k2, TWO as int) {
        Err(e) => Err(e),
        Ok(k2h) => match add_res(y, k2h) {
            Err(e) => Err(e),
            Ok(y3) => match f.rate_res(tm, y3) {
                Err(e) => Err(e),
                Ok(a3) => match mul_res(h, a3) {
                    Err(e) => Err(e),
                    Ok(k3) => match add_res(t, h) {
                        Err(e) => Err(e),
                        Ok(te) => match add_res(y, k3) {
                            Err(e) => Err(e),
                            Ok(y4) => match f.rate_res(te, y4) {
                                Err(e) => Err(e),
                                Ok(a4) => match mul_res(h, a4) {
                                    Err(e) => Err(e),
                                    Ok(k4) => match mul_res(TWO as int, k2) {
                                        Err(e) => Err(e),
                                        Ok(k2d) => match mul_res(TWO as int, k3) {
                                            Err(e) => Err(e),
                                            Ok(k3d) => match add_res(k1, k2d) {
                                                Err(e) => Err(e),
                                                Ok(s1) => match add_res(s1, k3d) {
                                                    Err(e) => Err(e),
                                                    Ok(s2) => match add_res(s2, k4) {
                                                        Err(e) => Err(e),
                                                        Ok(s3) => match div_res(s3, SIX as int) {
                                                            Err(e) => Err(e),
                                                            Ok(inc) => add_res(y, inc),
                                                        },
                                                    },
                                                },
                                            },
                                        },
                                    },
                                },
                            },
                        },
                    },
                },
            },
        },
    }
}

/// The Runge-Kutta trajectory value at index `i`: sample 0 is the seed,
/// and every later sample is one update from its predecessor.
pub open spec fn rk4_traj_res<F: Derivative>(
    f: F,
    t0s: int,
    h: int,
    y0: int,
    i: nat,
) -> Result<int, SolverError>
    decreases i,
{
    if i == 0 {
        Ok(y0)
    } else {
        match rk4_traj_res(f, t0s, h, y0, (i - 1) as nat) {
            Err(e) => Err(e),
            Ok(y) => rk4_step_res(f, t0s, h, y, i as int),
        }
    }
}

/// What a finished Runge-Kutta run guarantees, over the raw parameters
/// of the run: seed kept, samples equal to the recurrence, full length
/// on success, first failing index reported on failure.
pub open spec fn rk4_run_post<F: Derivative>(
    f: F,
    t0s: int,
    h: int,
    n: int,
    init: Seq<Fixed>,
    fin: Seq<Fixed>,
    r: Result<(), SolverError>,
) -> bool {
    &&& fin.len() >= 1
    &&& fin[0] == init[0]
    &&& forall|i: int|
        0 <= i < fin.len() ==> rk4_traj_res(f, t0s, h, init[0]@, i as nat) == Ok::<
            int,
            SolverError,
        >((#[trigger] fin[i])@)
    &&& match r {
        Ok(_) => fin.len() == n,
        Err(e) => fin.len() < n && rk4_traj_res(f, t0s, h, init[0]@, fin.len() as nat) == Err::<
            int,
            SolverError,
        >(e),
    }
}

/// One executable Runge-Kutta update toward sample `index`, proved to
/// agree stage for stage with [`rk4_step_res`].
#[verifier::rlimit(100)]
fn rk4_step<F: Derivative>(
    f: &F,
    t_initial: i32,
    time_step: Fixed,
    two: Fixed,
    six: Fixed,
    y_prev: Fixed,
    index: usize,
) -> (r: Result<Fixed, SolverError>)
    requires
        crate::fixed::in_range(t_initial * (SCALE as int)),
        two@ == TWO as int,
        six@ == SIX as int,
    ensures
        crate::fixed::agrees(
            r,
            rk4_step_res(*f, t_initial * (SCALE as int), time_step@, y_prev@, index as int),
        ),
{
    proof {
        reveal(rk4_step_res);
        reveal(rk4_step_tail);
    }
    let t_i = match sample_time(t_initial, time_step, index) {
        Ok(v) => v,
        Err(e) => return Err(e),
    };
    let a1 = match f.rate(t_i, y_prev) {
        Ok(v) => v,
        Err(e) => return Err(e),
    };
    let k1 = match time_step.mul(a1) {
        Ok(v) => v,
        Err(e) => return Err(e),
    };
    let h_half = match time_step.div(two) {
        Ok(v) => v,
        Err(e) => return Err(e),
    };
    let t_mid = match t_i.add(h_half) {
        Ok(v) => v,
        Err(e) => return Err(e),
    };
    let k1_half = match k1.div(two) {
        Ok(v) => v,
        Err(e) => return Err(e),
    };
    let y_mid1 = match y_prev.add(k1_half) {
        Ok(v) => v,
        Err(e) => return Err(e),
    };
    let a2 = match f.rate(t_mid, y_mid1) {
        Ok(v) => v,
        Err(e) => return Err(e),
    };
    let k2 = match time_step.mul(a2) {
        Ok(v) => v,
        Err(e) => return Err(e),
    };
    let k2_half = match k2.div(two) {
        Ok(v) => v,
        Err(e) => return Err(e),
    };
    let y_mid2 = match y_prev.add(k2_half) {
        Ok(v) => v,
        Err(e) => return Err(e),
    };
    let a3 = match f.rate(t_mid, y_mid2) {
        Ok(v) => v,
        Err(e) => return Err(e),
    };
    let k3 = match time_step.mul(a3) {
        Ok(v) => v,
        Err(e) => return Err(e),
    };
    let t_end = match t_i.add(time_step) {
        Ok(v) => v,
        Err(e) => return Err(e),
    };
    let y_end = match y_prev.add(k3) {
        Ok(v) => v,
        Err(e) => return Err(e),
    };
    let a4 = match f.rate(t_end, y_end) {
        Ok(v) => v,
        Err(e) => return Err(e),
    };
    let k4 = match time_step.mul(a4) {
        Ok(v) => v,
        Err(e) => return Err(e),
    };
    let k2_dbl = match two.mul(k2) {
        Ok(v) => v,
        Err(e) => return Err(e),
    };
    let k3_dbl = match two.mul(k3) {
        Ok(v) => v,
        Err(e) => return Err(e),
    };
    let s1 = match k1.add(k2_dbl) {
        Ok(v) => v,
        Err(e) => return Err(e),
    };
    let s2 = match s1.add(k3_dbl) {
        Ok(v) => v,
        Err(e) => return Err(e),
    };
    let s3 = match s2.add(k4) {
        Ok(v) => v,
        Err(e) => return Err(e),
    };
    let inc = match s3.div(six) {
        Ok(v) => v,
        Err(e) => return Err(e),
    };
    match y_prev.add(inc) {
        Ok(v) => Ok(v),
        Err(e) => Err(e),
    }
}

/// Fill the seeded trajectory with classical 4th-order Runge-Kutta
/// samples.
pub fn runge_kutta_4<F: Derivative>(
    f: &F,
    num_steps: i32,
    t_initial: i32,
    time_step: Fixed,
    solution: &mut Vec<Fixed>,
) -> (r: Result<(), SolverError>)
    requires
        old(solution)@.len() == 1,
        1 <= num_steps,
        time_step@ > 0,
        crate::fixed::in_range(t_initial * (SCALE as int)),
    ensures
        rk4_run_post(
            *f,
            t_initial * (SCALE as int),
            time_step@,
            num_steps as int,
            old(solution)@,
            final(solution)@,
            r,
        ),
{
    let ghost fval = *f;
    let ghost t0s = t_initial * (SCALE as int);
    let ghost h = time_step@;
    let ghost y0 = solution@[0]@;
    let ghost init0 = solution@[0];
    let two = Fixed::from_scaled(TWO);
    let six = Fixed::from_scaled(SIX);
    let mut index: usize = 1;
    while index < num_steps as usize
        invariant
            fval == *f,
            t0s == t_initial * (SCALE as int),
            crate::fixed::in_range(t0s),
            h == time_step@,
            two@ == TWO as int,
            six@ == SIX as int,
            1 <= num_steps,
            1 <= index <= num_steps as usize,
            solution@.len() == index,
            solution@[0] == init0,
            init0 == old(solution)@[0],
            init0@ == y0,
            forall|i: int|
                0 <= i < index ==> rk4_traj_res(fval, t0s, h, y0, i as nat) == Ok::<
                    int,
                    SolverError,
                >((#[trigger] solution@[i])@),
        decreases num_steps - index,
    {
        let ghost current = rk4_traj_res(fval, t0s, h, y0, index as nat);
        let y_prev = solution[index - 1];
        let y_new = match rk4_step(f, t_initial, time_step, two, six, y_prev, index) {
            Ok(v) => v,
            Err(e) => {
                proof {
                    assert(current == Err::<int, SolverError>(e));
                }
                return Err(e);
            },
        };
        proof {
            assert(current == Ok::<int, SolverError>(y_new@));
        }
        solution.push(y_new);
        index = index + 1;
    }
    Ok(())
}

/// The Runge-Kutta rule over a named parameter bundle.
pub struct RungeKuttaSolver<'a, F> {
    pub solver: Box<OdeSolver<'a, F>>,
}

impl<'a, F> RungeKuttaSolver<'a, F> {
    /// The parameter bundle this rule runs over.
    pub open spec fn params_spec(&self) -> OdeSolverParams<F> {
        *self.solver.params
    }
}

impl<'a, F: Derivative> RungeKuttaSolver<'a, F> {
    /// Fill the seeded trajectory with Runge-Kutta samples.
    pub fn runge_kutta(&self, solution: &mut Vec<Fixed>) -> (r: Result<(), SolverError>)
        requires
            old(solution)@.len() == 1,
            self.params_spec().wf(),
        ensures
            rk4_run_post(
                self.params_spec().f,
                self.params_spec().t0_mant(),
                self.params_spec().time_step@,
                self.params_spec().num_steps as int,
                old(solution)@,
                final(solution)@,
                r,
            ),
    {
        let p: &OdeSolverParams<F> = self.solver.params;
        runge_kutta_4(&p.f, p.num_steps, p.t_initial, p.time_step, solution)
    }
}

impl<'a, F: Derivative> Solve for RungeKuttaSolver<'a, F> {
    /// The buffer holds exactly the initial condition, and the
    /// parameters satisfy their construction invariant.
    open spec fn solve_pre(&self, init: Seq<Fixed>) -> bool {
        init.len() == 1 && self.params_spec().wf()
    }

    /// The exact Runge-Kutta recurrence, sample for sample.
    open spec fn solve_post(
        &self,
        init: Seq<Fixed>,
        fin: Seq<Fixed>,
        r: Result<(), SolverError>,
    ) -> bool {
        rk4_run_post(
            self.params_spec().f,
            self.params_spec().t0_mant(),
            self.params_spec().time_step@,
            self.params_spec().num_steps as int,
            init,
            fin,
            r,
        )
    }

    /// Solves the ODE with the Runge-Kutta rule.
    fn solve(&self, solution: &mut Vec<Fixed>) -> (r: Result<(), SolverError>) {
        self.runge_kutta(solution)
    }
}

impl<'a, F> Printable for RungeKuttaSolver<'a, F> {
    open spec fn pairs_pre(&self) -> bool {
        self.params_spec().wf()
    }

    open spec fn pairs_post(
        &self,
        sol: Seq<Fixed>,
        r: Result<Vec<(Fixed, Fixed)>, SolverError>,
    ) -> bool {
        trajectory_pairs_post(self.params_spec(), sol, r)
    }

    fn print_val(&self, solution: &Vec<Fixed>) -> (r: Result<Vec<(Fixed, Fixed)>, SolverError>) {
        trajectory_pairs(self.solver.params, solution)
    }
}

impl<'a, F> PlotSolution for RungeKuttaSolver<'a, F> {
    open spec fn plot_pre(&self) -> bool {
        self.params_spec().wf()
    }

    open spec fn plot_post(
        &self,
        sol: Seq<Fixed>,
        r: Result<(Vec<Fixed>, Vec<Fixed>), SolverError>,
    ) -> bool {
        plot_arrays_post(self.params_spec(), sol, r)
    }

    fn plot_solution(&self, solution: &Vec<Fixed>) -> (r: Result<
        (Vec<Fixed>, Vec<Fixed>),
        SolverError,
    >) {
        plot_arrays(self.solver.params, solution)
    }
}

impl<'a, F> WriteSolution for RungeKuttaSolver<'a, F> {
    open spec fn lines_post(&self, sol: Seq<Fixed>, r: Vec<String>) -> bool {
        solution_lines_post(sol, r@)
    }

    fn write_solution(&self, solution: &Vec<Fixed>) -> (r: Vec<String>) {
        solution_lines(solution)
    }
}

impl<'a, F> SolverChoice for RungeKuttaSolver<'a, F> {
    open spec fn kind_spec(&self) -> SolverKind {
        SolverKind::RungeKutta4
    }

    open spec fn name_spec(&self) -> Seq<char> {
        self.solver.name@
    }

    fn choose_solver(&self) -> (r: SolverKind) {
        SolverKind::RungeKutta4
    }

    fn name_solver(&self) -> (r: &str) {
        self.solver.name
    }
}

} // verus!
