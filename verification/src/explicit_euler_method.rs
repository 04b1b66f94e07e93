//! The explicit (forward) Euler rule, the baseline integration rule.
//!
//! For each index i in [1, num_steps): t_i = t_initial + i * time_step
//! and y_i = y_{i-1} + time_step * f(t_i, y_{i-1}).  The spec functions
//! below state that recurrence exactly, rounding for rounding, and the
//! executable rule is proved to follow it sample for sample.

use crate::fixed::{add_res, mul_res, Fixed};
use crate::ode_solver::{
    plot_arrays, plot_arrays_post, time_res, trajectory_pairs, trajectory_pairs_post, Derivative,
    OdeSolver, OdeSolverParams, PlotSolution, Printable, Solve, SolverChoice, SolverKind, WriteSolution,
};
use crate::text::{solution_lines, solution_lines_post};
use crate::SolverError;
use vstd::prelude::*;

verus! {

/// One explicit Euler update from state `y` toward sample `i`:
/// `y + h * f(t_i, y)`, or the first failure along that evaluation.
pub open spec fn euler_step_res<F: Derivative>(
    f: F,
    t0s: int,
    h: int,
    y: int,
    i: int,
) -> Result<int, SolverError> {
    match time_res(t0s, h, i) {
        Err(e) => Err(e),
        Ok(t) => match f.rate_res(t, y) {
            Err(e) => Err(e),
            Ok(fv) => match mul_res(h, fv) {
                Err(e) => Err(e),
                Ok(inc) => add_res(y, inc),
            },
        },
    }
}

/// The explicit Euler trajectory value at index `i`, as a function of
/// the initial value alone: sample 0 is the seed, and every later sample
/// is one update from its predecessor.
pub open spec fn euler_traj_res<F: Derivative>(
    f: F,
    t0s: int,
    h: int,
    y0: int,
    i: nat,
) -> Result<int, SolverError>
    decreases i,
{
    if i == 0 {
        Ok(y0)
    } else {
        match euler_traj_res(f, t0s, h, y0, (i - 1) as nat) {
            Err(e) => Err(e),
            Ok(y) => euler_step_res(f, t0s, h, y, i as int),
        }
    }
}

/// What a finished explicit Euler run guarantees: the seed is kept at
/// index 0, every stored sample equals the recurrence value of its
/// index, a successful run stores exactly `num_steps` samples, and a
/// failed run stops at the first index whose recurrence value is that
/// same failure.
pub open spec fn euler_solve_post<F: Derivative>(
    p: OdeSolverParams<F>,
    init: Seq<Fixed>,
    fin: Seq<Fixed>,
    r: Result<(), SolverError>,
) -> bool {
    &&& fin.len() >= 1
    &&& fin[0] == init[0]
    &&& forall|i: int|
        0 <= i < fin.len() ==> euler_traj_res(p.f, p.t0_mant(), p.time_step@, init[0]@, i as nat)
            == Ok::<int, SolverError>((#[trigger] fin[i])@)
    &&& match r {
        Ok(_) => fin.len() == p.num_steps,
        Err(e) => fin.len() < p.num_steps && euler_traj_res(
            p.f,
            p.t0_mant(),
            p.time_step@,
            init[0]@,
            fin.len() as nat,
        ) == Err::<int, SolverError>(e),
    }
}

/// The explicit Euler rule over a named parameter bundle.
pub struct ExplicitEulerSolver<'a, F> {
    pub solver: Box<OdeSolver<'a, F>>,
}

impl<'a, F> ExplicitEulerSolver<'a, F> {
    /// The parameter bundle this rule runs over.
    pub open spec fn params_spec(&self) -> OdeSolverParams<F> {
        *self.solver.params
    }
}

impl<'a, F: Derivative> ExplicitEulerSolver<'a, F> {
    /// Fill the seeded trajectory with explicit Euler samples.
    pub fn solve_euler_method(&self, solution: &mut Vec<Fixed>) -> (r: Result<(), SolverError>)
        requires
            old(solution)@.len() == 1,
            self.params_spec().wf(),
        ensures
            euler_solve_post(self.params_spec(), old(solution)@, final(solution)@, r),
    {
        let p: &OdeSolverParams<F> = self.solver.params;
        let ghost fval = p.f;
        let ghost t0s = p.t0_mant();
        let ghost h = p.time_step@;
        let ghost y0 = solution@[0]@;
        let ghost init0 = solution@[0];
        let num = p.num_steps;
        let mut index: usize = 1;
        while index < num as usize
            invariant
                p == self.solver.params,
                p.wf(),
                fval == p.f,
                t0s == p.t0_mant(),
                h == p.time_step@,
                num == p.num_steps,
                1 <= index <= num as usize,
                solution@.len() == index,
                solution@[0] == init0,
                init0 == old(solution)@[0],
                init0@ == y0,
                forall|i: int|
                    0 <= i < index ==> euler_traj_res(fval, t0s, h, y0, i as nat) == Ok::<
                        int,
                        SolverError,
                    >((#[trigger] solution@[i])@),
            decreases num - index,
        {
            let y_prev = solution[index - 1];
            let t_i = match p.time_at(index) {
                Ok(t) => t,
                Err(e) => {
                    proof {
                        assert(euler_traj_res(fval, t0s, h, y0, index as nat) == Err::<
                            int,
                            SolverError,
                        >(e));
                    }
                    return Err(e);
                },
            };
            let fv = match p.f.rate(t_i, y_prev) {
                Ok(v) => v,
                Err(e) => {
                    proof {
                        assert(euler_traj_res(fval, t0s, h, y0, index as nat) == Err::<
                            int,
                            SolverError,
                        >(e));
                    }
                    return Err(e);
                },
            };
            let inc = match p.time_step.mul(fv) {
                Ok(v) => v,
                Err(e) => {
                    proof {
                        assert(euler_traj_res(fval, t0s, h, y0, index as nat) == Err::<
                            int,
                            SolverError,
                        >(e));
                    }
                    return Err(e);
                },
            };
            let y_new = match y_prev.add(inc) {
                Ok(v) => v,
                Err(e) => {
                    proof {
                        assert(euler_traj_res(fval, t0s, h, y0, index as nat) == Err::<
                            int,
                            SolverError,
                        >(e));
                    }
                    return Err(e);
                },
            };
            proof {
                assert(euler_traj_res(fval, t0s, h, y0, index as nat) == Ok::<int, SolverError>(
                    y_new@,
                ));
            }
            solution.push(y_new);
            index = index + 1;
        }
        Ok(())
    }
}

impl<'a, F: Derivative> Solve for ExplicitEulerSolver<'a, F> {
    /// The buffer holds exactly the initial condition, and the
    /// parameters satisfy their construction invariant.
    open spec fn solve_pre(&self, init: Seq<Fixed>) -> bool {
        init.len() == 1 && self.params_spec().wf()
    }

    /// The exact explicit Euler recurrence, sample for sample.
    open spec fn solve_post(
        &self,
        init: Seq<Fixed>,
        fin: Seq<Fixed>,
        r: Result<(), SolverError>,
    ) -> bool {
        euler_solve_post(self.params_spec(), init, fin, r)
    }

    /// Solves the ODE with the explicit Euler rule.
    fn solve(&self, solution: &mut Vec<Fixed>) -> (r: Result<(), SolverError>) {
        self.solve_euler_method(solution)
    }
}

impl<'a, F> Printable for ExplicitEulerSolver<'a, F> {
    open spec fn pairs_pre(&self) -> bool {
        self.params_spec().wf()
    }

    open spec fn pairs_post(
        &self,
        sol: Seq<Fixed>,
        r: Result<Vec<(Fixed, Fixed)>, SolverError>,
    ) -> bool {
        trajectory_pairs_post(self.params_spec(), sol, r)
    }

    fn print_val(&self, solution: &Vec<Fixed>) -> (r: Result<Vec<(Fixed, Fixed)>, SolverError>) {
        trajectory_pairs(self.solver.params, solution)
    }
}

impl<'a, F> PlotSolution for ExplicitEulerSolver<'a, F> {
    open spec fn plot_pre(&self) -> bool {
        self.params_spec().wf()
    }

    open spec fn plot_post(
        &self,
        sol: Seq<Fixed>,
        r: Result<(Vec<Fixed>, Vec<Fixed>), SolverError>,
    ) -> bool {
        plot_arrays_post(self.params_spec(), sol, r)
    }

    fn plot_solution(&self, solution: &Vec<Fixed>) -> (r: Result<
        (Vec<Fixed>, Vec<Fixed>),
        SolverError,
    >) {
        plot_arrays(self.solver.params, solution)
    }
}

impl<'a, F> WriteSolution for ExplicitEulerSolver<'a, F> {
    open spec fn lines_post(&self, sol: Seq<Fixed>, r: Vec<String>) -> bool {
        solution_lines_post(sol, r@)
    }

    fn write_solution(&self, solution: &Vec<Fixed>) -> (r: Vec<String>) {
        solution_lines(solution)
    }
}

impl<'a, F> SolverChoice for ExplicitEulerSolver<'a, F> {
    open spec fn kind_spec(&self) -> SolverKind {
        SolverKind::ExplicitEuler
    }

    open spec fn name_spec(&self) -> Seq<char> {
        self.solver.name@
    }

    fn choose_solver(&self) -> (r: SolverKind) {
        SolverKind::ExplicitEuler
    }

    fn name_solver(&self) -> (r: &str) {
        self.solver.name
    }
}

} // verus!
