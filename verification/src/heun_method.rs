//! The Heun rule: an explicit trapezoidal predictor-corrector.
//!
//! For each step, k1 = h * f(t_i, y) is an Euler predictor slope,
//! k2 = h * f(t_i + h, y + k1) re-evaluates the slope at the predicted
//! endpoint, and the new sample is y + (k1 + k2) / 2.

use crate::fixed::{add_res, mul_res, Fixed};
use crate::ode_solver::{
    plot_arrays, plot_arrays_post, time_res, trajectory_pairs, trajectory_pairs_post, Derivative,
    OdeSolver, OdeSolverParams, PlotSolution, Printable, Solve, SolverChoice, SolverKind, WriteSolution,
};
use crate::text::{solution_lines, solution_lines_post};
use crate::SolverError;
use vstd::prelude::*;

verus! {

/// Mantissa of one half.
pub const HALF: i64 = 500_000_000_000;

/// One Heun update from state `y` toward sample `i`:
/// `y + (k1 + k2) / 2`, or the first failure along that evaluation.
pub open spec fn heun_step_res<F: Derivative>(
    f: F,
    t0s: int,
    h: int,
    y: int,
    i: int,
) -> Result<int, SolverError> {
    match time_res(t0s, h, i) {
        Err(e) => Err(e),
        Ok(t) => match f.rate_res(t, y) {
            Err(e) => Err(e),
            Ok(f1) => match mul_res(h, f1) {
                Err(e) => Err(e),
                Ok(k1) => match add_res(t, h) {
                    Err(e) => Err(e),
                    Ok(t2) => match add_res(y, k1) {
                        Err(e) => Err(e),
                        Ok(y1) => match f.rate_res(t2, y1) {
                            Err(e) => Err(e),
                            Ok(f2) => match mul_res(h, f2) {
                                Err(e) => Err(e),
                                Ok(k2) => match add_res(k1, k2) {
                                    Err(e) => Err(e),
                                    Ok(s) => match mul_res(HALF as int, s) {
                                        Err(e) => Err(e),
                                        Ok(inc) => add_res(y, inc),
                                    },
                                },
                            },
                        },
                    },
                },
            },
        },
    }
}

/// The Heun trajectory value at index `i`: sample 0 is the seed, and
/// every later sample is one Heun update from its predecessor.
pub open spec fn heun_traj_res<F: Derivative>(
    f: F,
    t0s: int,
    h: int,
    y0: int,
    i: nat,
) -> Result<int, SolverError>
    decreases i,
{
    if i == 0 {
        Ok(y0)
    } else {
        match heun_traj_res(f, t0s, h, y0, (i - 1) as nat) {
            Err(e) => Err(e),
            Ok(y) => heun_step_res(f, t0s, h, y, i as int),
        }
    }
}

/// What a finished Heun run guarantees, in the shape shared by all four
/// rules: seed kept, samples equal to the recurrence, full length on
/// success, first failing index reported on failure.
pub open spec fn heun_solve_post<F: Derivative>(
    p: OdeSolverParams<F>,
    init: Seq<Fixed>,
    fin: Seq<Fixed>,
    r: Result<(), SolverError>,
) -> bool {
    &&& fin.len() >= 1
    &&& fin[0] == init[0]
    &&& forall|i: int|
        0 <= i < fin.len() ==> heun_traj_res(p.f, p.t0_mant(), p.time_step@, init[0]@, i as nat)
            == Ok::<int, SolverError>((#[trigger] fin[i])@)
    &&& match r {
        Ok(_) => fin.len() == p.num_steps,
        Err(e) => fin.len() < p.num_steps && heun_traj_res(
            p.f,
            p.t0_mant(),
            p.time_step@,
            init[0]@,
            fin.len() as nat,
        ) == Err::<int, SolverError>(e),
    }
}

/// The Heun rule over a named parameter bundle.
pub struct HeunSolver<'a, F> {
    pub solver: Box<OdeSolver<'a, F>>,
}

impl<'a, F> HeunSolver<'a, F> {
    /// The parameter bundle this rule runs over.
    pub open spec fn params_spec(&self) -> OdeSolverParams<F> {
        *self.solver.params
    }
}

impl<'a, F: Derivative> HeunSolver<'a, F> {
    /// Fill the seeded trajectory with Heun samples.
    pub fn heun_method(&self, solution: &mut Vec<Fixed>) -> (r: Result<(), SolverError>)
        requires
            old(solution)@.len() == 1,
            self.params_spec().wf(),
        ensures
            heun_solve_post(self.params_spec(), old(solution)@, final(solution)@, r),
    {
        let p: &OdeSolverParams<F> = self.solver.params;
        let ghost fval = p.f;
        let ghost t0s = p.t0_mant();
        let ghost h = p.time_step@;
        let ghost y0 = solution@[0]@;
        let ghost init0 = solution@[0];
        let half = Fixed::from_scaled(HALF);
        let num = p.num_steps;
        let mut index: usize = 1;
        while index < num as usize
            invariant
                p == self.solver.params,
                p.wf(),
                fval == p.f,
                t0s == p.t0_mant(),
                h == p.time_step@,
                half@ == HALF as int,
                num == p.num_steps,
                1 <= index <= num as usize,
                solution@.len() == index,
                solution@[0] == init0,
                init0 == old(solution)@[0],
                init0@ == y0,
                forall|i: int|
                    0 <= i < index ==> heun_traj_res(fval, t0s, h, y0, i as nat) == Ok::<
                        int,
                        SolverError,
                    >((#[trigger] solution@[i])@),
            decreases num - index,
        {
            let ghost failing = heun_traj_res(fval, t0s, h, y0, index as nat);
            let y_prev = solution[index - 1];
            let t_i = match p.time_at(index) {
                Ok(v) => v,
                Err(e) => {
                    proof {
                        assert(failing == Err::<int, SolverError>(e));
                    }
                    return Err(e);
                },
            };
            let f1 = match p.f.rate(t_i, y_prev) {
                Ok(v) => v,
                Err(e) => {
                    proof {
                        assert(failing == Err::<int, SolverError>(e));
                    }
                    return Err(e);
                },
            };
            let k1 = match p.time_step.mul(f1) {
                Ok(v) => v,
                Err(e) => {
                    proof {
                        assert(failing == Err::<int, SolverError>(e));
                    }
                    return Err(e);
                },
            };
            let t_end = match t_i.add(p.time_step) {
                Ok(v) => v,
                Err(e) => {
                    proof {
                        assert(failing == Err::<int, SolverError>(e));
                    }
                    return Err(e);
                },
            };
            let y_pred = match y_prev.add(k1) {
                Ok(v) => v,
                Err(e) => {
                    proof {
                        assert(failing == Err::<int, SolverError>(e));
                    }
                    return Err(e);
                },
            };
            let f2 = match p.f.rate(t_end, y_pred) {
                Ok(v) => v,
                Err(e) => {
                    proof {
                        assert(failing == Err::<int, SolverError>(e));
                    }
                    return Err(e);
                },
            };
            let k2 = match p.time_step.mul(f2) {
                Ok(v) => v,
                Err(e) => {
                    proof {
                        assert(failing == Err::<int, SolverError>(e));
                    }
                    return Err(e);
                },
            };
            let k_sum = match k1.add(k2) {
                Ok(v) => v,
                Err(e) => {
                    proof {
                        assert(failing == Err::<int, SolverError>(e));
                    }
                    return Err(e);
                },
            };
            let inc = match half.mul(k_sum) {
                Ok(v) => v,
                Err(e) => {
                    proof {
                        assert(failing == Err::<int, SolverError>(e));
                    }
                    return Err(e);
                },
            };
            let y_new = match y_prev.add(inc) {
                Ok(v) => v,
                Err(e) => {
                    proof {
                        assert(failing == Err::<int, SolverError>(e));
                    }
                    return Err(e);
                },
            };
            proof {
                assert(failing == Ok::<int, SolverError>(y_new@));
            }
            solution.push(y_new);
            index = index + 1;
        }
        Ok(())
    }
}

impl<'a, F: Derivative> Solve for HeunSolver<'a, F> {
    /// The buffer holds exactly the initial condition, and the
    /// parameters satisfy their construction invariant.
    open spec fn solve_pre(&self, init: Seq<Fixed>) -> bool {
        init.len() == 1 && self.params_spec().wf()
    }

    /// The exact Heun recurrence, sample for sample.
    open spec fn solve_post(
        &self,
        init: Seq<Fixed>,
        fin: Seq<Fixed>,
        r: Result<(), SolverError>,
    ) -> bool {
        heun_solve_post(self.params_spec(), init, fin, r)
    }

    /// Solves the ODE with the Heun rule.
    fn solve(&self, solution: &mut Vec<Fixed>) -> (r: Result<(), SolverError>) {
        self.heun_method(solution)
    }
}

impl<'a, F> Printable for HeunSolver<'a, F> {
    open spec fn pairs_pre(&self) -> bool {
        self.params_spec().wf()
    }

    open spec fn pairs_post(
        &self,
        sol: Seq<Fixed>,
        r: Result<Vec<(Fixed, Fixed)>, SolverError>,
    ) -> bool {
        trajectory_pairs_post(self.params_spec(), sol, r)
    }

    fn print_val(&self, solution: &Vec<Fixed>) -> (r: Result<Vec<(Fixed, Fixed)>, SolverError>) {
        trajectory_pairs(self.solver.params, solution)
    }
}

impl<'a, F> PlotSolution for HeunSolver<'a, F> {
    open spec fn plot_pre(&self) -> bool {
        self.params_spec().wf()
    }

    open spec fn plot_post(
        &self,
        sol: Seq<Fixed>,
        r: Result<(Vec<Fixed>, Vec<Fixed>), SolverError>,
    ) -> bool {
        plot_arrays_post(self.params_spec(), sol, r)
    }

    fn plot_solution(&self, solution: &Vec<Fixed>) -> (r: Result<
        (Vec<Fixed>, Vec<Fixed>),
        SolverError,
    >) {
        plot_arrays(self.solver.params, solution)
    }
}

impl<'a, F> WriteSolution for HeunSolver<'a, F> {
    open spec fn lines_post(&self, sol: Seq<Fixed>, r: Vec<String>) -> bool {
        solution_lines_post(sol, r@)
    }

    fn write_solution(&self, solution: &Vec<Fixed>) -> (r: Vec<String>) {
        solution_lines(solution)
    }
}

impl<'a, F> SolverChoice for HeunSolver<'a, F> {
    open spec fn kind_spec(&self) -> SolverKind {
        SolverKind::Heun
    }

    open spec fn name_spec(&self) -> Seq<char> {
        self.solver.name@
    }

    fn choose_solver(&self) -> (r: SolverKind) {
        SolverKind::Heun
    }

    fn name_solver(&self) -> (r: &str) {
        self.solver.name
    }
}

} // verus!
