//! The implicit (backward) Euler rule.
//!
//! For each step the unknown next sample z solves the nonlinear stage
//! equation g(z) = z - y_i - h * f(t_{i+1}, z) = 0, with derivative
//! g'(z) = 1 - h * f'(t_{i+1}, z).  The equation is handed to the
//! Newton-Raphson root finder with the previous sample as the initial
//! guess; the root becomes the next sample.  A step whose root search
//! exhausts the iteration cap still appends the best-effort root, and
//! the run reports how many steps did so.

use crate::fixed::{mul_res, sub_res, Fixed, SCALE};
use crate::newton_raphson_method::{newton_raphson_method_root, newton_res, Residual};
use crate::ode_solver::{
    plot_arrays, plot_arrays_post, sample_time, time_res, trajectory_pairs,
    trajectory_pairs_post, Derivative, OdeSolver, OdeSolverParams, PlotSolution, Printable,
    Solve, SolverChoice, SolverKind, WriteSolution,
};
use crate::text::{solution_lines, solution_lines_post};
use crate::SolverError;
use vstd::prelude::*;

verus! {

/// The per-step nonlinear residual: g(z) = (z - y) - h * f(t, z), over
/// mantissas, with the first failure of its evaluation.
pub open spec fn stage_g_res<F: Derivative>(
    f: F,
    t: int,
    y: int,
    h: int,
    z: int,
) -> Result<int, SolverError> {
    match sub_res(z, y) {
        Err(e) => Err(e),
        Ok(a) => match f.rate_res(t, z) {
            Err(e) => Err(e),
            Ok(fv) => match mul_res(h, fv) {
                Err(e) => Err(e),
                Ok(inc) => sub_res(a, inc),
            },
        },
    }
}

/// The derivative of the per-step residual: g'(z) = 1 - h * f'(t, z),
/// over mantissas, with the first failure of its evaluation.
pub open spec fn stage_g_prime_res<F: Derivative>(
    f: F,
    t: int,
    h: int,
    z: int,
) -> Result<int, SolverError> {
    match f.prime_res(t, z) {
        Err(e) => Err(e),
        Ok(fv) => match mul_res(h, fv) {
            Err(e) => Err(e),
            Ok(inc) => sub_res(SCALE as int, inc),
        },
    }
}

/// One step's nonlinear equation, with its capture set spelled out: the
/// derivative function, the time of the sample being produced, the
/// previous sample and the step size.
pub struct StageEquation<'a, F> {
    pub f: &'a F,
    pub t_next: Fixed,
    pub y_prev: Fixed,
    pub h: Fixed,
}

impl<'a, F: Derivative> Residual for StageEquation<'a, F> {
    /// The stage residual at `z`.
    open spec fn g_res(&self, z: int) -> Result<int, SolverError> {
        stage_g_res(*self.f, self.t_next@, self.y_prev@, self.h@, z)
    }

    /// The stage residual derivative at `z`.
    open spec fn g_prime_res(&self, z: int) -> Result<int, SolverError> {
        stage_g_prime_res(*self.f, self.t_next@, self.h@, z)
    }

    fn g(&self, z: Fixed) -> (r: Result<Fixed, SolverError>) {
        let a = match z.sub(self.y_prev) {
            Ok(v) => v,
            Err(e) => return Err(e),
        };
        let fv = match self.f.rate(self.t_next, z) {
            Ok(v) => v,
            Err(e) => return Err(e),
        };
        let inc = match self.h.mul(fv) {
            Ok(v) => v,
            Err(e) => return Err(e),
        };
        match a.sub(inc) {
            Ok(v) => Ok(v),
            Err(e) => Err(e),
        }
    }

    fn g_prime(&self, z: Fixed) -> (r: Result<Fixed, SolverError>) {
        let fv = match self.f.rate_prime(self.t_next, z) {
            Ok(v) => v,
            Err(e) => return Err(e),
        };
        let inc = match self.h.mul(fv) {
            Ok(v) => v,
            Err(e) => return Err(e),
        };
        match Fixed::from_scaled(SCALE).sub(inc) {
            Ok(v) => Ok(v),
            Err(e) => Err(e),
        }
    }
}

/// The stage residual as a function of the unknown next sample, with
/// its capture set applied.
pub open spec fn stage_g_fn<F: Derivative>(f: F, t: int, y: int, h: int) -> spec_fn(int) -> Result<
    int,
    SolverError,
> {
    |z: int| stage_g_res(f, t, y, h, z)
}

/// The stage residual derivative as a function of the unknown next
/// sample, with its capture set applied.
pub open spec fn stage_g_prime_fn<F: Derivative>(f: F, t: int, h: int) -> spec_fn(int) -> Result<
    int,
    SolverError,
> {
    |z: int| stage_g_prime_res(f, t, h, z)
}

/// One implicit Euler step toward sample `i` from state `y`: the root
/// the Newton-Raphson search returns for the stage equation at the time
/// of sample `i`, together with its update count, or the first failure.
pub open spec fn implicit_step_res<F: Derivative>(
    f: F,
    t0s: int,
    h: int,
    tol: int,
    max_iters: int,
    y: int,
    i: int,
) -> Result<(int, int), SolverError> {
    match time_res(t0s, h, i) {
        Err(e) => Err(e),
        Ok(t) => newton_res(stage_g_fn(f, t, y, h), stage_g_prime_fn(f, t, h), y, 0, tol, max_iters),
    }
}

/// The implicit Euler run up to index `i`: the trajectory value at `i`
/// paired with how many of the steps so far exhausted the iteration cap,
/// or the first failure of the run.
pub open spec fn implicit_run_res<F: Derivative>(
    f: F,
    t0s: int,
    h: int,
    tol: int,
    max_iters: int,
    y0: int,
    i: nat,
) -> Result<(int, int), SolverError>
    decreases i,
{
    if i == 0 {
        Ok((y0, 0))
    } else {
        match implicit_run_res(f, t0s, h, tol, max_iters, y0, (i - 1) as nat) {
            Err(e) => Err(e),
            Ok(p) => match implicit_step_res(f, t0s, h, tol, max_iters, p.0, i as int) {
                Err(e) => Err(e),
                Ok(q) => Ok((q.0, p.1 + (if q.1 > max_iters { 1int } else { 0int }))),
            },
        }
    }
}

/// Whether the implicit run reaches index `i` and stores exactly the
/// value `v` there.
pub open spec fn implicit_sample_ok<F: Derivative>(
    f: F,
    t0s: int,
    h: int,
    tol: int,
    max_iters: int,
    y0: int,
    i: nat,
    v: Fixed,
) -> bool {
    match implicit_run_res(f, t0s, h, tol, max_iters, y0, i) {
        Ok(q) => q.0 == v@,
        Err(_) => false,
    }
}

/// Whether the implicit run reaches index `i` with exactly `w` steps
/// that exhausted the iteration cap.
pub open spec fn implicit_warns_ok<F: Derivative>(
    f: F,
    t0s: int,
    h: int,
    tol: int,
    max_iters: int,
    y0: int,
    i: nat,
    w: int,
) -> bool {
    match implicit_run_res(f, t0s, h, tol, max_iters, y0, i) {
        Ok(q) => q.1 == w,
        Err(_) => false,
    }
}

/// What a finished implicit Euler run guarantees, over the raw
/// parameters of the run: seed kept, samples equal to the Newton-backed
/// recurrence, full length and exact cap-exhaustion count on success,
/// first failing index reported on failure.
pub open spec fn implicit_run_post<F: Derivative>(
    f: F,
    t0s: int,
    h: int,
    tol: int,
    max_iters: int,
    n: int,
    init: Seq<Fixed>,
    fin: Seq<Fixed>,
    r: Result<u32, SolverError>,
) -> bool {
    &&& fin.len() >= 1
    &&& fin[0] == init[0]
    &&& forall|i: int|
        0 <= i < fin.len() ==> implicit_sample_ok(
            f,
            t0s,
            h,
            tol,
            max_iters,
            init[0]@,
            i as nat,
            #[trigger] fin[i],
        )
    &&& match r {
        Ok(w) => fin.len() == n && implicit_warns_ok(
            f,
            t0s,
            h,
            tol,
            max_iters,
            init[0]@,
            (fin.len() - 1) as nat,
            w as int,
        ),
        Err(e) => fin.len() < n && implicit_run_res(
            f,
            t0s,
            h,
            tol,
            max_iters,
            init[0]@,
            fin.len() as nat,
        ) == Err::<(int, int), SolverError>(e),
    }
}

/// One executable implicit Euler step toward sample `index`, proved to
/// agree with [`implicit_step_res`].
fn implicit_step<F: Derivative>(
    f: &F,
    t_initial: i32,
    time_step: Fixed,
    tol: Fixed,
    max_iters: i32,
    y_prev: Fixed,
    index: usize,
) -> (r: Result<(Fixed, i32), SolverError>)
    requires
        crate::fixed::in_range(t_initial * (SCALE as int)),
        tol@ >= 0,
        0 <= max_iters < i32::MAX,
    ensures
        (match r {
            Ok(p) => implicit_step_res(
                *f,
                t_initial * (SCALE as int),
                time_step@,
                tol@,
                max_iters as int,
                y_prev@,
                index as int,
            ) == Ok::<(int, int), SolverError>((p.0@, p.1 as int)),
            Err(e) => implicit_step_res(
                *f,
                t_initial * (SCALE as int),
                time_step@,
                tol@,
                max_iters as int,
                y_prev@,
                index as int,
            ) == Err::<(int, int), SolverError>(e),
        }),
{
    let t_next = match sample_time(t_initial, time_step, index) {
        Ok(v) => v,
        Err(e) => return Err(e),
    };
    let equation = StageEquation { f, t_next, y_prev, h: time_step };
    proof {
        assert((|z: int| equation.g_res(z)) =~= stage_g_fn(*f, t_next@, y_prev@, time_step@));
        assert((|z: int| equation.g_prime_res(z)) =~= stage_g_prime_fn(*f, t_next@, time_step@));
    }
    newton_raphson_method_root(&equation, y_prev, tol, max_iters)
}

/// Fill the seeded trajectory with implicit Euler samples, solving one
/// stage equation per step by Newton-Raphson, and report how many steps
/// exhausted the iteration cap (a diagnostic, not a failure).
pub fn implicit_euler_solve<F: Derivative>(
    f: &F,
    num_steps: i32,
    t_initial: i32,
    time_step: Fixed,
    tol: Fixed,
    max_iters: i32,
    solution: &mut Vec<Fixed>,
) -> (r: Result<u32, SolverError>)
    requires
        old(solution)@.len() == 1,
        1 <= num_steps,
        time_step@ > 0,
        tol@ >= 0,
        0 <= max_iters < i32::MAX,
        crate::fixed::in_range(t_initial * (SCALE as int)),
    ensures
        implicit_run_post(
            *f,
            t_initial * (SCALE as int),
            time_step@,
            tol@,
            max_iters as int,
            num_steps as int,
            old(solution)@,
            final(solution)@,
            r,
        ),
{
    let ghost fval = *f;
    let ghost t0s = t_initial * (SCALE as int);
    let ghost h = time_step@;
    let ghost tolm = tol@;
    let ghost maxm = max_iters as int;
    let ghost y0 = solution@[0]@;
    let ghost init0 = solution@[0];
    let mut warnings: u32 = 0;
    let mut index: usize = 1;
    while index < num_steps as usize
        invariant
            fval == *f,
            t0s == t_initial * (SCALE as int),
            crate::fixed::in_range(t0s),
            h == time_step@,
            tolm == tol@,
            tolm >= 0,
            maxm == max_iters as int,
            0 <= max_iters < i32::MAX,
            1 <= num_steps,
            1 <= index <= num_steps as usize,
            solution@.len() == index,
            solution@[0] == init0,
            init0 == old(solution)@[0],
            init0@ == y0,
            warnings < index,
            forall|i: int|
                0 <= i < index ==> implicit_sample_ok(
                    fval,
                    t0s,
                    h,
                    tolm,
                    maxm,
                    y0,
                    i as nat,
                    #[trigger] solution@[i],
                ),
            implicit_warns_ok(fval, t0s, h, tolm, maxm, y0, (index - 1) as nat, warnings as int),
        decreases num_steps - index,
    {
        let ghost current = implicit_run_res(fval, t0s, h, tolm, maxm, y0, index as nat);
        let y_prev = solution[index - 1];
        let (root, iters) = match implicit_step(
            f,
            t_initial,
            time_step,
            tol,
            max_iters,
            y_prev,
            index,
        ) {
            Ok(v) => v,
            Err(e) => {
                proof {
                    assert(current == Err::<(int, int), SolverError>(e));
                }
                return Err(e);
            },
        };
        if iters > max_iters {
            warnings = warnings + 1;
        }
        proof {
            assert(implicit_sample_ok(fval, t0s, h, tolm, maxm, y0, index as nat, root));
            assert(implicit_warns_ok(fval, t0s, h, tolm, maxm, y0, index as nat, warnings as int));
        }
        solution.push(root);
        index = index + 1;
    }
    Ok(warnings)
}

/// The implicit Euler rule over a named parameter bundle.
pub struct ImplicitEulerSolver<'a, F> {
    pub solver: Box<OdeSolver<'a, F>>,
}

impl<'a, F> ImplicitEulerSolver<'a, F> {
    /// The parameter bundle this rule runs over.
    pub open spec fn params_spec(&self) -> OdeSolverParams<F> {
        *self.solver.params
    }
}

impl<'a, F: Derivative> ImplicitEulerSolver<'a, F> {
    /// Fill the seeded trajectory with implicit Euler samples and report
    /// how many steps exhausted the Newton iteration cap.
    pub fn implicit_euler_method(&self, solution: &mut Vec<Fixed>) -> (r: Result<
        u32,
        SolverError,
    >)
        requires
            old(solution)@.len() == 1,
            self.params_spec().wf(),
        ensures
            implicit_run_post(
                self.params_spec().f,
                self.params_spec().t0_mant(),
                self.params_spec().time_step@,
                self.params_spec().tolerance@,
                self.params_spec().max_iters as int,
                self.params_spec().num_steps as int,
                old(solution)@,
                final(solution)@,
                r,
            ),
    {
        let p: &OdeSolverParams<F> = self.solver.params;
        implicit_euler_solve(
            &p.f,
            p.num_steps,
            p.t_initial,
            p.time_step,
            p.tolerance,
            p.max_iters,
            solution,
        )
    }
}

impl<'a, F: Derivative> Solve for ImplicitEulerSolver<'a, F> {
    /// The buffer holds exactly the initial condition, and the
    /// parameters satisfy their construction invariant.
    open spec fn solve_pre(&self, init: Seq<Fixed>) -> bool {
        init.len() == 1 && self.params_spec().wf()
    }

    /// The exact Newton-backed implicit recurrence, sample for sample;
    /// the cap-exhaustion count is dropped here and available through
    /// [`ImplicitEulerSolver::implicit_euler_method`].
    open spec fn solve_post(
        &self,
        init: Seq<Fixed>,
        fin: Seq<Fixed>,
        r: Result<(), SolverError>,
    ) -> bool {
        exists|w: u32|
            implicit_run_post(
                self.params_spec().f,
                self.params_spec().t0_mant(),
                self.params_spec().time_step@,
                self.params_spec().tolerance@,
                self.params_spec().max_iters as int,
                self.params_spec().num_steps as int,
                init,
                fin,
                (match r {
                    Ok(_) => Ok::<u32, SolverError>(w),
                    Err(e) => Err::<u32, SolverError>(e),
                }),
            )
    }

    /// Solves the ODE with the implicit Euler rule.
    fn solve(&self, solution: &mut Vec<Fixed>) -> (r: Result<(), SolverError>) {
        match self.implicit_euler_method(solution) {
            Ok(w) => {
                proof {
                    assert(implicit_run_post(
                        self.params_spec().f,
                        self.params_spec().t0_mant(),
                        self.params_spec().time_step@,
                        self.params_spec().tolerance@,
                        self.params_spec().max_iters as int,
                        self.params_spec().num_steps as int,
                        old(solution)@,
                        solution@,
                        Ok::<u32, SolverError>(w),
                    ));
                }
                Ok(())
            },
            Err(e) => Err(e),
        }
    }
}

impl<'a, F> Printable for ImplicitEulerSolver<'a, F> {
    open spec fn pairs_pre(&self) -> bool {
        self.params_spec().wf()
    }

    open spec fn pairs_post(
        &self,
        sol: Seq<Fixed>,
        r: Result<Vec<(Fixed, Fixed)>, SolverError>,
    ) -> bool {
        trajectory_pairs_post(self.params_spec(), sol, r)
    }

    fn print_val(&self, solution: &Vec<Fixed>) -> (r: Result<Vec<(Fixed, Fixed)>, SolverError>) {
        trajectory_pairs(self.solver.params, solution)
    }
}

impl<'a, F> PlotSolution for ImplicitEulerSolver<'a, F> {
    open spec fn plot_pre(&self) -> bool {
        self.params_spec().wf()
    }

    open spec fn plot_post(
        &self,
        sol: Seq<Fixed>,
        r: Result<(Vec<Fixed>, Vec<Fixed>), SolverError>,
    ) -> bool {
        plot_arrays_post(self.params_spec(), sol, r)
    }

    fn plot_solution(&self, solution: &Vec<Fixed>) -> (r: Result<
        (Vec<Fixed>, Vec<Fixed>),
        SolverError,
    >) {
        plot_arrays(self.solver.params, solution)
    }
}

impl<'a, F> WriteSolution for ImplicitEulerSolver<'a, F> {
    open spec fn lines_post(&self, sol: Seq<Fixed>, r: Vec<String>) -> bool {
        solution_lines_post(sol, r@)
    }

    fn write_solution(&self, solution: &Vec<Fixed>) -> (r: Vec<String>) {
        solution_lines(solution)
    }
}

impl<'a, F> SolverChoice for ImplicitEulerSolver<'a, F> {
    open spec fn kind_spec(&self) -> SolverKind {
        SolverKind::ImplicitEuler
    }

    open spec fn name_spec(&self) -> Seq<char> {
        self.solver.name@
    }

    fn choose_solver(&self) -> (r: SolverKind) {
        SolverKind::ImplicitEuler
    }

    fn name_solver(&self) -> (r: &str) {
        self.solver.name
    }
}

} // verus!
