//! Problem parameters, the solver handle, and the behavioral contracts
//! that every integration rule satisfies.
//!
//! A derivative function is a value of a type implementing
//! [`Derivative`]: its mathematical meaning is the spec function
//! `rate_res`, and its executable evaluation is proved to agree with it.
//! [`OdeSolverParams`] bundles the derivative with the run parameters and
//! validates them at construction.  The traits [`Solve`], [`Printable`],
//! [`PlotSolution`], [`SolverChoice`] and [`WriteSolution`] are the
//! polymorphism points shared by the four integration rules.

use crate::fixed::{
    add_res, agrees, in_range, mul_res, time_value_res, Fixed, SCALE,
};
use crate::SolverError;
use vstd::prelude::*;

verus! {

/// Largest whole number whose mantissa fits: `i64::MAX / SCALE`.
pub const MAX_WHOLE: i64 = 9_223_372;

/// A state-derivative function dy/dt = f(t, y), together with its
/// partial derivative with respect to y (the Jacobian term used by the
/// implicit rule).
///
/// The two spec functions give, over mantissas, the exact value each
/// evaluation returns, or the exact failure it reports; the executable
/// evaluations are proved to agree with them.
pub trait Derivative: Sized {
    /// Mathematical result of evaluating f at time `t` and state `y`.
    spec fn rate_res(&self, t: int, y: int) -> Result<int, SolverError>;

    /// Mathematical result of evaluating the Jacobian term f' = df/dy.
    spec fn prime_res(&self, t: int, y: int) -> Result<int, SolverError>;

    /// Evaluate f(t, y).
    fn rate(&self, t: Fixed, y: Fixed) -> (r: Result<Fixed, SolverError>)
        ensures
            agrees(r, self.rate_res(t@, y@)),
    ;

    /// Evaluate f'(t, y).
    fn rate_prime(&self, t: Fixed, y: Fixed) -> (r: Result<Fixed, SolverError>)
        ensures
            agrees(r, self.prime_res(t@, y@)),
    ;
}

/// All parameters of one integration run: the derivative function, the
/// number of trajectory samples, the initial time, the step size and —
/// for the implicit rule — the Newton tolerance and iteration cap.
#[derive(Debug)]
pub struct OdeSolverParams<F> {
    pub f: F,
    pub num_steps: i32,
    pub t_initial: i32,
    pub time_step: Fixed,
    pub tolerance: Fixed,
    pub max_iters: i32,
}

/// Time of sample `i` over mantissas, computed exactly as the runs
/// compute it: scale `i`, multiply by the step size, add the initial
/// time.
pub open spec fn time_res(t0s: int, h: int, i: int) -> Result<int, SolverError> {
    if !in_range(i * (SCALE as int)) {
        Err(SolverError::Overflow)
    } else {
        match mul_res(i * (SCALE as int), h) {
            Err(e) => Err(e),
            Ok(ih) => add_res(t0s, ih),
        }
    }
}

/// When sample `i` is non-negative and nothing overflows, its time is
/// exactly `t0s + i * h`.
pub proof fn lemma_time_res_value(t0s: int, h: int, i: int)
    requires
        in_range(i * (SCALE as int)),
    ensures
        time_res(t0s, h, i) == (
        if in_range(i * h) {
            add_res(t0s, i * h)
        } else {
            Err::<int, SolverError>(SolverError::Overflow)
        }),
{
    time_value_res(i, h);
}

impl<F> OdeSolverParams<F> {
    /// Mantissa of the initial time.
    pub open spec fn t0_mant(&self) -> int {
        self.t_initial * (SCALE as int)
    }

    /// The construction invariant: at least one sample, positive step
    /// size, positive tolerance, at least one Newton iteration allowed,
    /// and an initial time whose mantissa is representable.
    pub open spec fn wf(&self) -> bool {
        &&& 1 <= self.num_steps
        &&& self.time_step@ > 0
        &&& self.tolerance@ > 0
        &&& 1 <= self.max_iters < i32::MAX
        &&& in_range(self.t0_mant())
    }

    /// Bundle the parameters of a run, rejecting any value that violates
    /// the construction invariant.
    pub fn new(
        f: F,
        num_steps: i32,
        t_initial: i32,
        time_step: Fixed,
        tolerance: Fixed,
        max_iters: i32,
    ) -> (r: Result<OdeSolverParams<F>, SolverError>)
        ensures
            match r {
                Ok(p) => {
                    &&& p.wf()
                    &&& p.f == f
                    &&& p.num_steps == num_steps
                    &&& p.t_initial == t_initial
                    &&& p.time_step == time_step
                    &&& p.tolerance == tolerance
                    &&& p.max_iters == max_iters
                },
                Err(e) => e == SolverError::InvalidParams,
            },
            r is Ok <==> {
                &&& 1 <= num_steps
                &&& time_step@ > 0
                &&& tolerance@ > 0
                &&& 1 <= max_iters < i32::MAX
                &&& in_range(t_initial * (SCALE as int))
            },
    {
        if num_steps < 1 || max_iters < 1 || max_iters == i32::MAX {
            return Err(SolverError::InvalidParams);
        }
        if time_step.as_scaled() <= 0 || tolerance.as_scaled() <= 0 {
            return Err(SolverError::InvalidParams);
        }
        if t_initial < -MAX_WHOLE as i32 || t_initial > MAX_WHOLE as i32 {
            return Err(SolverError::InvalidParams);
        }
        Ok(OdeSolverParams { f, num_steps, t_initial, time_step, tolerance, max_iters })
    }

    /// Time of sample `index`: `t_initial + index * time_step`.
    pub fn time_at(&self, index: usize) -> (r: Result<Fixed, SolverError>)
        requires
            self.wf(),
        ensures
            agrees(r, time_res(self.t0_mant(), self.time_step@, index as int)),
    {
        sample_time(self.t_initial, self.time_step, index)
    }
}

/// Time of sample `index` over a raw initial time and step size:
/// `t_initial + index * time_step`, or the overflow that computation
/// reports.
pub fn sample_time(t_initial: i32, time_step: Fixed, index: usize) -> (r: Result<
    Fixed,
    SolverError,
>)
    requires
        in_range(t_initial * (SCALE as int)),
    ensures
        agrees(r, time_res(t_initial * (SCALE as int), time_step@, index as int)),
{
    if index > MAX_WHOLE as usize {
        assert(!in_range(index * (SCALE as int)));
        return Err(SolverError::Overflow);
    }
    let scaled = Fixed::from_scaled((index as i64) * SCALE);
    let offset = match scaled.mul(time_step) {
        Ok(v) => v,
        Err(e) => return Err(e),
    };
    let t0 = Fixed::from_scaled((t_initial as i64) * SCALE);
    match t0.add(offset) {
        Ok(v) => Ok(v),
        Err(e) => Err(e),
    }
}

/// A named solver: a label and a borrowed parameter bundle, as handed to
/// each integration rule.
#[derive(Clone, Copy)]
pub struct OdeSolver<'a, F> {
    pub name: &'a str,
    pub params: &'a OdeSolverParams<F>,
}

impl<'a, F> OdeSolver<'a, F> {
    /// Wrap a parameter bundle under a display name.
    pub fn new(name: &'a str, params: &'a OdeSolverParams<F>) -> (r: Self)
        ensures
            r.name == name,
            r.params == params,
    {
        OdeSolver { name, params }
    }
}

/// The tag of a concrete integration rule, used for late-bound
/// "pick a method" dispatch.
#[derive(Clone, Copy, Debug, PartialEq, Eq, Structural)]
pub enum SolverKind {
    /// The bare parameter holder, backing no rule of its own.
    Base,
    ExplicitEuler,
    Heun,
    RungeKutta4,
    ImplicitEuler,
}

/// Advance a trajectory: consume the seeded solution buffer and append
/// one sample per remaining step.
pub trait Solve {
    /// What the rule asks of the seeded buffer.
    spec fn solve_pre(&self, init: Seq<Fixed>) -> bool;

    /// The exact relation between the buffer before and after the run.
    spec fn solve_post(
        &self,
        init: Seq<Fixed>,
        fin: Seq<Fixed>,
        r: Result<(), SolverError>,
    ) -> bool;

    /// Run the rule over the trajectory buffer.
    fn solve(&self, solution: &mut Vec<Fixed>) -> (r: Result<(), SolverError>)
        requires
            self.solve_pre(old(solution)@),
        ensures
            self.solve_post(old(solution)@, final(solution)@, r),
    ;
}

/// Expose the trajectory as printable (time, value) pairs.
pub trait Printable {
    /// What the pairing asks of the solver, typically its parameter
    /// invariant.
    spec fn pairs_pre(&self) -> bool;

    /// The exact relation between the trajectory and the pairs.
    spec fn pairs_post(
        &self,
        sol: Seq<Fixed>,
        r: Result<Vec<(Fixed, Fixed)>, SolverError>,
    ) -> bool;

    /// Pair each trajectory value with its sample time, in index order.
    fn print_val(&self, solution: &Vec<Fixed>) -> (r: Result<Vec<(Fixed, Fixed)>, SolverError>)
        requires
            self.pairs_pre(),
        ensures
            self.pairs_post(solution@, r),
    ;
}

/// Expose the trajectory as two parallel arrays, time and value, ready
/// for a plotting collaborator.
pub trait PlotSolution {
    /// What the array preparation asks of the solver.
    spec fn plot_pre(&self) -> bool;

    /// The exact relation between the trajectory and the two arrays.
    spec fn plot_post(
        &self,
        sol: Seq<Fixed>,
        r: Result<(Vec<Fixed>, Vec<Fixed>), SolverError>,
    ) -> bool;

    /// Produce the time array and the value array of the trajectory.
    fn plot_solution(&self, solution: &Vec<Fixed>) -> (r: Result<
        (Vec<Fixed>, Vec<Fixed>),
        SolverError,
    >)
        requires
            self.plot_pre(),
        ensures
            self.plot_post(solution@, r),
    ;
}

/// Name a solver and report which concrete rule backs it.
pub trait SolverChoice {
    /// The rule this solver is backed by.
    spec fn kind_spec(&self) -> SolverKind;

    /// The solver's display name.
    spec fn name_spec(&self) -> Seq<char>;

    /// The tag of the backing rule.
    fn choose_solver(&self) -> (r: SolverKind)
        ensures
            r == self.kind_spec(),
    ;

    /// The display name this solver was created under.
    fn name_solver(&self) -> (r: &str)
        ensures
            r@ == self.name_spec(),
    ;
}

/// Render the trajectory as one line of text per value, in index order,
/// for a persistence collaborator.
pub trait WriteSolution {
    /// The exact relation between the trajectory and the lines.
    spec fn lines_post(&self, sol: Seq<Fixed>, r: Vec<String>) -> bool;

    /// The decimal rendering of each trajectory value, in index order.
    fn write_solution(&self, solution: &Vec<Fixed>) -> (r: Vec<String>)
        ensures
            self.lines_post(solution@, r),
    ;
}

/// The (time, value) pairs every [`Printable`] implementation returns:
/// one pair per sample on success, and on failure the error of the first
/// sample time that is not representable.
pub open spec fn trajectory_pairs_post<F>(
    p: OdeSolverParams<F>,
    sol: Seq<Fixed>,
    r: Result<Vec<(Fixed, Fixed)>, SolverError>,
) -> bool {
    match r {
        Ok(pairs) => {
            &&& pairs@.len() == sol.len()
            &&& forall|i: int|
                0 <= i < sol.len() ==> (#[trigger] pairs@[i]).1 == sol[i] && time_res(
                    p.t0_mant(),
                    p.time_step@,
                    i,
                ) == Ok::<int, SolverError>(pairs@[i].0@)
        },
        Err(e) => exists|i: int|
            0 <= i < sol.len() && time_res(p.t0_mant(), p.time_step@, i) == Err::<
                int,
                SolverError,
            >(e),
    }
}

/// The arrays every [`PlotSolution`] implementation returns: the sample
/// times and the unchanged values, index for index.
pub open spec fn plot_arrays_post<F>(
    p: OdeSolverParams<F>,
    sol: Seq<Fixed>,
    r: Result<(Vec<Fixed>, Vec<Fixed>), SolverError>,
) -> bool {
    match r {
        Ok(arrays) => {
            &&& arrays.0@.len() == sol.len()
            &&& arrays.1@ == sol
            &&& forall|i: int|
                0 <= i < sol.len() ==> time_res(p.t0_mant(), p.time_step@, i) == Ok::<int, SolverError>(
                    (#[trigger] arrays.0@[i])@,
                )
        },
        Err(e) => exists|i: int|
            0 <= i < sol.len() && time_res(p.t0_mant(), p.time_step@, i) == Err::<
                int,
                SolverError,
            >(e),
    }
}

/// Shared body of [`Printable::print_val`]: walk the trajectory and pair
/// each value with its sample time.
pub fn trajectory_pairs<F>(p: &OdeSolverParams<F>, solution: &Vec<Fixed>) -> (r: Result<
    Vec<(Fixed, Fixed)>,
    SolverError,
>)
    requires
        p.wf(),
    ensures
        trajectory_pairs_post(*p, solution@, r),
{
    let mut pairs: Vec<(Fixed, Fixed)> = Vec::new();
    let mut i: usize = 0;
    while i < solution.len()
        invariant
            p.wf(),
            i <= solution@.len(),
            pairs@.len() == i,
            forall|j: int|
                0 <= j < i ==> (#[trigger] pairs@[j]).1 == solution@[j] && time_res(
                    p.t0_mant(),
                    p.time_step@,
                    j,
                ) == Ok::<int, SolverError>(pairs@[j].0@),
        decreases solution@.len() - i,
    {
        let t = match p.time_at(i) {
            Ok(t) => t,
            Err(e) => return Err(e),
        };
        pairs.push((t, solution[i]));
        i = i + 1;
    }
    Ok(pairs)
}

/// Shared body of [`PlotSolution::plot_solution`]: the sample times and
/// a copy of the values, as two parallel arrays.
pub fn plot_arrays<F>(p: &OdeSolverParams<F>, solution: &Vec<Fixed>) -> (r: Result<
    (Vec<Fixed>, Vec<Fixed>),
    SolverError,
>)
    requires
        p.wf(),
    ensures
        plot_arrays_post(*p, solution@, r),
{
    let mut times: Vec<Fixed> = Vec::new();
    let mut values: Vec<Fixed> = Vec::new();
    let mut i: usize = 0;
    while i < solution.len()
        invariant
            p.wf(),
            i <= solution@.len(),
            times@.len() == i,
            values@.len() == i,
            forall|j: int| 0 <= j < i ==> #[trigger] values@[j] == solution@[j],
            forall|j: int|
                0 <= j < i ==> time_res(p.t0_mant(), p.time_step@, j) == Ok::<int, SolverError>(
                    (#[trigger] times@[j])@,
                ),
        decreases solution@.len() - i,
    {
        let t = match p.time_at(i) {
            Ok(t) => t,
            Err(e) => return Err(e),
        };
        times.push(t);
        values.push(solution[i]);
        i = i + 1;
    }
    proof {
        assert(values@ =~= solution@);
    }
    Ok((times, values))
}

impl<'a, F> Solve for OdeSolver<'a, F> {
    /// The bare holder backs no rule, so it asks nothing of the buffer.
    open spec fn solve_pre(&self, init: Seq<Fixed>) -> bool {
        true
    }

    /// The bare holder leaves the trajectory untouched.
    open spec fn solve_post(
        &self,
        init: Seq<Fixed>,
        fin: Seq<Fixed>,
        r: Result<(), SolverError>,
    ) -> bool {
        fin == init && r is Ok
    }

    fn solve(&self, solution: &mut Vec<Fixed>) -> (r: Result<(), SolverError>) {
        Ok(())
    }
}

impl<'a, F> Printable for OdeSolver<'a, F> {
    open spec fn pairs_pre(&self) -> bool {
        self.params.wf()
    }

    open spec fn pairs_post(
        &self,
        sol: Seq<Fixed>,
        r: Result<Vec<(Fixed, Fixed)>, SolverError>,
    ) -> bool {
        trajectory_pairs_post(*self.params, sol, r)
    }

    fn print_val(&self, solution: &Vec<Fixed>) -> (r: Result<Vec<(Fixed, Fixed)>, SolverError>) {
        trajectory_pairs(self.params, solution)
    }
}

impl<'a, F> SolverChoice for OdeSolver<'a, F> {
    open spec fn kind_spec(&self) -> SolverKind {
        SolverKind::Base
    }

    open spec fn name_spec(&self) -> Seq<char> {
        self.name@
    }

    fn choose_solver(&self) -> (r: SolverKind) {
        SolverKind::Base
    }

    fn name_solver(&self) -> (r: &str) {
        self.name
    }
}

} // verus!
