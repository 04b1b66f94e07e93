use numerical_methods_lib::derivatives::{
    DoubleTimeRate, NegativeStateRate, QuadraticDecayRate, TimeRate,
};
use numerical_methods_lib::explicit_euler_method::ExplicitEulerSolver;
use numerical_methods_lib::fixed::{Fixed, SCALE};
use numerical_methods_lib::heun_method::HeunSolver;
use numerical_methods_lib::implicit_euler_method::{
    implicit_euler_solve, ImplicitEulerSolver, StageEquation,
};
use numerical_methods_lib::newton_raphson_method::{
    newton_raphson_method_root, ConstantResidual,
};
use numerical_methods_lib::ode_solver::{
    OdeSolver, OdeSolverParams, PlotSolution, Printable, Solve, SolverChoice, SolverKind,
    WriteSolution,
};
use numerical_methods_lib::runge_kutta4::{runge_kutta_4, RungeKuttaSolver};
use numerical_methods_lib::text::fixed_text_of;
use numerical_methods_lib::SolverError;

fn fixed_of(units: i64, twelfths: i64) -> Fixed {
    Fixed::from_scaled(units * SCALE + twelfths)
}

fn to_f64(x: Fixed) -> f64 {
    x.as_scaled() as f64 / SCALE as f64
}

fn quadratic_params(num_steps: i32, h_mant: i64) -> OdeSolverParams<DoubleTimeRate> {
    OdeSolverParams {
        f: DoubleTimeRate,
        num_steps,
        t_initial: 0,
        time_step: Fixed::from_scaled(h_mant),
        tolerance: Fixed::from_scaled(10_000),
        max_iters: 100,
    }
}

// The end-to-end quadratic scenario: t_initial = 0, step size 0.1, ten
// samples, y0 = 1, f(t, y) = 2 t.  Every value is exact, so the final
// samples are pinned to the last mantissa digit: the two Euler rules sum
// the increments 2 h t_i (final value 1.9), and the Heun and Runge-Kutta
// rules sum the trapezoid increments h (2 t_i + h) (final value 1.99).
#[test]
fn quadratic_scenario_all_rules() {
    let params = quadratic_params(10, 100_000_000_000);
    let base = OdeSolver::new("quadratic scenario", &params);

    let mut euler_sol = vec![fixed_of(1, 0)];
    ExplicitEulerSolver { solver: Box::new(base) }.solve(&mut euler_sol).unwrap();
    assert_eq!(euler_sol.len(), 10);
    assert_eq!(euler_sol[9], Fixed::from_scaled(1_900_000_000_000));

    let mut heun_sol = vec![fixed_of(1, 0)];
    HeunSolver { solver: Box::new(base) }.solve(&mut heun_sol).unwrap();
    assert_eq!(heun_sol.len(), 10);
    assert_eq!(heun_sol[9], Fixed::from_scaled(1_990_000_000_000));

    let mut rk4_sol = vec![fixed_of(1, 0)];
    RungeKuttaSolver { solver: Box::new(base) }.solve(&mut rk4_sol).unwrap();
    assert_eq!(rk4_sol.len(), 10);
    assert_eq!(rk4_sol[9], Fixed::from_scaled(1_990_000_000_000));

    let mut implicit_sol = vec![fixed_of(1, 0)];
    ImplicitEulerSolver { solver: Box::new(base) }.solve(&mut implicit_sol).unwrap();
    assert_eq!(implicit_sol.len(), 10);
    assert_eq!(implicit_sol[9], Fixed::from_scaled(1_900_000_000_000));
}

// The exactness closed forms with a nonzero initial time: t0 = 1,
// h = 0.2, y0 = 2.  With q0 = h * t0 = 0.2 and qh = h * h = 0.04 the
// explicit Euler value at index i is y0 + 2 q0 i + qh i (i + 1), and the
// trapezoid rules give y0 + 2 q0 i + qh i (i + 2).
#[test]
fn quadratic_scenario_offset_grid() {
    let params = quadratic_params(6, 200_000_000_000);
    let params = OdeSolverParams { t_initial: 1, ..params };
    let base = OdeSolver::new("offset grid", &params);

    let mut euler_sol = vec![fixed_of(2, 0)];
    ExplicitEulerSolver { solver: Box::new(base) }.solve(&mut euler_sol).unwrap();
    // y0 + 2 * 0.2 * 5 + 0.04 * 5 * 6 = 2 + 2 + 1.2
    assert_eq!(euler_sol[5], Fixed::from_scaled(5_200_000_000_000));

    let mut heun_sol = vec![fixed_of(2, 0)];
    HeunSolver { solver: Box::new(base) }.solve(&mut heun_sol).unwrap();
    // y0 + 2 * 0.2 * 5 + 0.04 * 5 * 7 = 2 + 2 + 1.4
    assert_eq!(heun_sol[5], Fixed::from_scaled(5_400_000_000_000));

    let mut rk4_sol = vec![fixed_of(2, 0)];
    RungeKuttaSolver { solver: Box::new(base) }.solve(&mut rk4_sol).unwrap();
    assert_eq!(rk4_sol[5], Fixed::from_scaled(5_400_000_000_000));
}

fn decay_params(num_steps: i32, h_mant: i64) -> OdeSolverParams<NegativeStateRate> {
    OdeSolverParams {
        f: NegativeStateRate,
        num_steps,
        t_initial: 0,
        time_step: Fixed::from_scaled(h_mant),
        tolerance: Fixed::from_scaled(10_000),
        max_iters: 100,
    }
}

fn euler_decay_final(num_steps: i32, h_mant: i64) -> f64 {
    let params = decay_params(num_steps, h_mant);
    let base = OdeSolver::new("decay", &params);
    let mut sol = vec![fixed_of(1, 0)];
    ExplicitEulerSolver { solver: Box::new(base) }.solve(&mut sol).unwrap();
    to_f64(*sol.last().unwrap())
}

fn heun_decay_final(num_steps: i32, h_mant: i64) -> f64 {
    let params = decay_params(num_steps, h_mant);
    let base = OdeSolver::new("decay", &params);
    let mut sol = vec![fixed_of(1, 0)];
    HeunSolver { solver: Box::new(base) }.solve(&mut sol).unwrap();
    to_f64(*sol.last().unwrap())
}

fn rk4_decay_final(num_steps: i32, h_mant: i64) -> f64 {
    let params = decay_params(num_steps, h_mant);
    let base = OdeSolver::new("decay", &params);
    let mut sol = vec![fixed_of(1, 0)];
    RungeKuttaSolver { solver: Box::new(base) }.solve(&mut sol).unwrap();
    to_f64(*sol.last().unwrap())
}

// Order of accuracy on the smooth autonomous problem dy/dt = -y with
// y(0) = 1, whose value after an elapsed time T is exp(-T).  Halving
// the step size divides the global error by about two for the explicit
// Euler rule (first order).
#[test]
fn convergence_order_explicit_euler() {
    let exact = (-1.0f64).exp();
    let coarse = (euler_decay_final(11, 100_000_000_000) - exact).abs();
    let fine = (euler_decay_final(21, 50_000_000_000) - exact).abs();
    let ratio = coarse / fine;
    assert!(ratio > 1.8 && ratio < 2.3, "euler error ratio {ratio}");
}

// Halving the step size divides the global error by about four for the
// Heun rule (second order).
#[test]
fn convergence_order_heun() {
    let exact = (-1.0f64).exp();
    let coarse = (heun_decay_final(6, 200_000_000_000) - exact).abs();
    let fine = (heun_decay_final(11, 100_000_000_000) - exact).abs();
    let ratio = coarse / fine;
    assert!(ratio > 3.5 && ratio < 5.0, "heun error ratio {ratio}");
}

// Halving the step size divides the global error by about sixteen for
// the Runge-Kutta rule (fourth order).
#[test]
fn convergence_order_runge_kutta() {
    let exact = (-2.0f64).exp();
    let coarse = (rk4_decay_final(6, 400_000_000_000) - exact).abs();
    let fine = (rk4_decay_final(11, 200_000_000_000) - exact).abs();
    let ratio = coarse / fine;
    assert!(ratio > 13.0 && ratio < 20.0, "runge-kutta error ratio {ratio}");
}

// A guess that already satisfies |g(x0)| <= tolerance comes back
// unchanged, with zero iterations performed.
#[test]
fn root_finder_returns_guess_within_tolerance() {
    let x0 = fixed_of(7, 0);
    let tol = fixed_of(2, 0); // the residual is constantly 1.0 <= 2.0
    let (root, iters) = newton_raphson_method_root(&ConstantResidual, x0, tol, 50).unwrap();
    assert_eq!(root, x0);
    assert_eq!(iters, 0);
}

// On a residual that never vanishes the root finder performs exactly
// max_iterations + 1 updates and returns the best-effort iterate without
// signaling failure.  Each update moves the iterate by g/g' = 1.
#[test]
fn root_finder_stops_after_cap() {
    let x0 = fixed_of(10, 0);
    let tol = Fixed::from_scaled(500_000_000_000); // 0.5 < the constant residual 1.0
    let (root, iters) = newton_raphson_method_root(&ConstantResidual, x0, tol, 5).unwrap();
    assert_eq!(iters, 6);
    assert_eq!(root, fixed_of(4, 0));
}

// A stage equation whose derivative vanishes at the iterate is reported
// as a singular Jacobian instead of dividing by zero: with the default
// rate (f' = 1) and a unit step, g'(z) = 1 - h * f' = 0.
#[test]
fn root_finder_singular_jacobian() {
    let equation = StageEquation {
        f: &TimeRate,
        t_next: fixed_of(5, 0),
        y_prev: fixed_of(0, 0),
        h: fixed_of(1, 0),
    };
    let r = newton_raphson_method_root(&equation, fixed_of(0, 0), Fixed::from_scaled(10_000), 50);
    assert_eq!(r, Err(SolverError::SingularJacobian));
}

// The implicit Euler demo problem: f(t, y) = -20 t y^2 from y(0) = 1
// with h = 0.01, tolerance 1e-8 and at most 100 Newton iterations per
// step.  Every step converges (no step exhausts the cap), and the
// trajectory decreases monotonically toward its stable tail.
#[test]
fn implicit_euler_converges_and_decays() {
    let params = OdeSolverParams {
        f: QuadraticDecayRate,
        num_steps: 100,
        t_initial: 0,
        time_step: Fixed::from_scaled(10_000_000_000),
        tolerance: Fixed::from_scaled(10_000),
        max_iters: 100,
    };
    let base = OdeSolver::new("implicit demo", &params);
    let solver = ImplicitEulerSolver { solver: Box::new(base) };
    let mut sol = vec![fixed_of(1, 0)];
    let warnings = solver.implicit_euler_method(&mut sol).unwrap();
    assert_eq!(warnings, 0);
    assert_eq!(sol.len(), 100);
    assert_eq!(sol[0], fixed_of(1, 0));
    for i in 1..sol.len() {
        assert!(sol[i].as_scaled() <= sol[i - 1].as_scaled(), "not decreasing at {i}");
    }
    let last = to_f64(sol[99]);
    assert!(last > 0.08 && last < 0.11, "final value {last}");
}

// The free implicit run reports the same trajectory and the same
// diagnostic count as the method on the solver struct.
#[test]
fn implicit_euler_solve_free_function_matches() {
    let mut by_fn = vec![fixed_of(1, 0)];
    let warnings = implicit_euler_solve(
        &QuadraticDecayRate,
        10,
        0,
        Fixed::from_scaled(100_000_000_000),
        Fixed::from_scaled(10_000),
        100,
        &mut by_fn,
    )
    .unwrap();
    assert_eq!(warnings, 0);

    let params = OdeSolverParams {
        f: QuadraticDecayRate,
        num_steps: 10,
        t_initial: 0,
        time_step: Fixed::from_scaled(100_000_000_000),
        tolerance: Fixed::from_scaled(10_000),
        max_iters: 100,
    };
    let base = OdeSolver::new("implicit", &params);
    let mut by_method = vec![fixed_of(1, 0)];
    ImplicitEulerSolver { solver: Box::new(base) }.solve(&mut by_method).unwrap();
    assert_eq!(by_fn, by_method);
}

// The free Runge-Kutta run equals the run through the solver struct.
#[test]
fn runge_kutta_free_function_matches() {
    let mut by_fn = vec![fixed_of(1, 0)];
    runge_kutta_4(&DoubleTimeRate, 10, 0, Fixed::from_scaled(100_000_000_000), &mut by_fn)
        .unwrap();

    let params = quadratic_params(10, 100_000_000_000);
    let base = OdeSolver::new("rk4", &params);
    let mut by_method = vec![fixed_of(1, 0)];
    RungeKuttaSolver { solver: Box::new(base) }.solve(&mut by_method).unwrap();
    assert_eq!(by_fn, by_method);
}

// Construction rejects exactly the parameter sets that violate the
// invariants: a step count below one, a non-positive step size or
// tolerance, an iteration cap below one or at the integer maximum, and
// an initial time too large to scale.
#[test]
fn params_validation() {
    let h = Fixed::from_scaled(100_000_000_000);
    let tol = Fixed::from_scaled(10_000);
    assert!(OdeSolverParams::new(TimeRate, 10, 0, h, tol, 100).is_ok());
    assert_eq!(
        OdeSolverParams::new(TimeRate, 0, 0, h, tol, 100).unwrap_err(),
        SolverError::InvalidParams
    );
    assert_eq!(
        OdeSolverParams::new(TimeRate, 10, 0, Fixed::from_scaled(0), tol, 100).unwrap_err(),
        SolverError::InvalidParams
    );
    assert_eq!(
        OdeSolverParams::new(TimeRate, 10, 0, Fixed::from_scaled(-1), tol, 100).unwrap_err(),
        SolverError::InvalidParams
    );
    assert_eq!(
        OdeSolverParams::new(TimeRate, 10, 0, h, Fixed::from_scaled(0), 100).unwrap_err(),
        SolverError::InvalidParams
    );
    assert_eq!(
        OdeSolverParams::new(TimeRate, 10, 0, h, tol, 0).unwrap_err(),
        SolverError::InvalidParams
    );
    assert_eq!(
        OdeSolverParams::new(TimeRate, 10, 0, h, tol, i32::MAX).unwrap_err(),
        SolverError::InvalidParams
    );
    assert_eq!(
        OdeSolverParams::new(TimeRate, 10, 10_000_000, h, tol, 100).unwrap_err(),
        SolverError::InvalidParams
    );
}

// A run whose very first update leaves the representable range reports
// the overflow and stops with only the seed stored.
#[test]
fn overflow_is_reported() {
    let params = quadratic_params(10, 100_000_000_000);
    let base = OdeSolver::new("overflow", &params);
    let mut sol = vec![Fixed::from_scaled(i64::MAX)];
    let r = ExplicitEulerSolver { solver: Box::new(base) }.solve(&mut sol);
    assert_eq!(r, Err(SolverError::Overflow));
    assert_eq!(sol.len(), 1);
    assert_eq!(sol[0], Fixed::from_scaled(i64::MAX));
}

// Decimal rendering: an optional sign, the whole part, a point, and
// exactly twelve fraction digits.
#[test]
fn text_rendering_is_exact() {
    assert_eq!(fixed_text_of(&fixed_of(1, 0)), "1.000000000000");
    assert_eq!(fixed_text_of(&Fixed::from_scaled(-500_000_000_000)), "-0.500000000000");
    assert_eq!(fixed_text_of(&Fixed::from_scaled(1)), "0.000000000001");
    assert_eq!(fixed_text_of(&fixed_of(1234, 500_000_000_000)), "1234.500000000000");
    assert_eq!(fixed_text_of(&fixed_of(0, 0)), "0.000000000000");
}

// write_solution renders one line per trajectory value, in index order.
#[test]
fn write_solution_lines() {
    let params = quadratic_params(3, 100_000_000_000);
    let base = OdeSolver::new("lines", &params);
    let solver = ExplicitEulerSolver { solver: Box::new(base) };
    let mut sol = vec![fixed_of(1, 0)];
    solver.solve(&mut sol).unwrap();
    let lines = solver.write_solution(&sol);
    assert_eq!(lines.len(), 3);
    assert_eq!(lines[0], "1.000000000000");
    // y1 = 1 + 0.1 * 2 * 0.1 = 1.02 and y2 = y1 + 0.1 * 2 * 0.2 = 1.06
    assert_eq!(lines[1], "1.020000000000");
    assert_eq!(lines[2], "1.060000000000");
}

// print_val pairs each value with its sample time t0 + i * h.
#[test]
fn print_val_pairs_times_with_values() {
    let params = quadratic_params(4, 100_000_000_000);
    let base = OdeSolver::new("pairs", &params);
    let solver = HeunSolver { solver: Box::new(base) };
    let mut sol = vec![fixed_of(1, 0)];
    solver.solve(&mut sol).unwrap();
    let pairs = solver.print_val(&sol).unwrap();
    assert_eq!(pairs.len(), 4);
    for (i, (t, v)) in pairs.iter().enumerate() {
        assert_eq!(*t, Fixed::from_scaled(i as i64 * 100_000_000_000));
        assert_eq!(*v, sol[i]);
    }
}

// plot_solution produces the two parallel arrays a plotting collaborator
// consumes: sample times and unchanged values.
#[test]
fn plot_solution_arrays() {
    let params = quadratic_params(5, 100_000_000_000);
    let base = OdeSolver::new("plot", &params);
    let solver = RungeKuttaSolver { solver: Box::new(base) };
    let mut sol = vec![fixed_of(1, 0)];
    solver.solve(&mut sol).unwrap();
    let (times, values) = solver.plot_solution(&sol).unwrap();
    assert_eq!(times.len(), 5);
    assert_eq!(values, sol);
    assert_eq!(times[4], Fixed::from_scaled(400_000_000_000));
}

// Each solver names itself and reports the rule that backs it.
#[test]
fn solver_choice_kinds_and_names() {
    let params = quadratic_params(10, 100_000_000_000);
    let base = OdeSolver::new("ODE Solver", &params);
    assert_eq!(base.choose_solver(), SolverKind::Base);
    assert_eq!(base.name_solver(), "ODE Solver");

    let euler = ExplicitEulerSolver { solver: Box::new(base) };
    assert_eq!(euler.choose_solver(), SolverKind::ExplicitEuler);
    assert_eq!(euler.name_solver(), "ODE Solver");

    let heun = HeunSolver { solver: Box::new(base) };
    assert_eq!(heun.choose_solver(), SolverKind::Heun);

    let rk4 = RungeKuttaSolver { solver: Box::new(base) };
    assert_eq!(rk4.choose_solver(), SolverKind::RungeKutta4);

    let implicit = ImplicitEulerSolver { solver: Box::new(base) };
    assert_eq!(implicit.choose_solver(), SolverKind::ImplicitEuler);
}

// The default parameter bundle: the default rate over [0, 1] in steps of
// one hundredth, tolerance 1e-8, one hundred iterations allowed.
#[test]
fn default_params() {
    let p: OdeSolverParams<TimeRate> = Default::default();
    assert_eq!(p.num_steps, 100);
    assert_eq!(p.t_initial, 0);
    assert_eq!(p.time_step, Fixed::from_scaled(10_000_000_000));
    assert_eq!(p.tolerance, Fixed::from_scaled(10_000));
    assert_eq!(p.max_iters, 100);
    assert_eq!(p.f, TimeRate);
}

// The base solver holds the trajectory untouched.
#[test]
fn base_solver_keeps_solution() {
    let params = quadratic_params(10, 100_000_000_000);
    let base = OdeSolver::new("ODE Solver", &params);
    let mut sol = vec![fixed_of(1, 0)];
    base.solve(&mut sol).unwrap();
    assert_eq!(sol, vec![fixed_of(1, 0)]);
}
