use numerical_methods_lib::derivatives::QuadraticDecayRate;
use numerical_methods_lib::fixed::{Fixed, SCALE};
use numerical_methods_lib::implicit_euler_method::ImplicitEulerSolver;
use numerical_methods_lib::ode_solver::{OdeSolver, OdeSolverParams, Solve, WriteSolution};

const TIME_STEP_MANT: i64 = 100_000_000_000; // h = 0.1
const INITIAL_SOLUTION_MANT: i64 = SCALE; // S0 = 1.0
const TOLERANCE_MANT: i64 = 10_000; // tol = 1e-8
const MAX_ITERATIONS: i32 = 100;
const NUM_STEPS: i32 = 10; // (t_final - t_initial) / h = (1 - 0) / 0.1

fn test_params() -> OdeSolverParams<QuadraticDecayRate> {
    // f(t, y) = -20 t y^2 and f'(t, y) = -40 t y
    OdeSolverParams {
        f: QuadraticDecayRate,
        num_steps: NUM_STEPS,
        t_initial: 0,
        time_step: Fixed::from_scaled(TIME_STEP_MANT),
        tolerance: Fixed::from_scaled(TOLERANCE_MANT),
        max_iters: MAX_ITERATIONS,
    }
}

fn test_fixture(solution: &mut Vec<Fixed>) {
    let solver_params = test_params();
    let ode_solver = OdeSolver::new("Implicit Euler Method Test", &solver_params);
    let implicit_solver = ImplicitEulerSolver { solver: Box::new(ode_solver) };
    implicit_solver.solve(solution).unwrap();
}

#[test]
fn implict_euler_initial_val() {
    let mut solution: Vec<Fixed> = vec![Fixed::from_scaled(INITIAL_SOLUTION_MANT)];
    test_fixture(&mut solution);
    assert_eq!(*solution.get(0).unwrap(), Fixed::from_scaled(INITIAL_SOLUTION_MANT));
}

#[test]
fn implicit_euler_tests_write_solution_initial_val() {
    let solver_params = test_params();
    let mut solution: Vec<Fixed> = vec![Fixed::from_scaled(INITIAL_SOLUTION_MANT)];

    let ode_solver = OdeSolver::new("Implicit Euler Method Test", &solver_params);
    let implicit_solver = ImplicitEulerSolver { solver: Box::new(ode_solver) };
    implicit_solver.solve(&mut solution).unwrap();
    let lines = implicit_solver.write_solution(&solution);

    let first_line = lines.first().unwrap();

    assert_eq!(first_line.parse::<f64>().unwrap(), 1.0);
}
