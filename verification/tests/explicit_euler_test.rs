use numerical_methods_lib::derivatives::DoubleTimeRate;
use numerical_methods_lib::explicit_euler_method::ExplicitEulerSolver;
use numerical_methods_lib::fixed::{Fixed, SCALE};
use numerical_methods_lib::ode_solver::{OdeSolver, OdeSolverParams, Solve, WriteSolution};

const TIME_STEP_MANT: i64 = 100_000_000_000; // h = 0.1
const INITIAL_SOLUTION_MANT: i64 = SCALE; // S0 = 1.0
const NUM_STEPS: i32 = 10; // (t_final - t_initial) / h = (1 - 0) / 0.1

fn test_params() -> OdeSolverParams<DoubleTimeRate> {
    OdeSolverParams {
        f: DoubleTimeRate,
        num_steps: NUM_STEPS,
        t_initial: 0,
        time_step: Fixed::from_scaled(TIME_STEP_MANT),
        tolerance: Fixed::from_scaled(10_000),
        max_iters: 100,
    }
}

fn test_fixture(solution: &mut Vec<Fixed>) {
    let solver_params = test_params();
    let solver = OdeSolver::new("ODE Solver Explicit Euler Test", &solver_params);

    let explicit_euler_solver = ExplicitEulerSolver { solver: Box::new(solver) };

    explicit_euler_solver.solve(solution).unwrap();
}

#[test]
fn explict_euler_initial_val() {
    let mut solution: Vec<Fixed> = vec![Fixed::from_scaled(INITIAL_SOLUTION_MANT)];
    test_fixture(&mut solution);

    assert_eq!(*solution.get(0).unwrap(), Fixed::from_scaled(INITIAL_SOLUTION_MANT));
}

#[test]
fn explicit_euler_test_write_solution_initial_val() {
    let solver_params = test_params();
    let mut solution: Vec<Fixed> = vec![Fixed::from_scaled(INITIAL_SOLUTION_MANT)];

    let solver = OdeSolver::new("ODE Solver Explicit Euler Test", &solver_params);
    let explicit_euler_solver = ExplicitEulerSolver { solver: Box::new(solver) };

    explicit_euler_solver.solve(&mut solution).unwrap();
    let lines = explicit_euler_solver.write_solution(&solution);

    let first_line = lines.first().unwrap();

    assert_eq!(first_line.parse::<f64>().unwrap(), 1.0);
}
