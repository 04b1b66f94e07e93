use numerical_methods_lib::derivatives::DoubleTimeRate;
use numerical_methods_lib::heun_method::HeunSolver;
use numerical_methods_lib::fixed::{Fixed, SCALE};
use numerical_methods_lib::ode_solver::{OdeSolver, OdeSolverParams, Solve, WriteSolution};

const TIME_STEP_MANT: i64 = 100_000_000_000; // h = 0.1
const INITIAL_SOLUTION_MANT: i64 = SCALE; // S0 = 1.0
const NUM_STEPS: i32 = 10; // (t_final - t_initial) / h = (1 - 0) / 0.1

fn test_params() -> OdeSolverParams<DoubleTimeRate> {
    OdeSolverParams {
        f: DoubleTimeRate,
        num_steps: NUM_STEPS,
        t_initial: 0,
        time_step: Fixed::from_scaled(TIME_STEP_MANT),
        tolerance: Fixed::from_scaled(10_000),
        max_iters: 100,
    }
}

fn test_fixture(solution: &mut Vec<Fixed>) {
    let solver_params = test_params();
    let solver = OdeSolver::new("ODE Solver Heun Test", &solver_params);

    let heun_method_solver = HeunSolver { solver: Box::new(solver) };

    heun_method_solver.solve(solution).unwrap();
}

#[test]
fn heun_initial_value() {
    let mut solution: Vec<Fixed> = vec![Fixed::from_scaled(INITIAL_SOLUTION_MANT)];
    test_fixture(&mut solution);

    assert_eq!(*solution.get(0).unwrap(), Fixed::from_scaled(INITIAL_SOLUTION_MANT));
}

#[test]
fn heun_test_write_solution_initial_val() {
    let solver_params = test_params();
    let mut solution: Vec<Fixed> = vec![Fixed::from_scaled(INITIAL_SOLUTION_MANT)];

    let solver = OdeSolver::new("ODE Solver Heun Test", &solver_params);
    let heun_method_solver = HeunSolver { solver: Box::new(solver) };

    heun_method_solver.solve(&mut solution).unwrap();
    let lines = heun_method_solver.write_solution(&solution);

    let first_line = lines.first().unwrap();

    assert_eq!(first_line.parse::<f64>().unwrap(), 1.0);
}
