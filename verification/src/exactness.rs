//! Exactness of all four rules on the rate f(t, y) = 2 t.
//!
//! The exact solution of dy/dt = 2 t is the quadratic
//! y(t) = y(t0) + t^2 - t0^2, and each rule's quadrature weights
//! integrate so low a polynomial without truncation error.  On a grid
//! whose step keeps every product of the recurrence on a whole number of
//! mantissa units (an even step size with `h * h` and `h * t0` whole
//! multiples of one), the fixed-point rounding discards nothing either,
//! and each trajectory value is proved equal to a closed form:
//!
//! - the two Euler rules (explicit and implicit) sum the right-endpoint
//!   increments `h * 2 t_i`, giving y0 + t_i * t_{i+1} - t_0 * t_1 ;
//! - the Heun and Runge-Kutta rules sum the exact trapezoid increments
//!   `h * (2 t_i + h)`, giving y0 + t_{i+1}^2 - t_1^2 .
//!
//! Both closed forms telescope the exact integral of 2 t over the step
//! windows the rules actually evaluate, each window based at its
//! sample's own time.

use crate::derivatives::DoubleTimeRate;
use crate::explicit_euler_method::{euler_step_res, euler_traj_res};
use crate::fixed::{
    abs_i, div_mant, in_range, lemma_div_trunc_multiple, mul_mant, SCALE,
};
use crate::heun_method::{heun_step_res, heun_traj_res, HALF};
use crate::implicit_euler_method::{
    implicit_run_res, implicit_step_res, stage_g_fn, stage_g_prime_fn, stage_g_prime_res,
    stage_g_res,
};
use crate::newton_raphson_method::newton_res;
use crate::ode_solver::{lemma_time_res_value, time_res};
use crate::runge_kutta4::{rk4_step_res, rk4_step_tail, rk4_traj_res, SIX, TWO};
use crate::SolverError;
use vstd::arithmetic::div_mod::{
    lemma_div_is_ordered, lemma_div_pos_is_pos, lemma_fundamental_div_mod,
};
use vstd::prelude::*;

verus! {

/// The whole number of mantissa units in `h * t0 / SCALE`, written q0
/// below: the cross term of one exact step increment.
pub open spec fn cross_units(t0s: int, h: int) -> int {
    (h * t0s) / (SCALE as int)
}

/// The whole number of mantissa units in `h * h / SCALE`, written qh
/// below: the square term of one exact step increment.
pub open spec fn square_units(h: int) -> int {
    (h * h) / (SCALE as int)
}

/// The exact explicit Euler increment toward sample `i`:
/// `h * 2 t_i = 2 q0 + 2 i qh` mantissa units.
pub open spec fn euler_increment(t0s: int, h: int, i: int) -> int {
    2 * cross_units(t0s, h) + 2 * i * square_units(h)
}

/// The exact trapezoid increment toward sample `i`, shared by the Heun
/// and Runge-Kutta rules: `h * (2 t_i + h) = 2 q0 + (2 i + 1) qh`
/// mantissa units.
pub open spec fn trapezoid_increment(t0s: int, h: int, i: int) -> int {
    2 * cross_units(t0s, h) + (2 * i + 1) * square_units(h)
}

/// The closed form of both Euler trajectories on f(t, y) = 2 t:
/// the sum of the first `i` right-endpoint increments.
pub open spec fn euler_double_time_value(t0s: int, h: int, y0: int, i: int) -> int {
    y0 + 2 * cross_units(t0s, h) * i + square_units(h) * (i * (i + 1))
}

/// The closed form of the Heun and Runge-Kutta trajectories on
/// f(t, y) = 2 t: the sum of the first `i` trapezoid increments.
pub open spec fn trapezoid_double_time_value(t0s: int, h: int, y0: int, i: int) -> int {
    y0 + 2 * cross_units(t0s, h) * i + square_units(h) * (i * (i + 2))
}

/// A grid on which the rules lose nothing to rounding up to sample `i`:
/// non-negative initial time, a positive even step whose square and
/// cross products are whole numbers of mantissa units, and enough
/// headroom that no stage of any rule can overflow.
pub open spec fn double_time_grid_pre(t0s: int, h: int, i: int) -> bool {
    &&& 0 <= t0s
    &&& 0 < h
    &&& h % 2 == 0
    &&& (h * t0s) % (SCALE as int) == 0
    &&& (h * h) % (SCALE as int) == 0
    &&& in_range(i * (SCALE as int))
    &&& in_range(2 * (t0s + i * h) + 2 * h)
    &&& in_range(6 * trapezoid_increment(t0s, h, i))
}

/// On an exact grid the two unit counts are whole and non-negative, and
/// the square count is at least one.
proof fn lemma_double_time_units(t0s: int, h: int)
    requires
        0 <= t0s,
        0 < h,
        (h * t0s) % (SCALE as int) == 0,
        (h * h) % (SCALE as int) == 0,
    ensures
        h * t0s == cross_units(t0s, h) * (SCALE as int),
        h * h == square_units(h) * (SCALE as int),
        0 <= cross_units(t0s, h),
        1 <= square_units(h),
{
    let s = SCALE as int;
    assert(0 <= h * t0s && 0 < h * h) by (nonlinear_arith)
        requires
            0 <= t0s,
            0 < h,
    ;
    lemma_fundamental_div_mod(h * t0s, s);
    lemma_fundamental_div_mod(h * h, s);
    lemma_div_pos_is_pos(h * t0s, s);
    lemma_div_pos_is_pos(h * h, s);
    assert(1 <= square_units(h)) by (nonlinear_arith)
        requires
            h * h == square_units(h) * (SCALE as int),
            0 < h * h,
            0 <= square_units(h),
    ;
}

/// On an exact grid the time of sample `i` is computed exactly:
/// `t0 + i * h`, in range together with its double.
proof fn lemma_double_time_time(t0s: int, h: int, i: int)
    requires
        1 <= i,
        double_time_grid_pre(t0s, h, i),
    ensures
        time_res(t0s, h, i) == Ok::<int, SolverError>(t0s + i * h),
        0 <= i * h,
        in_range(t0s + i * h),
        in_range(2 * (t0s + i * h)),
        in_range(2 * (t0s + i * h) + h),
        in_range(2 * (t0s + i * h) + 2 * h),
{
    assert(0 < i * h) by (nonlinear_arith)
        requires
            1 <= i,
            0 < h,
    ;
    lemma_time_res_value(t0s, h, i);
}

/// One explicit Euler step on f(t, y) = 2 t adds exactly the
/// right-endpoint increment.
proof fn lemma_euler_step_double_time(t0s: int, h: int, y: int, i: int)
    requires
        1 <= i,
        double_time_grid_pre(t0s, h, i),
        in_range(y),
        in_range(y + euler_increment(t0s, h, i)),
    ensures
        euler_step_res(DoubleTimeRate, t0s, h, y, i) == Ok::<int, SolverError>(
            y + euler_increment(t0s, h, i),
        ),
{
    let s = SCALE as int;
    let q0 = cross_units(t0s, h);
    let qh = square_units(h);
    let t = t0s + i * h;
    let inc = euler_increment(t0s, h, i);
    lemma_double_time_units(t0s, h);
    lemma_double_time_time(t0s, h, i);
    assert(h * (t + t) == inc * s) by (nonlinear_arith)
        requires
            t == t0s + i * h,
            h * t0s == q0 * s,
            h * h == qh * s,
            inc == 2 * q0 + 2 * i * qh,
    ;
    lemma_div_trunc_multiple(inc, s);
    assert(mul_mant(h, t + t) == inc);
    assert(0 <= inc <= trapezoid_increment(t0s, h, i)) by (nonlinear_arith)
        requires
            inc == 2 * q0 + 2 * i * qh,
            trapezoid_increment(t0s, h, i) == 2 * q0 + (2 * i + 1) * qh,
            0 <= q0,
            1 <= qh,
            1 <= i,
    ;
    assert(trapezoid_increment(t0s, h, i) <= 6 * trapezoid_increment(t0s, h, i));
    assert(in_range(inc));
}

/// Exactness of the explicit Euler rule: on an exact grid, every trajectory
/// value of the rule on f(t, y) = 2 t equals the closed form
/// y0 + 2 q0 i + qh i (i + 1), the exact sum of its increments — the
/// rule reproduces the quadratic solution without any rounding error.
pub proof fn lemma_explicit_euler_exact_double_time(t0s: int, h: int, y0: int, n: int)
    requires
        0 <= n,
        double_time_grid_pre(t0s, h, n),
        in_range(y0),
        in_range(euler_double_time_value(t0s, h, y0, n)),
    ensures
        forall|i: int|
            0 <= i <= n ==> euler_traj_res(DoubleTimeRate, t0s, h, y0, i as nat) == Ok::<
                int,
                SolverError,
            >(euler_double_time_value(t0s, h, y0, i)),
    decreases n,
{
    let s = SCALE as int;
    let q0 = cross_units(t0s, h);
    let qh = square_units(h);
    lemma_double_time_units(t0s, h);
    if n == 0 {
        assert(euler_double_time_value(t0s, h, y0, 0) == y0) by (nonlinear_arith)
            requires
                euler_double_time_value(t0s, h, y0, 0) == y0 + 2 * q0 * 0 + qh * (0 * (0 + 1)),
        ;
    } else {
        lemma_double_time_pre_monotonic(t0s, h, n);
        let prev = euler_double_time_value(t0s, h, y0, n - 1);
        let cur = euler_double_time_value(t0s, h, y0, n);
        let inc = euler_increment(t0s, h, n);
        assert(prev + inc == cur && y0 <= prev <= cur) by (nonlinear_arith)
            requires
                prev == y0 + 2 * q0 * (n - 1) + qh * ((n - 1) * n),
                cur == y0 + 2 * q0 * n + qh * (n * (n + 1)),
                inc == 2 * q0 + 2 * n * qh,
                0 <= q0,
                1 <= qh,
                1 <= n,
        ;
        lemma_explicit_euler_exact_double_time(t0s, h, y0, n - 1);
        lemma_euler_step_double_time(t0s, h, prev, n);
        assert(euler_traj_res(DoubleTimeRate, t0s, h, y0, n as nat) == Ok::<int, SolverError>(cur));
    }
}

/// An exact grid for sample `n` is an exact grid for every earlier
/// sample: all the headroom bounds only shrink.
proof fn lemma_double_time_pre_monotonic(t0s: int, h: int, n: int)
    requires
        1 <= n,
        double_time_grid_pre(t0s, h, n),
    ensures
        double_time_grid_pre(t0s, h, n - 1),
        euler_increment(t0s, h, n - 1) <= euler_increment(t0s, h, n),
        trapezoid_increment(t0s, h, n - 1) <= trapezoid_increment(t0s, h, n),
{
    let s = SCALE as int;
    let q0 = cross_units(t0s, h);
    let qh = square_units(h);
    lemma_double_time_units(t0s, h);
    assert((0 <= (n - 1) * s <= n * s) && (0 <= 2 * (t0s + (n - 1) * h) + 2 * h <= 2 * (t0s + n * h)
        + 2 * h) && (0 <= 6 * trapezoid_increment(t0s, h, n - 1) <= 6 * trapezoid_increment(
        t0s,
        h,
        n,
    )) && euler_increment(t0s, h, n - 1) <= euler_increment(t0s, h, n)) by (nonlinear_arith)
        requires
            1 <= n,
            0 < h,
            0 <= t0s,
            0 < s,
            0 <= q0,
            1 <= qh,
            euler_increment(t0s, h, n - 1) == 2 * q0 + 2 * (n - 1) * qh,
            euler_increment(t0s, h, n) == 2 * q0 + 2 * n * qh,
            trapezoid_increment(t0s, h, n - 1) == 2 * q0 + (2 * (n - 1) + 1) * qh,
            trapezoid_increment(t0s, h, n) == 2 * q0 + (2 * n + 1) * qh,
    ;
}


/// One Heun step on f(t, y) = 2 t adds exactly the trapezoid increment:
/// the average of the two stage slopes loses nothing to rounding.
proof fn lemma_heun_step_double_time(t0s: int, h: int, y: int, i: int)
    requires
        1 <= i,
        double_time_grid_pre(t0s, h, i),
        in_range(y),
        in_range(y + trapezoid_increment(t0s, h, i)),
    ensures
        heun_step_res(DoubleTimeRate, t0s, h, y, i) == Ok::<int, SolverError>(
            y + trapezoid_increment(t0s, h, i),
        ),
{
    let s = SCALE as int;
    let q0 = cross_units(t0s, h);
    let qh = square_units(h);
    let t = t0s + i * h;
    let k1 = euler_increment(t0s, h, i);
    let trap = trapezoid_increment(t0s, h, i);
    let k2 = k1 + 2 * qh;
    lemma_double_time_units(t0s, h);
    lemma_double_time_time(t0s, h, i);
    assert(h * (t + t) == k1 * s && h * ((t + h) + (t + h)) == k2 * s && k1 + k2 == 2 * trap && (
    HALF as int) * (2 * trap) == trap * s && 0 <= k1 <= trap && 0 <= k2 <= 2 * trap && 0 <= trap)
        by (nonlinear_arith)
        requires
            t == t0s + i * h,
            h * t0s == q0 * s,
            h * h == qh * s,
            k1 == 2 * q0 + 2 * i * qh,
            k2 == k1 + 2 * qh,
            trap == 2 * q0 + (2 * i + 1) * qh,
            2 * (HALF as int) == s,
            0 <= q0,
            1 <= qh,
            1 <= i,
    ;
    lemma_div_trunc_multiple(k1, s);
    lemma_div_trunc_multiple(k2, s);
    lemma_div_trunc_multiple(trap, s);
    assert(mul_mant(h, t + t) == k1);
    assert(mul_mant(h, (t + h) + (t + h)) == k2);
    assert(mul_mant(HALF as int, k1 + k2) == trap);
}

/// Exactness of the Heun rule: on an exact grid, every trajectory value of the
/// rule on f(t, y) = 2 t equals the closed form
/// y0 + 2 q0 i + qh i (i + 2), the exact sum of its trapezoid
/// increments — the rule reproduces the quadratic solution without any
/// rounding error.
pub proof fn lemma_heun_exact_double_time(t0s: int, h: int, y0: int, n: int)
    requires
        0 <= n,
        double_time_grid_pre(t0s, h, n),
        in_range(y0),
        in_range(trapezoid_double_time_value(t0s, h, y0, n)),
    ensures
        forall|i: int|
            0 <= i <= n ==> heun_traj_res(DoubleTimeRate, t0s, h, y0, i as nat) == Ok::<
                int,
                SolverError,
            >(trapezoid_double_time_value(t0s, h, y0, i)),
    decreases n,
{
    let q0 = cross_units(t0s, h);
    let qh = square_units(h);
    lemma_double_time_units(t0s, h);
    if n == 0 {
        assert(trapezoid_double_time_value(t0s, h, y0, 0) == y0) by (nonlinear_arith)
            requires
                trapezoid_double_time_value(t0s, h, y0, 0) == y0 + 2 * q0 * 0 + qh * (0 * (0 + 2)),
        ;
    } else {
        lemma_double_time_pre_monotonic(t0s, h, n);
        let prev = trapezoid_double_time_value(t0s, h, y0, n - 1);
        let cur = trapezoid_double_time_value(t0s, h, y0, n);
        let inc = trapezoid_increment(t0s, h, n);
        assert(prev + inc == cur && y0 <= prev <= cur) by (nonlinear_arith)
            requires
                prev == y0 + 2 * q0 * (n - 1) + qh * ((n - 1) * (n + 1)),
                cur == y0 + 2 * q0 * n + qh * (n * (n + 2)),
                inc == 2 * q0 + (2 * n + 1) * qh,
                0 <= q0,
                1 <= qh,
                1 <= n,
        ;
        lemma_heun_exact_double_time(t0s, h, y0, n - 1);
        lemma_heun_step_double_time(t0s, h, prev, n);
        assert(heun_traj_res(DoubleTimeRate, t0s, h, y0, n as nat) == Ok::<int, SolverError>(cur));
    }
}

/// One Runge-Kutta step on f(t, y) = 2 t adds exactly the trapezoid
/// increment: the four stage slopes combine under the 1-2-2-1 weighting
/// to six times the trapezoid increment, and the division by six is
/// exact.
#[verifier::rlimit(60)]
proof fn lemma_rk4_step_double_time(t0s: int, h: int, y: int, i: int)
    requires
        1 <= i,
        double_time_grid_pre(t0s, h, i),
        in_range(y),
        in_range(y + trapezoid_increment(t0s, h, i)),
    ensures
        rk4_step_res(DoubleTimeRate, t0s, h, y, i) == Ok::<int, SolverError>(
            y + trapezoid_increment(t0s, h, i),
        ),
{
    reveal(rk4_step_res);
    reveal(rk4_step_tail);
    let s = SCALE as int;
    let q0 = cross_units(t0s, h);
    let qh = square_units(h);
    let t = t0s + i * h;
    let v = h / 2;
    let k1 = euler_increment(t0s, h, i);
    let k1h = q0 + i * qh;
    let trap = trapezoid_increment(t0s, h, i);
    let k4 = k1 + 2 * qh;
    lemma_double_time_units(t0s, h);
    lemma_double_time_time(t0s, h, i);
    lemma_fundamental_div_mod(h, 2);
    assert((h == 2 * v) && (h * (t + t) == k1 * s) && (h * s == v * (TWO as int)) && (0 <= v <= h)
        && (k1 == 2 * k1h) && (k1 * s == k1h * (TWO as int)) && (0 <= k1h <= trap) && (0 <= k1
        <= trap) && ((t + v) + (t + v) == t + t + h) && (h * (t + t + h) == trap * s) && (h * ((t
        + h) + (t + h)) == k4 * s) && (0 <= k4 <= 2 * trap) && ((TWO as int) * trap == (2 * trap)
        * s) && (0 <= trap) && (k1 + 2 * trap + 2 * trap + k4 == 6 * trap) && (trap * (SIX as int)
        == (6 * trap) * s) && (trap * s <= trap * (TWO as int))) by (nonlinear_arith)
        requires
            t == t0s + i * h,
            v == h / 2,
            h % 2 == 0,
            h == 2 * (h / 2) + h % 2,
            0 < h,
            h * t0s == q0 * s,
            h * h == qh * s,
            k1 == 2 * q0 + 2 * i * qh,
            k1h == q0 + i * qh,
            trap == 2 * q0 + (2 * i + 1) * qh,
            k4 == k1 + 2 * qh,
            s == SCALE as int,
            TWO as int == 2 * s,
            SIX as int == 6 * s,
            0 <= q0,
            1 <= qh,
            1 <= i,
    ;
    lemma_div_trunc_multiple(k1, s);
    assert(mul_mant(h, t + t) == k1);
    lemma_div_trunc_multiple(v, TWO as int);
    assert(div_mant(h, TWO as int) == v);
    lemma_div_trunc_multiple(k1h, TWO as int);
    assert(div_mant(k1, TWO as int) == k1h);
    lemma_div_trunc_multiple(trap, s);
    assert(mul_mant(h, (t + v) + (t + v)) == trap);
    // the halving of the second stage slope is inexact in general; only
    // its bounds matter, because the rate does not read the state
    let k2h = div_mant(trap, TWO as int);
    assert(0 <= trap * s) by (nonlinear_arith)
        requires
            0 <= trap,
            0 < s,
    ;
    lemma_div_pos_is_pos(trap * s, TWO as int);
    lemma_div_is_ordered(trap * s, trap * (TWO as int), TWO as int);
    lemma_div_trunc_multiple(trap, TWO as int);
    assert(0 <= k2h <= trap);
    lemma_div_trunc_multiple(k4, s);
    assert(mul_mant(h, (t + h) + (t + h)) == k4);
    lemma_div_trunc_multiple(2 * trap, s);
    assert(mul_mant(TWO as int, trap) == 2 * trap);
    lemma_div_trunc_multiple(trap, SIX as int);
    assert(div_mant(6 * trap, SIX as int) == trap);
    assert(rk4_step_res(DoubleTimeRate, t0s, h, y, i) == Ok::<int, SolverError>(y + trap));
}

/// Exactness of the Runge-Kutta rule: on an exact grid, every trajectory
/// value of the rule on f(t, y) = 2 t equals the same closed form as the
/// Heun rule, y0 + 2 q0 i + qh i (i + 2) — the 1-2-2-1 weighting
/// reproduces the quadratic solution without any rounding error.
pub proof fn lemma_rk4_exact_double_time(t0s: int, h: int, y0: int, n: int)
    requires
        0 <= n,
        double_time_grid_pre(t0s, h, n),
        in_range(y0),
        in_range(trapezoid_double_time_value(t0s, h, y0, n)),
    ensures
        forall|i: int|
            0 <= i <= n ==> rk4_traj_res(DoubleTimeRate, t0s, h, y0, i as nat) == Ok::<
                int,
                SolverError,
            >(trapezoid_double_time_value(t0s, h, y0, i)),
    decreases n,
{
    let q0 = cross_units(t0s, h);
    let qh = square_units(h);
    lemma_double_time_units(t0s, h);
    if n == 0 {
        assert(trapezoid_double_time_value(t0s, h, y0, 0) == y0) by (nonlinear_arith)
            requires
                trapezoid_double_time_value(t0s, h, y0, 0) == y0 + 2 * q0 * 0 + qh * (0 * (0 + 2)),
        ;
    } else {
        lemma_double_time_pre_monotonic(t0s, h, n);
        let prev = trapezoid_double_time_value(t0s, h, y0, n - 1);
        let cur = trapezoid_double_time_value(t0s, h, y0, n);
        let inc = trapezoid_increment(t0s, h, n);
        assert(prev + inc == cur && y0 <= prev <= cur) by (nonlinear_arith)
            requires
                prev == y0 + 2 * q0 * (n - 1) + qh * ((n - 1) * (n + 1)),
                cur == y0 + 2 * q0 * n + qh * (n * (n + 2)),
                inc == 2 * q0 + (2 * n + 1) * qh,
                0 <= q0,
                1 <= qh,
                1 <= n,
        ;
        lemma_rk4_exact_double_time(t0s, h, y0, n - 1);
        lemma_rk4_step_double_time(t0s, h, prev, n);
        assert(rk4_traj_res(DoubleTimeRate, t0s, h, y0, n as nat) == Ok::<int, SolverError>(cur));
    }
}

/// Two passes of the root finder on a residual that is linear with unit
/// slope around the previous sample: the first pass moves the iterate by
/// exactly `u`, the second finds the residual vanished and stops, so the
/// search returns the moved iterate after one update.
proof fn lemma_newton_two_pass(
    g: spec_fn(int) -> Result<int, SolverError>,
    gp: spec_fn(int) -> Result<int, SolverError>,
    y: int,
    u: int,
    tol: int,
    max_iters: int,
)
    requires
        g(y) == Ok::<int, SolverError>(-u),
        g(y + u) == Ok::<int, SolverError>(0),
        gp(y) == Ok::<int, SolverError>(SCALE as int),
        0 <= tol,
        tol < u,
        1 <= max_iters,
        in_range(u),
        in_range(-u),
        in_range(y + u),
    ensures
        newton_res(g, gp, y, 0, tol, max_iters) == Ok::<(int, int), SolverError>((y + u, 1)),
{
    let s = SCALE as int;
    lemma_div_trunc_multiple(-u, s);
    assert(div_mant(-u, s) == -u);
    assert(abs_i(-u) == u);
    assert(newton_res(g, gp, y + u, 1, tol, max_iters) == Ok::<(int, int), SolverError>((
        y + u,
        1,
    )));
}

/// One implicit Euler step on f(t, y) = 2 t: because the rate does not
/// read the state, the stage equation is linear with unit slope, and the
/// Newton search lands on the exact right-endpoint increment after one
/// update.  The step therefore adds exactly the explicit Euler increment
/// and never exhausts the iteration cap.
proof fn lemma_implicit_step_double_time(
    t0s: int,
    h: int,
    tol: int,
    max_iters: int,
    y: int,
    i: int,
)
    requires
        1 <= i,
        double_time_grid_pre(t0s, h, i),
        in_range(y),
        in_range(y + euler_increment(t0s, h, i)),
        0 <= tol,
        tol < euler_increment(t0s, h, i),
        1 <= max_iters,
    ensures
        implicit_step_res(DoubleTimeRate, t0s, h, tol, max_iters, y, i) == Ok::<
            (int, int),
            SolverError,
        >((y + euler_increment(t0s, h, i), 1)),
{
    let s = SCALE as int;
    let q0 = cross_units(t0s, h);
    let qh = square_units(h);
    let t = t0s + i * h;
    let u = euler_increment(t0s, h, i);
    lemma_double_time_units(t0s, h);
    lemma_double_time_time(t0s, h, i);
    assert(h * (t + t) == u * s && 0 <= u <= trapezoid_increment(t0s, h, i) && h * 0 == 0)
        by (nonlinear_arith)
        requires
            t == t0s + i * h,
            h * t0s == q0 * s,
            h * h == qh * s,
            u == 2 * q0 + 2 * i * qh,
            trapezoid_increment(t0s, h, i) == 2 * q0 + (2 * i + 1) * qh,
            0 <= q0,
            1 <= qh,
            1 <= i,
    ;
    lemma_div_trunc_multiple(u, s);
    assert(mul_mant(h, t + t) == u);
    assert(trapezoid_increment(t0s, h, i) <= 6 * trapezoid_increment(t0s, h, i));
    assert(in_range(u) && in_range(-u));
    let g = stage_g_fn(DoubleTimeRate, t, y, h);
    let gp = stage_g_prime_fn(DoubleTimeRate, t, h);
    assert(stage_g_res(DoubleTimeRate, t, y, h, y) == Ok::<int, SolverError>(-u));
    assert(stage_g_res(DoubleTimeRate, t, y, h, y + u) == Ok::<int, SolverError>(0));
    assert(mul_mant(h, 0) == 0);
    assert(stage_g_prime_res(DoubleTimeRate, t, h, y) == Ok::<int, SolverError>(s));
    assert(g(y) == Ok::<int, SolverError>(-u));
    assert(g(y + u) == Ok::<int, SolverError>(0));
    assert(gp(y) == Ok::<int, SolverError>(s));
    lemma_newton_two_pass(g, gp, y, u, tol, max_iters);
}

/// Exactness of the implicit Euler rule: on an exact grid with a
/// tolerance below the smallest step increment, every trajectory value
/// of the rule on f(t, y) = 2 t equals the explicit Euler closed form
/// y0 + 2 q0 i + qh i (i + 1) — the stage equations are solved exactly,
/// with one Newton update per step and no step exhausting the cap.
pub proof fn lemma_implicit_euler_exact_double_time(
    t0s: int,
    h: int,
    y0: int,
    tol: int,
    max_iters: int,
    n: int,
)
    requires
        0 <= n,
        double_time_grid_pre(t0s, h, n),
        in_range(y0),
        in_range(euler_double_time_value(t0s, h, y0, n)),
        0 <= tol,
        n >= 1 ==> tol < euler_increment(t0s, h, 1),
        1 <= max_iters,
    ensures
        forall|i: int|
            0 <= i <= n ==> implicit_run_res(DoubleTimeRate, t0s, h, tol, max_iters, y0, i as nat)
                == Ok::<(int, int), SolverError>((euler_double_time_value(t0s, h, y0, i), 0)),
    decreases n,
{
    let q0 = cross_units(t0s, h);
    let qh = square_units(h);
    lemma_double_time_units(t0s, h);
    if n == 0 {
        assert(euler_double_time_value(t0s, h, y0, 0) == y0) by (nonlinear_arith)
            requires
                euler_double_time_value(t0s, h, y0, 0) == y0 + 2 * q0 * 0 + qh * (0 * (0 + 1)),
        ;
    } else {
        lemma_double_time_pre_monotonic(t0s, h, n);
        let prev = euler_double_time_value(t0s, h, y0, n - 1);
        let cur = euler_double_time_value(t0s, h, y0, n);
        let inc = euler_increment(t0s, h, n);
        assert(prev + inc == cur && y0 <= prev <= cur && euler_increment(t0s, h, 1) <= inc)
            by (nonlinear_arith)
            requires
                prev == y0 + 2 * q0 * (n - 1) + qh * ((n - 1) * n),
                cur == y0 + 2 * q0 * n + qh * (n * (n + 1)),
                inc == 2 * q0 + 2 * n * qh,
                euler_increment(t0s, h, 1) == 2 * q0 + 2 * 1 * qh,
                0 <= q0,
                1 <= qh,
                1 <= n,
        ;
        lemma_implicit_euler_exact_double_time(t0s, h, y0, tol, max_iters, n - 1);
        lemma_implicit_step_double_time(t0s, h, tol, max_iters, prev, n);
        assert(implicit_run_res(DoubleTimeRate, t0s, h, tol, max_iters, y0, n as nat) == Ok::<
            (int, int),
            SolverError,
        >((cur, 0)));
    }
}


} // verus!
