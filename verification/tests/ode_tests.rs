use nmbrs::algebra::{AddIdentity, MulIdentity, NumericField, NumericGroup, NumericRing, NumericSemiGroup};
use nmbrs::euler::EulerSolver;
use nmbrs::ode::{integrate, ConstantSlope, OdeSolver, OdeSystem, TimeState};
use nmbrs::runge_kutta::{Rk2Solver, Rk4Solver};

/// A real scalar backed by `f64`, registered for the full capability
/// hierarchy of the library.
#[derive(Clone, Copy, Debug, PartialEq)]
struct R64(f64);

impl AddIdentity for R64 {
    fn zero_spec() -> Self {
        R64(0.0)
    }

    fn zero() -> Self {
        R64(0.0)
    }
}

impl NumericSemiGroup for R64 {
    // The spec-side model mirrors the executable operation; the law
    // obligations are discharged by the verifier only for the library's
    // own registrations, never at run time.
    fn add_spec(self, o: Self) -> Self {
        R64(self.0 + o.0)
    }

    fn lt_spec(self, o: Self) -> bool {
        self.0 < o.0
    }

    fn law_add_zero(_a: Self) {}

    fn law_add_assoc(_a: Self, _b: Self, _c: Self) {}

    fn add(self, o: Self) -> Self {
        R64(self.0 + o.0)
    }

    fn eq_val(self, o: Self) -> bool {
        self.0 == o.0
    }

    fn lt(self, o: Self) -> bool {
        self.0 < o.0
    }
}

impl NumericGroup for R64 {
    fn neg_spec(self) -> Self {
        R64(-self.0)
    }

    fn law_add_neg(_a: Self) {}

    fn neg(self) -> Self {
        R64(-self.0)
    }
}

impl MulIdentity for R64 {
    fn one_spec() -> Self {
        R64(1.0)
    }

    fn one() -> Self {
        R64(1.0)
    }
}

impl NumericRing for R64 {
    fn mul_spec(self, o: Self) -> Self {
        R64(self.0 * o.0)
    }

    fn from_usize_spec(n: usize) -> Self {
        R64(n as f64)
    }

    fn law_mul_distributes(_a: Self, _b: Self, _k: Self) {}

    fn mul(self, o: Self) -> Self {
        R64(self.0 * o.0)
    }

    fn from_usize(n: usize) -> Self {
        R64(n as f64)
    }
}

impl NumericField for R64 {
    fn div_spec(self, o: Self) -> Self {
        R64(self.0 / o.0)
    }

    fn div(self, o: Self) -> Self {
        R64(self.0 / o.0)
    }
}

/// The scalar initial value problem `dy/dt = y * sin(t)`.
struct SineGrowth;

impl OdeSystem<R64> for SineGrowth {
    fn wf(self) -> bool {
        true
    }

    fn deriv(self, s: TimeState<R64>) -> R64 {
        R64(s.y.0 * s.t.0.sin())
    }

    fn eval(&self, s: &TimeState<R64>) -> R64 {
        R64(s.y.0 * s.t.0.sin())
    }
}

/// The exact solution of `dy/dt = y * sin(t)`, `y(0) = -1`.
fn sol(t: f64) -> f64 {
    -(1.0 - t.cos()).exp()
}

#[test]
fn euler_1d_convegence() {
    let f = SineGrowth;
    let y0 = R64(-1.0);
    let initial_state = TimeState { t: R64(0.0), y: y0 };

    let solver = EulerSolver;
    let t_end = R64(10.0);

    for k in 5..15 {
        let n = 2_usize.pow(k);
        let ys: Vec<TimeState<R64>> = solver.integrate(&f, initial_state.clone(), t_end, n);

        let h = t_end.0 / n as f64;
        let upper_bound = 20.0 * h;

        for i in 0..n {
            let s_i = &ys[i];
            let sol_i = sol(s_i.t.0);
            let err_i = (sol_i - s_i.y.0).abs();
            assert!(
                err_i <= upper_bound,
                "error {} exceeded threshold {}",
                err_i,
                upper_bound
            );
        }
    }
}

#[test]
fn runge_kutta_second_order_1d_convegence() {
    let f = SineGrowth;
    let y0 = R64(-1.0);
    let initial_state: TimeState<R64> = TimeState { t: R64(0.0), y: y0 };

    let t_end = R64(10.0);

    for k in 5..15 {
        let n = 2_usize.pow(k);
        let ys = Rk2Solver.integrate(&f, initial_state.clone(), t_end, n);

        let dt: f64 = t_end.0 / n as f64;
        let upper_bound = 5.0 * dt.powi(2);

        for i in 0..n {
            let s_i = &ys[i];
            let sol_i = sol(s_i.t.0);
            let err_i = (sol_i - s_i.y.0).abs();
            assert!(
                err_i <= upper_bound,
                "error {} exceeded threshold {}",
                err_i,
                upper_bound
            );
        }
    }
}

#[test]
fn runge_kutta_fourth_order_1d_convegence() {
    let f = SineGrowth;
    let y0 = R64(-1.0);
    let initial_state = TimeState { t: R64(0.0), y: y0 };

    let t_end = R64(10.0);

    for k in 5..15 {
        let n = 2_usize.pow(k);
        let ys = Rk4Solver.integrate(&f, initial_state.clone(), t_end, n);

        let dt: f64 = t_end.0 / n as f64;
        let upper_bound = 5.0 * dt.powi(4);

        for i in 0..n {
            let s_i = &ys[i];
            let sol_i = sol(s_i.t.0);
            let err_i = (sol_i - s_i.y.0).abs();
            assert!(
                err_i <= upper_bound,
                "error {} exceeded threshold {} ({})",
                err_i,
                upper_bound,
                n
            );
        }
    }
}

#[test]
fn euler_error_bound_at_1024_steps() {
    let f = SineGrowth;
    let initial_state = TimeState { t: R64(0.0), y: R64(-1.0) };
    let n = 1024;
    let ys = EulerSolver.integrate(&f, initial_state, R64(10.0), n);

    let dt = 10.0 / n as f64;
    let upper_bound = 20.0 * dt;
    for s in &ys {
        assert!((sol(s.t.0) - s.y.0).abs() <= upper_bound);
    }
}

#[test]
fn rk4_error_bound_at_1024_steps() {
    let f = SineGrowth;
    let initial_state = TimeState { t: R64(0.0), y: R64(-1.0) };
    let n = 1024;
    let ys = Rk4Solver.integrate(&f, initial_state, R64(10.0), n);

    let dt = 10.0 / n as f64;
    let upper_bound = 20.0 * dt.powi(4);
    for s in &ys {
        assert!((sol(s.t.0) - s.y.0).abs() <= upper_bound);
    }
}

#[test]
fn degenerate_inputs_yield_empty_trajectory() {
    let f = SineGrowth;

    // Target time before the initial time.
    let backwards = TimeState { t: R64(5.0), y: R64(-1.0) };
    let ys = integrate(&EulerSolver, &f, backwards, R64(3.0), 10);
    assert!(ys.is_empty());

    // Zero step budget.
    let initial_state = TimeState { t: R64(0.0), y: R64(-1.0) };
    let ys = integrate(&Rk4Solver, &f, initial_state, R64(10.0), 0);
    assert!(ys.is_empty());
}

#[test]
fn trajectory_has_budget_plus_one_states() {
    let f = SineGrowth;
    for n in [1, 2, 16, 1024] {
        let initial_state = TimeState { t: R64(0.0), y: R64(-1.0) };
        let ys = EulerSolver.integrate(&f, initial_state, R64(10.0), n);
        assert_eq!(ys.len(), n + 1);
    }

    // The same holds over the integer field.
    let line = ConstantSlope::<i64> { c: 3 };
    let ys = Rk2Solver.integrate(&line, TimeState { t: 0i64, y: 100i64 }, 1000i64, 10);
    assert_eq!(ys.len(), 11);
    assert_eq!(ys[10].t, 1000);
}

#[test]
fn constant_slope_moves_in_straight_line() {
    let line = ConstantSlope::<i64> { c: 3 };
    let ys = EulerSolver.integrate(&line, TimeState { t: 0i64, y: 100i64 }, 1000i64, 10);
    assert_eq!(ys.len(), 11);
    for (k, s) in ys.iter().enumerate() {
        assert_eq!(s.t, 100 * k as i64);
        assert_eq!(s.y, 100 + 300 * k as i64);
    }
}
