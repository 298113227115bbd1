//! Runge-Kutta one-step solvers of orders two and four.
//!
//! The solver weights (one half, one sixth, the factor two) are computed
//! through the field's own identity, embedding and division operations,
//! so the methods stay generic over any scalar field.

use vstd::prelude::*;

verus! {

use crate::algebra::{MulIdentity, NumericField, NumericRing, NumericSemiGroup};
use crate::ode::{is_offset_by, OdeStepSolver, OdeSystem, TimeState};
use crate::vector_space::VectorSpace;

/// The reciprocal of a small denominator, as an element of the field.
pub open spec fn weight_spec<F: NumericField>(d: usize) -> F {
    F::one_spec().div_spec(F::from_usize_spec(d))
}

/// Computes `1 / denominator` inside the field.
fn weight<F: NumericField>(denominator: usize) -> (r: F)
    ensures
        r == weight_spec::<F>(denominator),
{
    F::one().div(F::from_usize(denominator))
}

/// `r` is `y` offset by the average of the slopes `k1` and `k2`, taken
/// for a step of size `dt`.
pub open spec fn heun_combined<V: VectorSpace>(y: V, k1: V, k2: V, dt: V::Field, r: V) -> bool {
    &&& r.wf()
    &&& forall|i: int|
        0 <= i < V::dim_spec() ==> #[trigger] r.elem(i) == y.elem(i).add_spec(
            k1.elem(i).add_spec(k2.elem(i)).mul_spec(weight_spec::<V::Field>(2)).mul_spec(dt),
        )
}

/// The witness of one second-order step: `mid` is the Euler-predicted
/// state at the far end of the step, and `r` averages the slopes taken at
/// `s` and at `mid`.
pub open spec fn rk2_parts<S: OdeSystem<V>, V: VectorSpace>(
    f: S,
    s: TimeState<V>,
    dt: V::Field,
    mid: TimeState<V>,
    r: TimeState<V>,
) -> bool {
    &&& mid.wf()
    &&& mid.t == s.t.add_spec(dt)
    &&& is_offset_by(s.y, f.deriv(s), dt, mid.y)
    &&& heun_combined(s.y, f.deriv(s), f.deriv(mid), dt, r.y)
}

/// One second-order step from `s` lands on `r`.
pub open spec fn rk2_step_rel<S: OdeSystem<V>, V: VectorSpace>(
    f: S,
    s: TimeState<V>,
    dt: V::Field,
    r: TimeState<V>,
) -> bool {
    &&& r.t == s.t.add_spec(dt)
    &&& r.y.wf()
    &&& exists|mid: TimeState<V>| #[trigger] rk2_parts(f, s, dt, mid, r)
}

/// The second-order Runge-Kutta method (Heun's method): each step
/// averages the derivative at the current state with the derivative at
/// the Euler-predicted next state.
pub struct Rk2Solver;

impl Rk2Solver {
    /// Advances `state` by one step of size `dt`, with two derivative
    /// evaluations.
    pub fn step<S, V>(&self, f: &S, state: &TimeState<V>, dt: V::Field) -> (r: TimeState<V>) where
        S: OdeSystem<V>,
        V: VectorSpace,

        requires
            f.wf(),
            state.wf(),
        ensures
            r.wf(),
            rk2_step_rel(*f, *state, dt, r),
    {
        let k1 = f.eval(state);

        let t_step = state.t.add(dt);
        let k1b = f.eval(state);
        let mid = TimeState { t: t_step, y: state.y.vadd(&k1b.vscale(dt)) };
        let k2 = f.eval(&mid);

        let wt: V::Field = weight(2);
        let slope = k1.vadd(&k2).vscale(wt);
        let r = TimeState { t: t_step, y: state.y.vadd(&slope.vscale(dt)) };
        proof {
            assert forall|i: int|
                0 <= i < V::dim_spec() implies #[trigger] mid.y.elem(i) == state.y.elem(i).add_spec(
                f.deriv(*state).elem(i).mul_spec(dt),
            ) by {
                assert(k1b.elem(i) == f.deriv(*state).elem(i));
            }
            assert forall|i: int|
                0 <= i < V::dim_spec() implies #[trigger] r.y.elem(i) == state.y.elem(i).add_spec(
                f.deriv(*state).elem(i).add_spec(f.deriv(mid).elem(i)).mul_spec(
                    weight_spec::<V::Field>(2),
                ).mul_spec(dt),
            ) by {
                assert(k1.elem(i) == f.deriv(*state).elem(i));
                assert(k2.elem(i) == f.deriv(mid).elem(i));
            }
            assert(rk2_parts(*f, *state, dt, mid, r));
        }
        r
    }
}

impl<S, V> OdeStepSolver<S, V> for Rk2Solver where S: OdeSystem<V>, V: VectorSpace {
    open spec fn step_rel(self, f: S, s: TimeState<V>, dt: V::Field, r: TimeState<V>) -> bool {
        rk2_step_rel(f, s, dt, r)
    }

    proof fn step_rel_advances(self, f: S, s: TimeState<V>, dt: V::Field, r: TimeState<V>) {
    }

    fn solve_step(&self, f: &S, state: &TimeState<V>, dt: V::Field) -> (r: TimeState<V>) {
        self.step(f, state, dt)
    }
}

/// `r` is `y` offset by the classical fourth-order combination of the
/// four slopes, `(k1 + (k2 + k3) * 2 + k4) / 6`, taken for a step of size
/// `dt`.
pub open spec fn rk4_combined<V: VectorSpace>(
    y: V,
    k1: V,
    k2: V,
    k3: V,
    k4: V,
    dt: V::Field,
    r: V,
) -> bool {
    &&& r.wf()
    &&& forall|i: int|
        0 <= i < V::dim_spec() ==> #[trigger] r.elem(i) == y.elem(i).add_spec(
            k1.elem(i).add_spec(
                k2.elem(i).add_spec(k3.elem(i)).mul_spec(
                    <V::Field as NumericRing>::from_usize_spec(2),
                ),
            ).add_spec(k4.elem(i)).mul_spec(weight_spec::<V::Field>(6)).mul_spec(dt),
        )
}

/// The witness of one fourth-order step: two midpoint states probed with
/// half steps, the far state probed with a full step, and `r` combining
/// the four slopes.
pub open spec fn rk4_parts<S: OdeSystem<V>, V: VectorSpace>(
    f: S,
    s: TimeState<V>,
    dt: V::Field,
    m1: TimeState<V>,
    m2: TimeState<V>,
    e: TimeState<V>,
    r: TimeState<V>,
) -> bool {
    let dt_mid = dt.mul_spec(weight_spec::<V::Field>(2));
    &&& m1.wf()
    &&& m1.t == s.t.add_spec(dt_mid)
    &&& is_offset_by(s.y, f.deriv(s), dt_mid, m1.y)
    &&& m2.wf()
    &&& m2.t == s.t.add_spec(dt_mid)
    &&& is_offset_by(s.y, f.deriv(m1), dt_mid, m2.y)
    &&& e.wf()
    &&& e.t == s.t.add_spec(dt)
    &&& is_offset_by(s.y, f.deriv(m2), dt, e.y)
    &&& rk4_combined(s.y, f.deriv(s), f.deriv(m1), f.deriv(m2), f.deriv(e), dt, r.y)
}

/// One fourth-order step from `s` lands on `r`.
pub open spec fn rk4_step_rel<S: OdeSystem<V>, V: VectorSpace>(
    f: S,
    s: TimeState<V>,
    dt: V::Field,
    r: TimeState<V>,
) -> bool {
    &&& r.t == s.t.add_spec(dt)
    &&& r.y.wf()
    &&& exists|m1: TimeState<V>, m2: TimeState<V>, e: TimeState<V>|
        #[trigger] rk4_parts(f, s, dt, m1, m2, e, r)
}

/// The classical fourth-order Runge-Kutta method.
pub struct Rk4Solver;

impl Rk4Solver {
    /// Advances `state` by one step of size `dt`, with four derivative
    /// evaluations.
    pub fn step<S, V>(&self, f: &S, state: &TimeState<V>, dt: V::Field) -> (r: TimeState<V>) where
        S: OdeSystem<V>,
        V: VectorSpace,

        requires
            f.wf(),
            state.wf(),
        ensures
            r.wf(),
            rk4_step_rel(*f, *state, dt, r),
    {
        let k1 = f.eval(state);

        let dt_mid = dt.mul(weight(2));
        let t_mid = state.t.add(dt_mid);
        let m1 = TimeState { t: t_mid, y: state.y.vadd(&k1.vscale(dt_mid)) };
        let k2 = f.eval(&m1);
        let m2 = TimeState { t: t_mid, y: state.y.vadd(&k2.vscale(dt_mid)) };
        let k3 = f.eval(&m2);
        let k_mid = k2.vadd(&k3).vscale(<V::Field as NumericRing>::from_usize(2));

        let t_step = state.t.add(dt);
        let e = TimeState { t: t_step, y: state.y.vadd(&k3.vscale(dt)) };
        let k4 = f.eval(&e);

        let slope = k1.vadd(&k_mid).vadd(&k4).vscale(weight(6));
        let r = TimeState { t: t_step, y: state.y.vadd(&slope.vscale(dt)) };
        proof {
            let ghost dtm = dt.mul_spec(weight_spec::<V::Field>(2));
            assert forall|i: int|
                0 <= i < V::dim_spec() implies #[trigger] m1.y.elem(i) == state.y.elem(i).add_spec(
                f.deriv(*state).elem(i).mul_spec(dtm),
            ) by {
                assert(k1.elem(i) == f.deriv(*state).elem(i));
            }
            assert forall|i: int|
                0 <= i < V::dim_spec() implies #[trigger] m2.y.elem(i) == state.y.elem(i).add_spec(
                f.deriv(m1).elem(i).mul_spec(dtm),
            ) by {
                assert(k2.elem(i) == f.deriv(m1).elem(i));
            }
            assert forall|i: int|
                0 <= i < V::dim_spec() implies #[trigger] e.y.elem(i) == state.y.elem(i).add_spec(
                f.deriv(m2).elem(i).mul_spec(dt),
            ) by {
                assert(k3.elem(i) == f.deriv(m2).elem(i));
            }
            assert forall|i: int|
                0 <= i < V::dim_spec() implies #[trigger] r.y.elem(i) == state.y.elem(i).add_spec(
                f.deriv(*state).elem(i).add_spec(
                    f.deriv(m1).elem(i).add_spec(f.deriv(m2).elem(i)).mul_spec(
                        <V::Field as NumericRing>::from_usize_spec(2),
                    ),
                ).add_spec(f.deriv(e).elem(i)).mul_spec(weight_spec::<V::Field>(6)).mul_spec(dt),
            ) by {
                assert(k1.elem(i) == f.deriv(*state).elem(i));
                assert(k2.elem(i) == f.deriv(m1).elem(i));
                assert(k3.elem(i) == f.deriv(m2).elem(i));
                assert(k4.elem(i) == f.deriv(e).elem(i));
                assert(k_mid.elem(i) == k2.elem(i).add_spec(k3.elem(i)).mul_spec(
                    <V::Field as NumericRing>::from_usize_spec(2),
                ));
                assert(slope.elem(i) == k1.elem(i).add_spec(k_mid.elem(i)).add_spec(
                    k4.elem(i),
                ).mul_spec(weight_spec::<V::Field>(6)));
            }
            assert(rk4_parts(*f, *state, dt, m1, m2, e, r));
        }
        r
    }
}

impl<S, V> OdeStepSolver<S, V> for Rk4Solver where S: OdeSystem<V>, V: VectorSpace {
    open spec fn step_rel(self, f: S, s: TimeState<V>, dt: V::Field, r: TimeState<V>) -> bool {
        rk4_step_rel(f, s, dt, r)
    }

    proof fn step_rel_advances(self, f: S, s: TimeState<V>, dt: V::Field, r: TimeState<V>) {
    }

    fn solve_step(&self, f: &S, state: &TimeState<V>, dt: V::Field) -> (r: TimeState<V>) {
        self.step(f, state, dt)
    }
}

} // verus!
