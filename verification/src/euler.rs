//! The Euler method: the first-order one-step solver.

use vstd::prelude::*;

verus! {

use crate::algebra::{NumericRing, NumericSemiGroup};
use crate::ode::{is_offset_by, OdeStepSolver, OdeSystem, TimeState};
use crate::vector_space::VectorSpace;

/// One Euler step from `s` lands on `r`: time advances by `dt`, and the
/// position moves along the derivative at `s` for one step.
pub open spec fn euler_step_rel<S: OdeSystem<V>, V: VectorSpace>(
    f: S,
    s: TimeState<V>,
    dt: V::Field,
    r: TimeState<V>,
) -> bool {
    &&& r.t == s.t.add_spec(dt)
    &&& is_offset_by(s.y, f.deriv(s), dt, r.y)
}

/// A first-order one-step method for initial value problems: each step
/// follows the derivative at the current state.
pub struct EulerSolver;

impl EulerSolver {
    /// Advances `state` by one step of size `dt`, with one derivative
    /// evaluation.
    pub fn step<S, V>(&self, f: &S, state: &TimeState<V>, dt: V::Field) -> (r: TimeState<V>) where
        S: OdeSystem<V>,
        V: VectorSpace,

        requires
            f.wf(),
            state.wf(),
        ensures
            r.wf(),
            euler_step_rel(*f, *state, dt, r),
    {
        let k1 = f.eval(state);
        let r = TimeState { t: state.t.add(dt), y: state.y.vadd(&k1.vscale(dt)) };
        proof {
            assert forall|i: int|
                0 <= i < V::dim_spec() implies #[trigger] r.y.elem(i) == state.y.elem(i).add_spec(
                f.deriv(*state).elem(i).mul_spec(dt),
            ) by {
                assert(k1.elem(i) == f.deriv(*state).elem(i));
            }
        }
        r
    }
}

impl<S, V> OdeStepSolver<S, V> for EulerSolver where S: OdeSystem<V>, V: VectorSpace {
    open spec fn step_rel(self, f: S, s: TimeState<V>, dt: V::Field, r: TimeState<V>) -> bool {
        euler_step_rel(f, s, dt, r)
    }

    proof fn step_rel_advances(self, f: S, s: TimeState<V>, dt: V::Field, r: TimeState<V>) {
    }

    fn solve_step(&self, f: &S, state: &TimeState<V>, dt: V::Field) -> (r: TimeState<V>) {
        self.step(f, state, dt)
    }
}

} // verus!
