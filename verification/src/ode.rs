//! Fixed-step integration of first-order ordinary differential equations
//! with an initial value.
//!
//! A step solver advances one time/state pair to the next; the driver
//! `integrate` folds a solver over an initial state until the target time
//! is reached or the step budget is spent.  Each step depends only on the
//! immediately preceding state, so the produced trajectory is pinned down
//! by the solver's step relation alone.

use vstd::prelude::*;

verus! {

use crate::algebra::{NumericGroup, NumericField, NumericRing, NumericSemiGroup};
use crate::vector_space::VectorSpace;

/// An immutable snapshot of the system: a scalar time `t` paired with a
/// position `y` in the vector space.
#[derive(Clone)]
pub struct TimeState<V: VectorSpace> {
    pub t: V::Field,
    pub y: V,
}

impl<V: VectorSpace> TimeState<V> {
    /// The position holds one scalar per dimension.
    pub open spec fn wf(self) -> bool {
        self.y.wf()
    }
}

/// A first-order system: a pure mapping from a time/state pair to the
/// derivative of the position at that state.  `deriv` is the mathematical
/// map; `eval` computes it, and returning a value with the coordinates of
/// `deriv` on every call is exactly the referential transparency that the
/// convergence guarantees of the solvers rest on.
pub trait OdeSystem<V: VectorSpace>: Sized {
    /// Well-formedness of the system's own data.
    spec fn wf(self) -> bool;

    /// The derivative of the position at state `s`.
    spec fn deriv(self, s: TimeState<V>) -> V;

    fn eval(&self, s: &TimeState<V>) -> (r: V)
        requires
            self.wf(),
            s.wf(),
        ensures
            r.wf(),
            forall|i: int|
                0 <= i < V::dim_spec() ==> #[trigger] r.elem(i) == self.deriv(*s).elem(i),
    ;
}

/// The system whose derivative is the same vector at every state, the
/// simplest system the library ships with; its exact solutions are
/// straight lines.
pub struct ConstantSlope<V: VectorSpace> {
    pub c: V,
}

impl<V: VectorSpace> OdeSystem<V> for ConstantSlope<V> {
    open spec fn wf(self) -> bool {
        self.c.wf()
    }

    open spec fn deriv(self, s: TimeState<V>) -> V {
        self.c
    }

    fn eval(&self, s: &TimeState<V>) -> (r: V) {
        self.c.dup()
    }
}

/// A stateless one-step method: it advances a state by one step of size
/// `dt`, and `step_rel` is the relation its results satisfy.
pub trait OdeStepSolver<S: OdeSystem<V>, V: VectorSpace>: Sized {
    /// What this method promises of a step from `s` to `r`.
    spec fn step_rel(self, f: S, s: TimeState<V>, dt: V::Field, r: TimeState<V>) -> bool;

    /// Every step produces a well-formed state and advances time by
    /// exactly `dt`.
    proof fn step_rel_advances(self, f: S, s: TimeState<V>, dt: V::Field, r: TimeState<V>)
        requires
            self.step_rel(f, s, dt, r),
        ensures
            r.wf(),
            r.t == s.t.add_spec(dt),
    ;

    fn solve_step(&self, f: &S, state: &TimeState<V>, dt: V::Field) -> (r: TimeState<V>)
        requires
            f.wf(),
            state.wf(),
        ensures
            r.wf(),
            self.step_rel(*f, *state, dt, r),
    ;
}

/// `r` is `y` moved along the slope `k` for a step of size `dt`:
/// coordinate for coordinate, `r = y + k * dt`.  Every one-step method
/// phrases its intermediate and final positions with this shape.
pub open spec fn is_offset_by<V: VectorSpace>(y: V, k: V, dt: V::Field, r: V) -> bool {
    &&& r.wf()
    &&& forall|i: int|
        0 <= i < V::dim_spec() ==> #[trigger] r.elem(i) == y.elem(i).add_spec(
            k.elem(i).mul_spec(dt),
        )
}

/// The step size the driver uses: the span from the initial time to the
/// target time, divided by the step count.
pub open spec fn step_size_spec<V: VectorSpace>(t0: V::Field, t_end: V::Field, n: usize) -> V::Field {
    t_end.add_spec(t0.neg_spec()).div_spec(<V::Field as NumericRing>::from_usize_spec(n))
}

/// What `integrate` promises of a produced trajectory on non-degenerate
/// input: it starts at the initial state, holds at most `n + 1` states,
/// consecutive states are related by the solver's step relation with step
/// size `dt`, every state that was stepped from lay before the target
/// time, and the trajectory only stops short of the full budget once the
/// target time is reached.
pub open spec fn trajectory_ok<X: OdeStepSolver<S, V>, S: OdeSystem<V>, V: VectorSpace>(
    solver: X,
    f: S,
    initial_state: TimeState<V>,
    t_end: V::Field,
    n: usize,
    dt: V::Field,
    ys: Seq<TimeState<V>>,
) -> bool {
    &&& 1 <= ys.len() <= n + 1
    &&& ys[0] == initial_state
    &&& forall|j: int| 0 <= j < ys.len() ==> (#[trigger] ys[j]).wf()
    &&& forall|j: int|
        0 <= j < ys.len() - 1 ==> #[trigger] solver.step_rel(f, ys[j], dt, ys[j + 1])
    &&& forall|j: int| 0 <= j < ys.len() - 1 ==> (#[trigger] ys[j]).t.lt_spec(t_end)
    &&& (ys.len() == n + 1 || !ys[ys.len() - 1].t.lt_spec(t_end))
}

/// Advances `initial_state` by `n` steps of the solver, or fewer if the
/// target time is reached first.  Degenerate input (a target time before
/// the initial time, or a zero step budget) yields the empty trajectory,
/// and nothing else does.
pub fn integrate<X, S, V>(
    solver: &X,
    f: &S,
    initial_state: TimeState<V>,
    t_end: V::Field,
    n: usize,
) -> (ys: Vec<TimeState<V>>) where
    X: OdeStepSolver<S, V>,
    S: OdeSystem<V>,
    V: VectorSpace,

    requires
        f.wf(),
        initial_state.wf(),
    ensures
        (t_end.lt_spec(initial_state.t) || n == 0) <==> ys@.len() == 0,
        !(t_end.lt_spec(initial_state.t) || n == 0) ==> trajectory_ok(
            *solver,
            *f,
            initial_state,
            t_end,
            n,
            step_size_spec::<V>(initial_state.t, t_end, n),
            ys@,
        ),
{
    if t_end.lt(initial_state.t) || n < 1 {
        return Vec::new();
    }
    let dt = t_end.sub(initial_state.t).div(<V::Field as NumericRing>::from_usize(n));
    let ghost dt_spec = step_size_spec::<V>(initial_state.t, t_end, n);
    let mut ys: Vec<TimeState<V>> = Vec::new();
    ys.push(initial_state);
    let mut k: usize = 0;
    while k < n
        invariant
            f.wf(),
            k <= n,
            dt == dt_spec,
            1 <= ys@.len() <= k + 1,
            ys@[0] == initial_state,
            forall|j: int| 0 <= j < ys@.len() ==> (#[trigger] ys@[j]).wf(),
            forall|j: int|
                0 <= j < ys@.len() - 1 ==> #[trigger] solver.step_rel(*f, ys@[j], dt_spec, ys@[j + 1]),
            forall|j: int| 0 <= j < ys@.len() - 1 ==> (#[trigger] ys@[j]).t.lt_spec(t_end),
            ys@.len() == k + 1 || !ys@[ys@.len() - 1].t.lt_spec(t_end),
        decreases n - k,
    {
        let last = ys.len() - 1;
        if ys[last].t.lt(t_end) {
            let next = solver.solve_step(f, &ys[last], dt);
            ys.push(next);
        }
        k = k + 1;
    }
    ys
}

/// Along a trajectory whose steps advance time by exactly `dt >= 0`, the
/// time of the `j`-th state is the initial time plus `j` steps, as long
/// as that sum stays in range.
proof fn lemma_time_chain_i64<X, S, V>(
    solver: X,
    f: S,
    dt: i64,
    ys: Seq<TimeState<V>>,
    t0: int,
    j: int,
) where X: OdeStepSolver<S, V>, S: OdeSystem<V>, V: VectorSpace<Field = i64>
    requires
        0 <= j < ys.len(),
        ys[0].t == t0,
        forall|m: int| 0 <= m < ys.len() - 1 ==> #[trigger] solver.step_rel(f, ys[m], dt, ys[m + 1]),
        dt >= 0,
        i64::MIN <= t0,
        t0 + (ys.len() - 1) * dt <= i64::MAX,
    ensures
        ys[j].t == t0 + j * dt,
    decreases j,
{
    if j > 0 {
        lemma_time_chain_i64(solver, f, dt, ys, t0, j - 1);
        assert(solver.step_rel(f, ys[j - 1], dt, ys[(j - 1) + 1]));
        solver.step_rel_advances(f, ys[j - 1], dt, ys[j]);
        assert((j - 1) * dt + dt == j * dt) by (nonlinear_arith);
        vstd::arithmetic::mul::lemma_mul_inequality(j, ys.len() - 1, dt as int);
        vstd::arithmetic::mul::lemma_mul_nonnegative(j, dt as int);
    }
}

/// Trajectory length law, shown for the `i64` scalar field: on a forward
/// problem (`t0 < t_end`) whose times and step count stay inside the
/// bounds below, so that no arithmetic wraps, the driver spends its whole
/// budget and the trajectory holds exactly `n + 1` states.  At
/// `t0 == t_end` the driver instead stops after the initial state, and
/// under wrapping (or rounding) arithmetic an intermediate time could
/// reach `t_end` early; both lie outside these bounds.
pub proof fn lemma_trajectory_len_i64<X, S, V>(
    solver: X,
    f: S,
    initial_state: TimeState<V>,
    t_end: i64,
    n: usize,
    ys: Seq<TimeState<V>>,
) where X: OdeStepSolver<S, V>, S: OdeSystem<V>, V: VectorSpace<Field = i64>
    requires
        trajectory_ok(
            solver,
            f,
            initial_state,
            t_end,
            n,
            step_size_spec::<V>(initial_state.t, t_end, n),
            ys,
        ),
        initial_state.t < t_end,
        1 <= n <= 0x4000_0000,
        -0x1000_0000_0000_0000 <= initial_state.t,
        t_end <= 0x1000_0000_0000_0000,
    ensures
        ys.len() == n + 1,
{
    let t0 = initial_state.t as int;
    let span = t_end - t0;
    let dt = step_size_spec::<V>(initial_state.t, t_end, n);
    assert(<V::Field as NumericRing>::from_usize_spec(n) == n as i64) by {
        vstd::arithmetic::div_mod::lemma_small_mod(n as nat, 0x1_0000_0000_0000_0000nat);
    }
    assert(dt == crate::algebra::trunc_div(span, n as int) as i64);
    let d = span / (n as int);
    vstd::arithmetic::div_mod::lemma_div_pos_is_pos(span, n as int);
    vstd::arithmetic::div_mod::lemma_fundamental_div_mod(span, n as int);
    vstd::arithmetic::div_mod::lemma_mod_division_less_than_divisor(span, n as int);
    assert(n as int * d <= span);
    assert(dt == d as i64);
    if ys.len() < n + 1 {
        let last = ys.len() - 1;
        assert(!ys[last].t.lt_spec(t_end));
        vstd::arithmetic::mul::lemma_mul_nonnegative(last, d);
        vstd::arithmetic::mul::lemma_mul_inequality(last, n as int, d);
        lemma_time_chain_i64(solver, f, dt, ys, t0, last);
        assert(ys[last].t == t0 + last * d);
        if d > 0 {
            vstd::arithmetic::mul::lemma_mul_inequality(last, n - 1, d);
            assert((n - 1) * d == n as int * d - d) by (nonlinear_arith);
            assert(t0 + last * d < t_end);
        } else {
            assert(last * d == 0) by (nonlinear_arith)
                requires
                    d == 0,
            ;
            assert(t0 + last * d < t_end);
        }
        assert(false);
    }
}

/// A solver that can integrate a whole initial-value problem; every
/// one-step method below gets this interface from the driver.
pub trait OdeSolver<S: OdeSystem<V>, V: VectorSpace>: Sized {
    /// What this solver promises of a produced trajectory.
    spec fn solution_rel(
        self,
        f: S,
        initial_state: TimeState<V>,
        t_end: V::Field,
        n: usize,
        ys: Seq<TimeState<V>>,
    ) -> bool;

    fn integrate(&self, f: &S, initial_state: TimeState<V>, t_end: V::Field, n: usize) -> (ys:
        Vec<TimeState<V>>)
        requires
            f.wf(),
            initial_state.wf(),
        ensures
            self.solution_rel(*f, initial_state, t_end, n, ys@),
    ;
}

impl<T, S, V> OdeSolver<S, V> for T where
    T: OdeStepSolver<S, V>,
    S: OdeSystem<V>,
    V: VectorSpace,
 {
    open spec fn solution_rel(
        self,
        f: S,
        initial_state: TimeState<V>,
        t_end: V::Field,
        n: usize,
        ys: Seq<TimeState<V>>,
    ) -> bool {
        &&& ((t_end.lt_spec(initial_state.t) || n == 0) <==> ys.len() == 0)
        &&& !(t_end.lt_spec(initial_state.t) || n == 0) ==> trajectory_ok(
            self,
            f,
            initial_state,
            t_end,
            n,
            step_size_spec::<V>(initial_state.t, t_end, n),
            ys,
        )
    }

    fn integrate(&self, f: &S, initial_state: TimeState<V>, t_end: V::Field, n: usize) -> (ys:
        Vec<TimeState<V>>) {
        crate::ode::integrate(self, f, initial_state, t_end, n)
    }
}

} // verus!
