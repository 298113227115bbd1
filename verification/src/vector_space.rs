//! The vector-space abstraction and its two realizations: the
//! fixed-dimension coordinate vector `Vector<D, F>`, and every field as a
//! one-dimensional space over itself.
//!
//! A space is described coordinatewise: `dim_spec` gives the dimension,
//! `elem` reads a coordinate, and the operations promise exactly what each
//! coordinate of their result is.  Two vectors with the same coordinates
//! are interchangeable in every spec that reads them; the `equiv`
//! predicate names that relation and the laws below are stated with it.

use vstd::prelude::*;

verus! {

use crate::algebra::{AddIdentity, NumericField, NumericGroup, NumericRing, NumericSemiGroup};

/// A vector space over an associated scalar field: an additive identity,
/// coordinatewise addition, negation and subtraction, and multiplication
/// by a scalar.
///
/// The named predicates `is_zero_vec`, `is_sum` and so on restate these
/// contracts; they are spelled out here because a trait contract cannot
/// call a function that is itself generic over the trait.
pub trait VectorSpace: Sized {
    type Field: NumericField;

    /// Well-formedness: the value really holds one scalar per dimension.
    spec fn wf(self) -> bool;

    /// The dimension of the space.
    spec fn dim_spec() -> nat;

    /// The scalar at coordinate `i`.
    spec fn elem(self, i: int) -> Self::Field;

    /// The additive identity of the space.
    fn vzero() -> (r: Self)
        ensures
            r.wf(),
            forall|i: int|
                0 <= i < Self::dim_spec() ==> #[trigger] r.elem(i)
                    == <Self::Field as AddIdentity>::zero_spec(),
    ;

    fn vadd(&self, o: &Self) -> (r: Self)
        requires
            self.wf(),
            o.wf(),
        ensures
            r.wf(),
            forall|i: int|
                0 <= i < Self::dim_spec() ==> #[trigger] r.elem(i) == self.elem(i).add_spec(
                    o.elem(i),
                ),
    ;

    fn vneg(&self) -> (r: Self)
        requires
            self.wf(),
        ensures
            r.wf(),
            forall|i: int|
                0 <= i < Self::dim_spec() ==> #[trigger] r.elem(i) == self.elem(i).neg_spec(),
    ;

    fn vsub(&self, o: &Self) -> (r: Self)
        requires
            self.wf(),
            o.wf(),
        ensures
            r.wf(),
            forall|i: int|
                0 <= i < Self::dim_spec() ==> #[trigger] r.elem(i) == self.elem(i).add_spec(
                    o.elem(i).neg_spec(),
                ),
    ;

    /// Scalar multiplication.
    fn vscale(&self, k: Self::Field) -> (r: Self)
        requires
            self.wf(),
        ensures
            r.wf(),
            forall|i: int|
                0 <= i < Self::dim_spec() ==> #[trigger] r.elem(i) == self.elem(i).mul_spec(k),
    ;

    /// A fresh value with the same coordinates.
    fn dup(&self) -> (r: Self)
        requires
            self.wf(),
        ensures
            r.wf(),
            forall|i: int|
                0 <= i < Self::dim_spec() ==> #[trigger] r.elem(i) == self.elem(i),
    ;
}

/// Every coordinate of `z` is the scalar zero.
pub open spec fn is_zero_vec<V: VectorSpace>(z: V) -> bool {
    &&& z.wf()
    &&& forall|i: int|
        0 <= i < V::dim_spec() ==> #[trigger] z.elem(i) == <V::Field as AddIdentity>::zero_spec()
}

/// `s` is the coordinatewise sum of `a` and `b`.
pub open spec fn is_sum<V: VectorSpace>(a: V, b: V, s: V) -> bool {
    &&& s.wf()
    &&& forall|i: int|
        0 <= i < V::dim_spec() ==> #[trigger] s.elem(i) == a.elem(i).add_spec(b.elem(i))
}

/// `n` is the coordinatewise negation of `a`.
pub open spec fn is_negated<V: VectorSpace>(a: V, n: V) -> bool {
    &&& n.wf()
    &&& forall|i: int| 0 <= i < V::dim_spec() ==> #[trigger] n.elem(i) == a.elem(i).neg_spec()
}

/// `r` is the coordinatewise difference of `a` and `b`.
pub open spec fn is_diff<V: VectorSpace>(a: V, b: V, r: V) -> bool {
    &&& r.wf()
    &&& forall|i: int|
        0 <= i < V::dim_spec() ==> #[trigger] r.elem(i) == a.elem(i).add_spec(
            b.elem(i).neg_spec(),
        )
}

/// `r` is `a` with every coordinate multiplied by the scalar `k`.
pub open spec fn is_scaled<V: VectorSpace>(a: V, k: V::Field, r: V) -> bool {
    &&& r.wf()
    &&& forall|i: int| 0 <= i < V::dim_spec() ==> #[trigger] r.elem(i) == a.elem(i).mul_spec(k)
}

/// `a` and `b` agree on every coordinate.
pub open spec fn same_elems<V: VectorSpace>(a: V, b: V) -> bool {
    forall|i: int| 0 <= i < V::dim_spec() ==> #[trigger] a.elem(i) == #[trigger] b.elem(i)
}

/// `a` and `b` are well-formed and agree on every coordinate: equality as
/// vectors.
pub open spec fn equiv<V: VectorSpace>(a: V, b: V) -> bool {
    &&& a.wf()
    &&& b.wf()
    &&& same_elems(a, b)
}

/// Law: adding the zero vector returns the vector unchanged,
/// coordinate for coordinate.
pub proof fn lemma_add_zero_identity<V: VectorSpace>(v: V, z: V, s: V)
    requires
        v.wf(),
        is_zero_vec(z),
        is_sum(v, z, s),
    ensures
        equiv(s, v),
{
    assert forall|i: int| 0 <= i < V::dim_spec() implies #[trigger] s.elem(i) == v.elem(i) by {
        assert(s.elem(i) == v.elem(i).add_spec(z.elem(i)));
        assert(z.elem(i) == <V::Field as AddIdentity>::zero_spec());
        <V::Field as NumericSemiGroup>::law_add_zero(v.elem(i));
    }
}

/// Law: a vector cancels against its negation, leaving the zero vector.
pub proof fn lemma_add_neg_is_zero<V: VectorSpace>(v: V, n: V, s: V)
    requires
        v.wf(),
        is_negated(v, n),
        is_sum(v, n, s),
    ensures
        is_zero_vec(s),
{
    assert forall|i: int|
        0 <= i < V::dim_spec() implies #[trigger] s.elem(i) == <V::Field as AddIdentity>::zero_spec() by {
        assert(s.elem(i) == v.elem(i).add_spec(n.elem(i)));
        assert(n.elem(i) == v.elem(i).neg_spec());
        <V::Field as NumericGroup>::law_add_neg(v.elem(i));
    }
}

/// Law: scaling a sum of vectors gives the sum of the scaled vectors.
pub proof fn lemma_scale_distributes<V: VectorSpace>(
    v1: V,
    v2: V,
    k: V::Field,
    s: V,
    sk: V,
    r1: V,
    r2: V,
    q: V,
)
    requires
        v1.wf(),
        v2.wf(),
        is_sum(v1, v2, s),
        is_scaled(s, k, sk),
        is_scaled(v1, k, r1),
        is_scaled(v2, k, r2),
        is_sum(r1, r2, q),
    ensures
        equiv(sk, q),
{
    assert forall|i: int| 0 <= i < V::dim_spec() implies #[trigger] sk.elem(i) == q.elem(i) by {
        assert(sk.elem(i) == s.elem(i).mul_spec(k));
        assert(s.elem(i) == v1.elem(i).add_spec(v2.elem(i)));
        assert(q.elem(i) == r1.elem(i).add_spec(r2.elem(i)));
        assert(r1.elem(i) == v1.elem(i).mul_spec(k));
        assert(r2.elem(i) == v2.elem(i).mul_spec(k));
        <V::Field as NumericRing>::law_mul_distributes(v1.elem(i), v2.elem(i), k);
    }
}

impl<F: NumericField> VectorSpace for F {
    type Field = F;

    open spec fn wf(self) -> bool {
        true
    }

    open spec fn dim_spec() -> nat {
        1
    }

    open spec fn elem(self, i: int) -> F {
        self
    }

    fn vzero() -> (r: F) {
        <F as AddIdentity>::zero()
    }

    fn vadd(&self, o: &F) -> (r: F) {
        (*self).add(*o)
    }

    fn vneg(&self) -> (r: F) {
        (*self).neg()
    }

    fn vsub(&self, o: &F) -> (r: F) {
        (*self).sub(*o)
    }

    fn vscale(&self, k: F) -> (r: F) {
        (*self).mul(k)
    }

    fn dup(&self) -> (r: F) {
        *self
    }
}

/// An ordered, fixed-length collection of `D` field elements.
#[derive(Clone, Debug)]
pub struct Vector<const D: usize, F> {
    pub v: Vec<F>,
}

impl<const D: usize, F> View for Vector<D, F> {
    type V = Seq<F>;

    open spec fn view(&self) -> Seq<F> {
        self.v@
    }
}

impl<const D: usize, F: NumericField> Vector<D, F> {
    /// Wraps `D` scalars as a vector.
    pub fn new(v: Vec<F>) -> (r: Self)
        requires
            v@.len() == D,
        ensures
            r@ == v@,
            r.wf(),
    {
        Vector { v }
    }
}

impl<const D: usize, F: NumericField> VectorSpace for Vector<D, F> {
    type Field = F;

    open spec fn wf(self) -> bool {
        self.v@.len() == D
    }

    open spec fn dim_spec() -> nat {
        D as nat
    }

    open spec fn elem(self, i: int) -> F {
        self.v@[i]
    }

    fn vzero() -> (r: Self) {
        let mut v: Vec<F> = Vec::new();
        let mut i: usize = 0;
        while i < D
            invariant
                i <= D,
                v@.len() == i,
                forall|j: int| 0 <= j < i ==> #[trigger] v@[j] == F::zero_spec(),
            decreases D - i,
        {
            v.push(F::zero());
            i = i + 1;
        }
        Vector { v }
    }

    fn vadd(&self, o: &Self) -> (r: Self) {
        let mut v: Vec<F> = Vec::new();
        let mut i: usize = 0;
        while i < D
            invariant
                self.wf(),
                o.wf(),
                i <= D,
                v@.len() == i,
                forall|j: int|
                    0 <= j < i ==> #[trigger] v@[j] == self.elem(j).add_spec(o.elem(j)),
            decreases D - i,
        {
            let x: F = self.v[i];
            let y: F = o.v[i];
            v.push(x.add(y));
            i = i + 1;
        }
        Vector { v }
    }

    fn vneg(&self) -> (r: Self) {
        let mut v: Vec<F> = Vec::new();
        let mut i: usize = 0;
        while i < D
            invariant
                self.wf(),
                i <= D,
                v@.len() == i,
                forall|j: int| 0 <= j < i ==> #[trigger] v@[j] == self.elem(j).neg_spec(),
            decreases D - i,
        {
            let x: F = self.v[i];
            v.push(x.neg());
            i = i + 1;
        }
        Vector { v }
    }

    fn vsub(&self, o: &Self) -> (r: Self) {
        let mut v: Vec<F> = Vec::new();
        let mut i: usize = 0;
        while i < D
            invariant
                self.wf(),
                o.wf(),
                i <= D,
                v@.len() == i,
                forall|j: int|
                    0 <= j < i ==> #[trigger] v@[j] == self.elem(j).add_spec(
                        o.elem(j).neg_spec(),
                    ),
            decreases D - i,
        {
            let x: F = self.v[i];
            let y: F = o.v[i];
            v.push(x.sub(y));
            i = i + 1;
        }
        Vector { v }
    }

    fn vscale(&self, k: F) -> (r: Self) {
        let mut v: Vec<F> = Vec::new();
        let mut i: usize = 0;
        while i < D
            invariant
                self.wf(),
                i <= D,
                v@.len() == i,
                forall|j: int| 0 <= j < i ==> #[trigger] v@[j] == self.elem(j).mul_spec(k),
            decreases D - i,
        {
            let x: F = self.v[i];
            v.push(x.mul(k));
            i = i + 1;
        }
        Vector { v }
    }

    fn dup(&self) -> (r: Self) {
        let mut v: Vec<F> = Vec::new();
        let mut i: usize = 0;
        while i < D
            invariant
                self.wf(),
                i <= D,
                v@.len() == i,
                forall|j: int| 0 <= j < i ==> #[trigger] v@[j] == self.elem(j),
            decreases D - i,
        {
            let x: F = self.v[i];
            v.push(x);
            i = i + 1;
        }
        Vector { v }
    }
}

impl<const D: usize, F: NumericField> PartialEq for Vector<D, F> {
    /// Structural equality: same coordinates in the same order.
    fn eq(&self, other: &Self) -> (r: bool) {
        if self.v.len() != other.v.len() {
            return false;
        }
        let mut i: usize = 0;
        while i < self.v.len()
            invariant
                self.v@.len() == other.v@.len(),
                i <= self.v@.len(),
                forall|j: int| 0 <= j < i ==> self.v@[j] == other.v@[j],
            decreases self.v@.len() - i,
        {
            let x: F = self.v[i];
            let y: F = other.v[i];
            if !x.eq_val(y) {
                return false;
            }
            i = i + 1;
        }
        proof {
            assert(self.v@ =~= other.v@);
        }
        true
    }
}

impl<const D: usize, F: NumericField> vstd::std_specs::cmp::PartialEqSpecImpl for Vector<D, F> {
    open spec fn obeys_eq_spec() -> bool {
        true
    }

    open spec fn eq_spec(&self, other: &Self) -> bool {
        self.v@ == other.v@
    }
}

/// Well-formed vectors with the same coordinates are equal as coordinate
/// sequences.
pub proof fn lemma_equiv_same_view<const D: usize, F: NumericField>(
    a: Vector<D, F>,
    b: Vector<D, F>,
)
    requires
        equiv(a, b),
    ensures
        a@ == b@,
{
    assert forall|i: int| 0 <= i < D implies a@[i] == b@[i] by {
        assert(a.elem(i) == b.elem(i));
    }
    assert(a@ =~= b@);
}

} // verus!
