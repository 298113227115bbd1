use nmbrs::algebra::{AddIdentity, MulIdentity, NumericField, NumericGroup, NumericRing, NumericSemiGroup};
use nmbrs::vector_space::{Vector, VectorSpace};

/// A real scalar backed by `f64`, registered for the full capability
/// hierarchy of the library.
#[derive(Clone, Copy, Debug, PartialEq)]
struct R64(f64);

impl AddIdentity for R64 {
    fn zero_spec() -> Self {
        R64(0.0)
    }

    fn zero() -> Self {
        R64(0.0)
    }
}

impl NumericSemiGroup for R64 {
    // The spec-side model mirrors the executable operation; the law
    // obligations are discharged by the verifier only for the library's
    // own registrations, never at run time.
    fn add_spec(self, o: Self) -> Self {
        R64(self.0 + o.0)
    }

    fn lt_spec(self, o: Self) -> bool {
        self.0 < o.0
    }

    fn law_add_zero(_a: Self) {}

    fn law_add_assoc(_a: Self, _b: Self, _c: Self) {}

    fn add(self, o: Self) -> Self {
        R64(self.0 + o.0)
    }

    fn eq_val(self, o: Self) -> bool {
        self.0 == o.0
    }

    fn lt(self, o: Self) -> bool {
        self.0 < o.0
    }
}

impl NumericGroup for R64 {
    fn neg_spec(self) -> Self {
        R64(-self.0)
    }

    fn law_add_neg(_a: Self) {}

    fn neg(self) -> Self {
        R64(-self.0)
    }
}

impl MulIdentity for R64 {
    fn one_spec() -> Self {
        R64(1.0)
    }

    fn one() -> Self {
        R64(1.0)
    }
}

impl NumericRing for R64 {
    fn mul_spec(self, o: Self) -> Self {
        R64(self.0 * o.0)
    }

    fn from_usize_spec(n: usize) -> Self {
        R64(n as f64)
    }

    fn law_mul_distributes(_a: Self, _b: Self, _k: Self) {}

    fn mul(self, o: Self) -> Self {
        R64(self.0 * o.0)
    }

    fn from_usize(n: usize) -> Self {
        R64(n as f64)
    }
}

impl NumericField for R64 {
    fn div_spec(self, o: Self) -> Self {
        R64(self.0 / o.0)
    }

    fn div(self, o: Self) -> Self {
        R64(self.0 / o.0)
    }
}

fn v2(a: f64, b: f64) -> Vector<2, R64> {
    Vector::new(vec![R64(a), R64(b)])
}

#[test]
fn add() {
    assert_eq!(v2(1.0, 1.0).vadd(&v2(2.0, 2.0)), v2(3.0, 3.0));

    assert_eq!(v2(2.0, 2.0).vadd(&v2(1.0, 1.0)), v2(3.0, 3.0));

    assert_eq!(
        v2(1.0, 1.0).vadd(&v2(2.0, 2.0)),
        Vector::<2, R64>::new(vec![R64(3.0), R64(3.0)])
    );

    assert_eq!(v2(1.0, 1.0).vadd(&v2(2.0, 2.0)), v2(3.0, 3.0));
}

#[test]
fn scalar() {
    assert_eq!(v2(2.0, 3.0).vscale(R64(2.0)), v2(4.0, 6.0));

    assert_eq!(
        v2(2.0, 3.0).vscale(R64(2.0)),
        Vector::<2, R64>::new(vec![R64(4.0), R64(6.0)])
    );

    assert_eq!(v2(2.0, 3.0).vscale(R64(2.0)), v2(4.0, 6.0));
}

#[test]
fn zero_is_additive_identity() {
    let v = v2(1.5, -2.5);
    let z = Vector::<2, R64>::vzero();
    assert_eq!(v.vadd(&z), v);
    assert_eq!(z.vadd(&v), v);

    let w: Vector<3, i64> = Vector::new(vec![4i64, -7, 0]);
    let zi = Vector::<3, i64>::vzero();
    assert_eq!(w.vadd(&zi), w);
}

#[test]
fn negation_cancels() {
    let v = v2(1.5, -2.5);
    assert_eq!(v.vadd(&v.vneg()), Vector::<2, R64>::vzero());

    let w: Vector<3, i64> = Vector::new(vec![4i64, -7, i64::MIN]);
    assert_eq!(w.vadd(&w.vneg()), Vector::<3, i64>::vzero());
}

#[test]
fn scaling_distributes_over_sum() {
    let a = v2(1.0, -2.0);
    let b = v2(0.5, 4.0);
    let k = R64(3.0);
    assert_eq!(a.vadd(&b).vscale(k), a.vscale(k).vadd(&b.vscale(k)));

    let ai: Vector<3, i64> = Vector::new(vec![3i64, -5, i64::MAX]);
    let bi: Vector<3, i64> = Vector::new(vec![10i64, 7, 2]);
    let ki = 9i64;
    assert_eq!(
        ai.vadd(&bi).vscale(ki),
        ai.vscale(ki).vadd(&bi.vscale(ki))
    );
}

#[test]
fn subtraction_is_add_of_negation() {
    let a = v2(5.0, 1.0);
    let b = v2(2.0, 8.0);
    assert_eq!(a.vsub(&b), a.vadd(&b.vneg()));
    assert_eq!(a.vsub(&a), Vector::<2, R64>::vzero());
}
