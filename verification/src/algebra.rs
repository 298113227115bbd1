//! The algebraic capability hierarchy: additive and multiplicative
//! identities, then semigroup, group, ring and field levels, layered by
//! trait bounds.
//!
//! Each level carries a spec-side model of its operations (`add_spec`,
//! `mul_spec`, ...) together with the laws that every registered scalar
//! type proves about that model.  Fixed-width integers satisfy the laws
//! with wrapping semantics: arithmetic past the type's range wraps
//! silently, mirroring how overflow propagates through a scalar
//! computation instead of aborting it.

use vstd::prelude::*;

verus! {

use vstd::arithmetic::div_mod::{
    lemma_add_mod_noop,
    lemma_mod_add_multiples_vanish,
    lemma_mod_division_less_than_divisor,
    lemma_mod_sub_multiples_vanish,
    lemma_mod_twice,
    lemma_mul_mod_noop_left,
    lemma_small_mod,
};

/// A type with a distinguished additive identity.
pub trait AddIdentity: Sized {
    /// The model of the additive identity.
    spec fn zero_spec() -> Self;

    fn zero() -> (r: Self)
        ensures
            r == Self::zero_spec(),
    ;
}

/// An additive semigroup with identity: a closed, associative addition
/// together with the identity of `AddIdentity`.  Comparison capabilities
/// (equality and order tests) ride along so that generic numeric code can
/// make decisions about scalar values.
pub trait NumericSemiGroup: AddIdentity + Copy {
    /// The model of addition.
    spec fn add_spec(self, o: Self) -> Self;

    /// The model of the strict order test.
    spec fn lt_spec(self, o: Self) -> bool;

    fn add(self, o: Self) -> (r: Self)
        ensures
            r == self.add_spec(o),
    ;

    /// Value equality test.
    fn eq_val(self, o: Self) -> (r: bool)
        ensures
            r == (self == o),
    ;

    /// Strict order test.
    fn lt(self, o: Self) -> (r: bool)
        ensures
            r == self.lt_spec(o),
    ;

    /// The additive identity really is an identity for `add_spec`.
    proof fn law_add_zero(a: Self)
        ensures
            a.add_spec(Self::zero_spec()) == a,
            Self::zero_spec().add_spec(a) == a,
    ;

    /// Addition is associative.
    proof fn law_add_assoc(a: Self, b: Self, c: Self)
        ensures
            a.add_spec(b).add_spec(c) == a.add_spec(b.add_spec(c)),
    ;

    /// Evaluates the associativity law on three concrete values.
    fn is_associative(a: Self, b: Self, c: Self) -> (r: bool)
        ensures
            r == (a.add_spec(b).add_spec(c) == a.add_spec(b.add_spec(c))),
    {
        let lhs = a.add(b).add(c);
        let rhs = a.add(b.add(c));
        lhs.eq_val(rhs)
    }
}

/// An additive group: a semigroup whose elements have additive inverses.
pub trait NumericGroup: NumericSemiGroup {
    /// The model of negation.
    spec fn neg_spec(self) -> Self;

    fn neg(self) -> (r: Self)
        ensures
            r == self.neg_spec(),
    ;

    /// Subtraction is addition of the negated argument.
    fn sub(self, o: Self) -> (r: Self)
        ensures
            r == self.add_spec(o.neg_spec()),
    {
        self.add(o.neg())
    }

    /// Every element cancels against its negation.
    proof fn law_add_neg(a: Self)
        ensures
            a.add_spec(a.neg_spec()) == Self::zero_spec(),
    ;
}

/// A type with a distinguished multiplicative identity.
pub trait MulIdentity: Sized {
    /// The model of the multiplicative identity.
    spec fn one_spec() -> Self;

    fn one() -> (r: Self)
        ensures
            r == Self::one_spec(),
    ;
}

/// A ring: an additive group with a multiplication that distributes over
/// addition, plus an embedding of the natural numbers used for counts and
/// solver weights.
pub trait NumericRing: NumericGroup + MulIdentity {
    /// The model of multiplication.
    spec fn mul_spec(self, o: Self) -> Self;

    /// The model of the count embedding.
    spec fn from_usize_spec(n: usize) -> Self;

    fn mul(self, o: Self) -> (r: Self)
        ensures
            r == self.mul_spec(o),
    ;

    /// Embeds a count into the ring.
    fn from_usize(n: usize) -> (r: Self)
        ensures
            r == Self::from_usize_spec(n),
    ;

    /// Multiplication distributes over addition on the right.
    proof fn law_mul_distributes(a: Self, b: Self, k: Self)
        ensures
            a.add_spec(b).mul_spec(k) == a.mul_spec(k).add_spec(b.mul_spec(k)),
    ;

    /// Evaluates the commutativity law on two concrete values.
    fn is_commutative(a: Self, b: Self) -> (r: bool)
        ensures
            r == (a.mul_spec(b) == b.mul_spec(a)),
    {
        a.mul(b).eq_val(b.mul(a))
    }

    /// Evaluates the multiplicative associativity law on three concrete
    /// values.
    fn is_mul_associative(a: Self, b: Self, c: Self) -> (r: bool)
        ensures
            r == (a.mul_spec(b).mul_spec(c) == a.mul_spec(b.mul_spec(c))),
    {
        let lhs = a.mul(b).mul(c);
        let rhs = a.mul(b.mul(c));
        lhs.eq_val(rhs)
    }

    /// Evaluates the left distributivity law on three concrete values.
    fn is_distributive(a: Self, b: Self, c: Self) -> (r: bool)
        ensures
            r == (a.mul_spec(b.add_spec(c)) == a.mul_spec(b).add_spec(a.mul_spec(c))),
    {
        let lhs = a.mul(b.add(c));
        let rhs = a.mul(b).add(a.mul(c));
        lhs.eq_val(rhs)
    }
}

/// A field: a ring with division.  Division is total as an executable
/// operation; what a division by the additive identity returns is fixed by
/// each type's model, and `inverse` is the fallible entry point that
/// reports such a request as `None` instead.
pub trait NumericField: NumericRing {
    /// The model of division.
    spec fn div_spec(self, o: Self) -> Self;

    fn div(self, o: Self) -> (r: Self)
        ensures
            r == self.div_spec(o),
    ;

    /// The multiplicative inverse, or `None` for the additive identity,
    /// which has no inverse.
    fn inverse(a: Self) -> (r: Option<Self>)
        ensures
            r == if a == Self::zero_spec() {
                None::<Self>
            } else {
                Some(Self::one_spec().div_spec(a))
            },
    {
        if a.eq_val(Self::zero()) {
            None
        } else {
            Some(Self::one().div(a))
        }
    }
}

/// Truncating integer division (round towards zero), the rounding mode of
/// the hardware division instruction.
pub open spec fn trunc_div(x: int, d: int) -> int
    recommends
        d != 0,
{
    if x == 0 {
        0
    } else if x > 0 && d > 0 {
        x / d
    } else if x < 0 && d < 0 {
        (x * -1) / (d * -1)
    } else if x < 0 {
        ((x * -1) / d) * -1
    } else {
        (x / (d * -1)) * -1
    }
}

/// A value congruent to `x` and lying in `[-h, h)` is determined by
/// `x % (2 * h)`.
proof fn lemma_mod_in_window(x: int, h: int)
    requires
        h > 0,
        -h <= x < h,
    ensures
        x % (2 * h) == if x >= 0 {
            x
        } else {
            x + 2 * h
        },
{
    if x >= 0 {
        lemma_small_mod(x as nat, (2 * h) as nat);
    } else {
        lemma_mod_add_multiples_vanish(x, 2 * h);
        lemma_small_mod((x + 2 * h) as nat, (2 * h) as nat);
    }
}

/// Two values of the window `[-h, h)` that are congruent modulo `2 * h`
/// are equal.
proof fn lemma_window_unique(x: int, y: int, h: int)
    requires
        h > 0,
        -h <= x < h,
        -h <= y < h,
        x % (2 * h) == y % (2 * h),
    ensures
        x == y,
{
    lemma_mod_in_window(x, h);
    lemma_mod_in_window(y, h);
}

/// Congruence is preserved by adding a common term.
proof fn lemma_cong_add(x: int, y: int, c: int, m: int)
    requires
        m > 0,
        x % m == y % m,
    ensures
        (x + c) % m == (y + c) % m,
{
    lemma_add_mod_noop(x, c, m);
    lemma_add_mod_noop(y, c, m);
}

/// Congruence is preserved by multiplying with a common factor.
proof fn lemma_cong_mul(x: int, y: int, k: int, m: int)
    requires
        m > 0,
        x % m == y % m,
    ensures
        (x * k) % m == (y * k) % m,
{
    lemma_mul_mod_noop_left(x, k, m);
    lemma_mul_mod_noop_left(y, k, m);
}

impl AddIdentity for i64 {
    open spec fn zero_spec() -> i64 {
        0i64
    }

    fn zero() -> (r: i64) {
        0
    }
}

/// `i64_specs::wrapping_add` is congruent to exact addition.
proof fn lemma_i64_wadd_cong(a: i64, b: i64)
    ensures
        (vstd::wrapping::i64_specs::wrapping_add(a, b) as int) % 0x1_0000_0000_0000_0000int
            == (a + b) % 0x1_0000_0000_0000_0000int,
{
    let m: int = 0x1_0000_0000_0000_0000;
    if a + b > i64::MAX {
        lemma_mod_sub_multiples_vanish(a + b, m);
    } else if a + b < i64::MIN {
        lemma_mod_add_multiples_vanish(a + b, m);
    }
}

/// `i64_specs::signed_crop` is congruent to its argument and lands in the
/// `i64` range.
proof fn lemma_i64_crop_facts(x: int)
    ensures
        (vstd::wrapping::i64_specs::signed_crop(x) as int) % 0x1_0000_0000_0000_0000int
            == x % 0x1_0000_0000_0000_0000int,
        i64::MIN <= vstd::wrapping::i64_specs::signed_crop(x) <= i64::MAX,
{
    let m: int = 0x1_0000_0000_0000_0000;
    lemma_mod_division_less_than_divisor(x, m);
    if x % m > i64::MAX {
        lemma_mod_sub_multiples_vanish(x % m, m);
        lemma_mod_twice(x, m);
    } else {
        lemma_mod_twice(x, m);
    }
}

impl NumericSemiGroup for i64 {
    open spec fn add_spec(self, o: i64) -> i64 {
        vstd::wrapping::i64_specs::wrapping_add(self, o)
    }

    open spec fn lt_spec(self, o: i64) -> bool {
        self < o
    }

    fn add(self, o: i64) -> (r: i64) {
        self.wrapping_add(o)
    }

    fn eq_val(self, o: i64) -> (r: bool) {
        self == o
    }

    fn lt(self, o: i64) -> (r: bool) {
        self < o
    }

    proof fn law_add_zero(a: i64) {
    }

    proof fn law_add_assoc(a: i64, b: i64, c: i64) {
        let m: int = 0x1_0000_0000_0000_0000;
        let h: int = 0x8000_0000_0000_0000;
        let ab = a.add_spec(b);
        let bc = b.add_spec(c);
        lemma_i64_wadd_cong(a, b);
        lemma_i64_wadd_cong(b, c);
        lemma_i64_wadd_cong(ab, c);
        lemma_i64_wadd_cong(a, bc);
        lemma_cong_add(ab as int, a + b, c as int, m);
        lemma_cong_add(bc as int, b + c, a as int, m);
        assert((a + bc) % m == (bc + a) % m);
        lemma_window_unique(ab.add_spec(c) as int, a.add_spec(bc) as int, h);
    }
}

impl NumericGroup for i64 {
    open spec fn neg_spec(self) -> i64 {
        vstd::wrapping::i64_specs::wrapping_sub(0, self)
    }

    fn neg(self) -> (r: i64) {
        0i64.wrapping_sub(self)
    }

    proof fn law_add_neg(a: i64) {
    }
}

impl MulIdentity for i64 {
    open spec fn one_spec() -> i64 {
        1i64
    }

    fn one() -> (r: i64) {
        1
    }
}

impl NumericRing for i64 {
    open spec fn mul_spec(self, o: i64) -> i64 {
        vstd::wrapping::i64_specs::wrapping_mul(self, o)
    }

    open spec fn from_usize_spec(n: usize) -> i64 {
        vstd::wrapping::i64_specs::signed_crop(n as int)
    }

    fn mul(self, o: i64) -> (r: i64) {
        self.wrapping_mul(o)
    }

    fn from_usize(n: usize) -> (r: i64) {
        let u: u64 = n as u64;
        if u <= i64::MAX as u64 {
            let r = u as i64;
            proof {
                lemma_small_mod(n as nat, 0x1_0000_0000_0000_0000nat);
            }
            r
        } else {
            let d: u64 = u - 0x8000_0000_0000_0000u64;
            let r = i64::MIN + (d as i64);
            proof {
                lemma_mod_sub_multiples_vanish(u as int, 0x1_0000_0000_0000_0000);
                lemma_small_mod((u - 0x1_0000_0000_0000_0000 + 0x1_0000_0000_0000_0000) as nat,
                    0x1_0000_0000_0000_0000nat);
                lemma_mod_add_multiples_vanish(u - 0x1_0000_0000_0000_0000, 0x1_0000_0000_0000_0000);
            }
            r
        }
    }

    proof fn law_mul_distributes(a: i64, b: i64, k: i64) {
        let m: int = 0x1_0000_0000_0000_0000;
        let h: int = 0x8000_0000_0000_0000;
        let ab = a.add_spec(b);
        let ak = a.mul_spec(k);
        let bk = b.mul_spec(k);
        lemma_i64_wadd_cong(a, b);
        lemma_cong_mul(ab as int, a + b, k as int, m);
        assert((a + b) * k == a * k + b * k) by (nonlinear_arith);
        lemma_i64_crop_facts(ab * k);
        lemma_i64_crop_facts(a * k);
        lemma_i64_crop_facts(b * k);
        lemma_i64_wadd_cong(ak, bk);
        lemma_cong_add(ak as int, a * k, bk as int, m);
        lemma_cong_add(b * k, bk as int, a * k, m);
        assert((b * k + a * k) % m == (bk + a * k) % m);
        assert((bk + a * k) % m == (a * k + bk) % m);
        lemma_window_unique(ab.mul_spec(k) as int, ak.add_spec(bk) as int, h);
    }
}

/// The magnitude of a truncating quotient never exceeds the magnitude of
/// the dividend.
proof fn lemma_trunc_div_magnitude(x: int, d: int)
    requires
        d != 0,
    ensures
        x >= 0 ==> -x <= trunc_div(x, d) <= x,
        x < 0 ==> x <= trunc_div(x, d) <= -x,
{
    if x > 0 && d > 0 {
        vstd::arithmetic::div_mod::lemma_div_nonincreasing(x, d);
        vstd::arithmetic::div_mod::lemma_div_pos_is_pos(x, d);
    } else if x < 0 && d < 0 {
        vstd::arithmetic::div_mod::lemma_div_nonincreasing(x * -1, d * -1);
        vstd::arithmetic::div_mod::lemma_div_pos_is_pos(x * -1, d * -1);
    } else if x < 0 {
        vstd::arithmetic::div_mod::lemma_div_nonincreasing(x * -1, d);
        vstd::arithmetic::div_mod::lemma_div_pos_is_pos(x * -1, d);
    } else if x > 0 {
        vstd::arithmetic::div_mod::lemma_div_nonincreasing(x, d * -1);
        vstd::arithmetic::div_mod::lemma_div_pos_is_pos(x, d * -1);
    }
}

/// A truncating quotient of operands from the window `[-h, h)` stays in
/// that window whenever the divisor is nonzero and the operands are not
/// the one overflowing pair (the smallest value divided by minus one).
proof fn lemma_trunc_div_in_range(x: int, d: int, h: int)
    requires
        h >= 1,
        -h <= x < h,
        -h <= d < h,
        d != 0,
        !(x == -h && d == -1),
    ensures
        -h <= trunc_div(x, d) < h,
{
    lemma_trunc_div_magnitude(x, d);
    if x == -h && d < -1 {
        vstd::arithmetic::div_mod::lemma_div_is_strictly_smaller(x * -1, d * -1);
    }
}

impl NumericField for i64 {
    open spec fn div_spec(self, o: i64) -> i64 {
        if o == 0 {
            0i64
        } else if self == i64::MIN && o == -1 {
            i64::MIN
        } else {
            trunc_div(self as int, o as int) as i64
        }
    }

    fn div(self, o: i64) -> (r: i64) {
        if o == 0 {
            0
        } else if self == i64::MIN && o == -1 {
            i64::MIN
        } else {
            proof {
                lemma_trunc_div_in_range(self as int, o as int, 0x8000_0000_0000_0000);
            }
            match self.checked_div(o) {
                Some(q) => q,
                None => 0,
            }
        }
    }
}


impl AddIdentity for i8 {
    open spec fn zero_spec() -> i8 {
        0i8
    }

    fn zero() -> (r: i8) {
        0
    }
}

/// `i8_specs::wrapping_add` is congruent to exact addition.
proof fn lemma_i8_wadd_cong(a: i8, b: i8)
    ensures
        (vstd::wrapping::i8_specs::wrapping_add(a, b) as int) % 0x100int == (a + b) % 0x100int,
{
    let m: int = 0x100;
    if a + b > i8::MAX {
        lemma_mod_sub_multiples_vanish(a + b, m);
    } else if a + b < i8::MIN {
        lemma_mod_add_multiples_vanish(a + b, m);
    }
}

/// `i8_specs::signed_crop` is congruent to its argument and lands in the
/// `i8` range.
proof fn lemma_i8_crop_facts(x: int)
    ensures
        (vstd::wrapping::i8_specs::signed_crop(x) as int) % 0x100int == x % 0x100int,
        i8::MIN <= vstd::wrapping::i8_specs::signed_crop(x) <= i8::MAX,
{
    let m: int = 0x100;
    lemma_mod_division_less_than_divisor(x, m);
    if x % m > i8::MAX {
        lemma_mod_sub_multiples_vanish(x % m, m);
        lemma_mod_twice(x, m);
    } else {
        lemma_mod_twice(x, m);
    }
}

impl NumericSemiGroup for i8 {
    open spec fn add_spec(self, o: i8) -> i8 {
        vstd::wrapping::i8_specs::wrapping_add(self, o)
    }

    open spec fn lt_spec(self, o: i8) -> bool {
        self < o
    }

    fn add(self, o: i8) -> (r: i8) {
        self.wrapping_add(o)
    }

    fn eq_val(self, o: i8) -> (r: bool) {
        self == o
    }

    fn lt(self, o: i8) -> (r: bool) {
        self < o
    }

    proof fn law_add_zero(a: i8) {
    }

    proof fn law_add_assoc(a: i8, b: i8, c: i8) {
        let m: int = 0x100;
        let h: int = 0x80;
        let ab = a.add_spec(b);
        let bc = b.add_spec(c);
        lemma_i8_wadd_cong(a, b);
        lemma_i8_wadd_cong(b, c);
        lemma_i8_wadd_cong(ab, c);
        lemma_i8_wadd_cong(a, bc);
        lemma_cong_add(ab as int, a + b, c as int, m);
        lemma_cong_add(bc as int, b + c, a as int, m);
        assert((a + bc) % m == (bc + a) % m);
        lemma_window_unique(ab.add_spec(c) as int, a.add_spec(bc) as int, h);
    }
}

impl NumericGroup for i8 {
    open spec fn neg_spec(self) -> i8 {
        vstd::wrapping::i8_specs::wrapping_sub(0, self)
    }

    fn neg(self) -> (r: i8) {
        0i8.wrapping_sub(self)
    }

    proof fn law_add_neg(a: i8) {
    }
}

impl MulIdentity for i8 {
    open spec fn one_spec() -> i8 {
        1i8
    }

    fn one() -> (r: i8) {
        1
    }
}

impl NumericRing for i8 {
    open spec fn mul_spec(self, o: i8) -> i8 {
        vstd::wrapping::i8_specs::wrapping_mul(self, o)
    }

    open spec fn from_usize_spec(n: usize) -> i8 {
        vstd::wrapping::i8_specs::signed_crop(n as int)
    }

    fn mul(self, o: i8) -> (r: i8) {
        self.wrapping_mul(o)
    }

    fn from_usize(n: usize) -> (r: i8) {
        let rem: u64 = (n as u64) % 0x100u64;
        if rem < 0x80u64 {
            rem as i8
        } else {
            ((rem as i64) - 0x100i64) as i8
        }
    }

    proof fn law_mul_distributes(a: i8, b: i8, k: i8) {
        let m: int = 0x100;
        let h: int = 0x80;
        let ab = a.add_spec(b);
        let ak = a.mul_spec(k);
        let bk = b.mul_spec(k);
        lemma_i8_wadd_cong(a, b);
        lemma_cong_mul(ab as int, a + b, k as int, m);
        assert((a + b) * k == a * k + b * k) by (nonlinear_arith);
        lemma_i8_crop_facts(ab * k);
        lemma_i8_crop_facts(a * k);
        lemma_i8_crop_facts(b * k);
        lemma_i8_wadd_cong(ak, bk);
        lemma_cong_add(ak as int, a * k, bk as int, m);
        lemma_cong_add(b * k, bk as int, a * k, m);
        assert((b * k + a * k) % m == (bk + a * k) % m);
        assert((bk + a * k) % m == (a * k + bk) % m);
        lemma_window_unique(ab.mul_spec(k) as int, ak.add_spec(bk) as int, h);
    }
}

impl NumericField for i8 {
    open spec fn div_spec(self, o: i8) -> i8 {
        if o == 0 {
            0i8
        } else if self == i8::MIN && o == -1 {
            i8::MIN
        } else {
            trunc_div(self as int, o as int) as i8
        }
    }

    fn div(self, o: i8) -> (r: i8) {
        if o == 0 {
            0
        } else if self == i8::MIN && o == -1 {
            i8::MIN
        } else {
            proof {
                lemma_trunc_div_in_range(self as int, o as int, 0x80);
            }
            match self.checked_div(o) {
                Some(q) => q,
                None => 0,
            }
        }
    }
}

impl AddIdentity for i16 {
    open spec fn zero_spec() -> i16 {
        0i16
    }

    fn zero() -> (r: i16) {
        0
    }
}

/// `i16_specs::wrapping_add` is congruent to exact addition.
proof fn lemma_i16_wadd_cong(a: i16, b: i16)
    ensures
        (vstd::wrapping::i16_specs::wrapping_add(a, b) as int) % 0x1_0000int == (a + b) % 0x1_0000int,
{
    let m: int = 0x1_0000;
    if a + b > i16::MAX {
        lemma_mod_sub_multiples_vanish(a + b, m);
    } else if a + b < i16::MIN {
        lemma_mod_add_multiples_vanish(a + b, m);
    }
}

/// `i16_specs::signed_crop` is congruent to its argument and lands in the
/// `i16` range.
proof fn lemma_i16_crop_facts(x: int)
    ensures
        (vstd::wrapping::i16_specs::signed_crop(x) as int) % 0x1_0000int == x % 0x1_0000int,
        i16::MIN <= vstd::wrapping::i16_specs::signed_crop(x) <= i16::MAX,
{
    let m: int = 0x1_0000;
    lemma_mod_division_less_than_divisor(x, m);
    if x % m > i16::MAX {
        lemma_mod_sub_multiples_vanish(x % m, m);
        lemma_mod_twice(x, m);
    } else {
        lemma_mod_twice(x, m);
    }
}

impl NumericSemiGroup for i16 {
    open spec fn add_spec(self, o: i16) -> i16 {
        vstd::wrapping::i16_specs::wrapping_add(self, o)
    }

    open spec fn lt_spec(self, o: i16) -> bool {
        self < o
    }

    fn add(self, o: i16) -> (r: i16) {
        self.wrapping_add(o)
    }

    fn eq_val(self, o: i16) -> (r: bool) {
        self == o
    }

    fn lt(self, o: i16) -> (r: bool) {
        self < o
    }

    proof fn law_add_zero(a: i16) {
    }

    proof fn law_add_assoc(a: i16, b: i16, c: i16) {
        let m: int = 0x1_0000;
        let h: int = 0x8000;
        let ab = a.add_spec(b);
        let bc = b.add_spec(c);
        lemma_i16_wadd_cong(a, b);
        lemma_i16_wadd_cong(b, c);
        lemma_i16_wadd_cong(ab, c);
        lemma_i16_wadd_cong(a, bc);
        lemma_cong_add(ab as int, a + b, c as int, m);
        lemma_cong_add(bc as int, b + c, a as int, m);
        assert((a + bc) % m == (bc + a) % m);
        lemma_window_unique(ab.add_spec(c) as int, a.add_spec(bc) as int, h);
    }
}

impl NumericGroup for i16 {
    open spec fn neg_spec(self) -> i16 {
        vstd::wrapping::i16_specs::wrapping_sub(0, self)
    }

    fn neg(self) -> (r: i16) {
        0i16.wrapping_sub(self)
    }

    proof fn law_add_neg(a: i16) {
    }
}

impl MulIdentity for i16 {
    open spec fn one_spec() -> i16 {
        1i16
    }

    fn one() -> (r: i16) {
        1
    }
}

impl NumericRing for i16 {
    open spec fn mul_spec(self, o: i16) -> i16 {
        vstd::wrapping::i16_specs::wrapping_mul(self, o)
    }

    open spec fn from_usize_spec(n: usize) -> i16 {
        vstd::wrapping::i16_specs::signed_crop(n as int)
    }

    fn mul(self, o: i16) -> (r: i16) {
        self.wrapping_mul(o)
    }

    fn from_usize(n: usize) -> (r: i16) {
        let rem: u64 = (n as u64) % 0x1_0000u64;
        if rem < 0x8000u64 {
            rem as i16
        } else {
            ((rem as i64) - 0x1_0000i64) as i16
        }
    }

    proof fn law_mul_distributes(a: i16, b: i16, k: i16) {
        let m: int = 0x1_0000;
        let h: int = 0x8000;
        let ab = a.add_spec(b);
        let ak = a.mul_spec(k);
        let bk = b.mul_spec(k);
        lemma_i16_wadd_cong(a, b);
        lemma_cong_mul(ab as int, a + b, k as int, m);
        assert((a + b) * k == a * k + b * k) by (nonlinear_arith);
        lemma_i16_crop_facts(ab * k);
        lemma_i16_crop_facts(a * k);
        lemma_i16_crop_facts(b * k);
        lemma_i16_wadd_cong(ak, bk);
        lemma_cong_add(ak as int, a * k, bk as int, m);
        lemma_cong_add(b * k, bk as int, a * k, m);
        assert((b * k + a * k) % m == (bk + a * k) % m);
        assert((bk + a * k) % m == (a * k + bk) % m);
        lemma_window_unique(ab.mul_spec(k) as int, ak.add_spec(bk) as int, h);
    }
}

impl NumericField for i16 {
    open spec fn div_spec(self, o: i16) -> i16 {
        if o == 0 {
            0i16
        } else if self == i16::MIN && o == -1 {
            i16::MIN
        } else {
            trunc_div(self as int, o as int) as i16
        }
    }

    fn div(self, o: i16) -> (r: i16) {
        if o == 0 {
            0
        } else if self == i16::MIN && o == -1 {
            i16::MIN
        } else {
            proof {
                lemma_trunc_div_in_range(self as int, o as int, 0x8000);
            }
            match self.checked_div(o) {
                Some(q) => q,
                None => 0,
            }
        }
    }
}

impl AddIdentity for i32 {
    open spec fn zero_spec() -> i32 {
        0i32
    }

    fn zero() -> (r: i32) {
        0
    }
}

/// `i32_specs::wrapping_add` is congruent to exact addition.
proof fn lemma_i32_wadd_cong(a: i32, b: i32)
    ensures
        (vstd::wrapping::i32_specs::wrapping_add(a, b) as int) % 0x1_0000_0000int == (a + b) % 0x1_0000_0000int,
{
    let m: int = 0x1_0000_0000;
    if a + b > i32::MAX {
        lemma_mod_sub_multiples_vanish(a + b, m);
    } else if a + b < i32::MIN {
        lemma_mod_add_multiples_vanish(a + b, m);
    }
}

/// `i32_specs::signed_crop` is congruent to its argument and lands in the
/// `i32` range.
proof fn lemma_i32_crop_facts(x: int)
    ensures
        (vstd::wrapping::i32_specs::signed_crop(x) as int) % 0x1_0000_0000int == x % 0x1_0000_0000int,
        i32::MIN <= vstd::wrapping::i32_specs::signed_crop(x) <= i32::MAX,
{
    let m: int = 0x1_0000_0000;
    lemma_mod_division_less_than_divisor(x, m);
    if x % m > i32::MAX {
        lemma_mod_sub_multiples_vanish(x % m, m);
        lemma_mod_twice(x, m);
    } else {
        lemma_mod_twice(x, m);
    }
}

impl NumericSemiGroup for i32 {
    open spec fn add_spec(self, o: i32) -> i32 {
        vstd::wrapping::i32_specs::wrapping_add(self, o)
    }

    open spec fn lt_spec(self, o: i32) -> bool {
        self < o
    }

    fn add(self, o: i32) -> (r: i32) {
        self.wrapping_add(o)
    }

    fn eq_val(self, o: i32) -> (r: bool) {
        self == o
    }

    fn lt(self, o: i32) -> (r: bool) {
        self < o
    }

    proof fn law_add_zero(a: i32) {
    }

    proof fn law_add_assoc(a: i32, b: i32, c: i32) {
        let m: int = 0x1_0000_0000;
        let h: int = 0x8000_0000;
        let ab = a.add_spec(b);
        let bc = b.add_spec(c);
        lemma_i32_wadd_cong(a, b);
        lemma_i32_wadd_cong(b, c);
        lemma_i32_wadd_cong(ab, c);
        lemma_i32_wadd_cong(a, bc);
        lemma_cong_add(ab as int, a + b, c as int, m);
        lemma_cong_add(bc as int, b + c, a as int, m);
        assert((a + bc) % m == (bc + a) % m);
        lemma_window_unique(ab.add_spec(c) as int, a.add_spec(bc) as int, h);
    }
}

impl NumericGroup for i32 {
    open spec fn neg_spec(self) -> i32 {
        vstd::wrapping::i32_specs::wrapping_sub(0, self)
    }

    fn neg(self) -> (r: i32) {
        0i32.wrapping_sub(self)
    }

    proof fn law_add_neg(a: i32) {
    }
}

impl MulIdentity for i32 {
    open spec fn one_spec() -> i32 {
        1i32
    }

    fn one() -> (r: i32) {
        1
    }
}

impl NumericRing for i32 {
    open spec fn mul_spec(self, o: i32) -> i32 {
        vstd::wrapping::i32_specs::wrapping_mul(self, o)
    }

    open spec fn from_usize_spec(n: usize) -> i32 {
        vstd::wrapping::i32_specs::signed_crop(n as int)
    }

    fn mul(self, o: i32) -> (r: i32) {
        self.wrapping_mul(o)
    }

    fn from_usize(n: usize) -> (r: i32) {
        let rem: u64 = (n as u64) % 0x1_0000_0000u64;
        if rem < 0x8000_0000u64 {
            rem as i32
        } else {
            ((rem as i64) - 0x1_0000_0000i64) as i32
        }
    }

    proof fn law_mul_distributes(a: i32, b: i32, k: i32) {
        let m: int = 0x1_0000_0000;
        let h: int = 0x8000_0000;
        let ab = a.add_spec(b);
        let ak = a.mul_spec(k);
        let bk = b.mul_spec(k);
        lemma_i32_wadd_cong(a, b);
        lemma_cong_mul(ab as int, a + b, k as int, m);
        assert((a + b) * k == a * k + b * k) by (nonlinear_arith);
        lemma_i32_crop_facts(ab * k);
        lemma_i32_crop_facts(a * k);
        lemma_i32_crop_facts(b * k);
        lemma_i32_wadd_cong(ak, bk);
        lemma_cong_add(ak as int, a * k, bk as int, m);
        lemma_cong_add(b * k, bk as int, a * k, m);
        assert((b * k + a * k) % m == (bk + a * k) % m);
        assert((bk + a * k) % m == (a * k + bk) % m);
        lemma_window_unique(ab.mul_spec(k) as int, ak.add_spec(bk) as int, h);
    }
}

impl NumericField for i32 {
    open spec fn div_spec(self, o: i32) -> i32 {
        if o == 0 {
            0i32
        } else if self == i32::MIN && o == -1 {
            i32::MIN
        } else {
            trunc_div(self as int, o as int) as i32
        }
    }

    fn div(self, o: i32) -> (r: i32) {
        if o == 0 {
            0
        } else if self == i32::MIN && o == -1 {
            i32::MIN
        } else {
            proof {
                lemma_trunc_div_in_range(self as int, o as int, 0x8000_0000);
            }
            match self.checked_div(o) {
                Some(q) => q,
                None => 0,
            }
        }
    }
}

/// Two values of `[0, m)` that are congruent modulo `m` are equal.
proof fn lemma_uwindow_unique(x: int, y: int, m: int)
    requires
        m > 0,
        0 <= x < m,
        0 <= y < m,
        x % m == y % m,
    ensures
        x == y,
{
    lemma_small_mod(x as nat, m as nat);
    lemma_small_mod(y as nat, m as nat);
}

impl AddIdentity for usize {
    open spec fn zero_spec() -> usize {
        0usize
    }

    fn zero() -> (r: usize) {
        0
    }
}

/// `usize_specs::wrapping_add` is congruent to exact addition.
proof fn lemma_usize_wadd_cong(a: usize, b: usize)
    ensures
        (vstd::wrapping::usize_specs::wrapping_add(a, b) as int) % (usize::MAX as int + 1)
            == (a + b) % (usize::MAX as int + 1),
{
    let m: int = usize::MAX as int + 1;
    if a + b > usize::MAX {
        lemma_mod_sub_multiples_vanish(a + b, m);
    }
}

impl NumericSemiGroup for usize {
    open spec fn add_spec(self, o: usize) -> usize {
        vstd::wrapping::usize_specs::wrapping_add(self, o)
    }

    open spec fn lt_spec(self, o: usize) -> bool {
        self < o
    }

    fn add(self, o: usize) -> (r: usize) {
        self.wrapping_add(o)
    }

    fn eq_val(self, o: usize) -> (r: bool) {
        self == o
    }

    fn lt(self, o: usize) -> (r: bool) {
        self < o
    }

    proof fn law_add_zero(a: usize) {
    }

    proof fn law_add_assoc(a: usize, b: usize, c: usize) {
        let m: int = usize::MAX as int + 1;
        let ab = a.add_spec(b);
        let bc = b.add_spec(c);
        lemma_usize_wadd_cong(a, b);
        lemma_usize_wadd_cong(b, c);
        lemma_usize_wadd_cong(ab, c);
        lemma_usize_wadd_cong(a, bc);
        lemma_cong_add(ab as int, a + b, c as int, m);
        lemma_cong_add(bc as int, b + c, a as int, m);
        assert((a + bc) % m == (bc + a) % m);
        lemma_uwindow_unique(ab.add_spec(c) as int, a.add_spec(bc) as int, m);
    }
}

} // verus!
