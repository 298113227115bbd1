//! Descriptive statistics over sample slices: sum, mean, variance with a
//! selectable bias, dot product and covariance.  Each reduction is a left
//! fold over the samples, and its spec restates exactly that fold over
//! the slice's sequence view.

use vstd::prelude::*;

verus! {

use crate::algebra::{AddIdentity, MulIdentity, NumericField, NumericGroup, NumericRing, NumericSemiGroup};
use crate::samples::AsSlice;

/// The left fold of addition over `s`, started at the additive identity.
pub open spec fn sum_spec<T: NumericSemiGroup>(s: Seq<T>) -> T
    decreases s.len(),
{
    if s.len() == 0 {
        T::zero_spec()
    } else {
        sum_spec(s.drop_last()).add_spec(s.last())
    }
}

/// What `sum` returns: the fold, or `None` on an empty slice.
pub open spec fn sum_opt_spec<T: NumericSemiGroup>(s: Seq<T>) -> Option<T> {
    if s.len() == 0 {
        None
    } else {
        Some(sum_spec(s))
    }
}

/// The sum of the samples, or `None` if there are none.
pub fn sum<T: NumericSemiGroup>(xs: &[T]) -> (r: Option<T>)
    ensures
        r == sum_opt_spec::<T>(xs@),
{
    if xs.is_empty() {
        return None;
    }
    let mut acc = T::zero();
    let mut i: usize = 0;
    while i < xs.len()
        invariant
            i <= xs@.len(),
            acc == sum_spec(xs@.take(i as int)),
        decreases xs@.len() - i,
    {
        proof {
            assert(xs@.take(i + 1).drop_last() =~= xs@.take(i as int));
        }
        acc = acc.add(xs[i]);
        i = i + 1;
    }
    proof {
        assert(xs@.take(xs@.len() as int) =~= xs@);
    }
    Some(acc)
}

/// The arithmetic mean of `s`: the sum divided by the embedded count.
pub open spec fn mean_spec<T: NumericField>(s: Seq<T>) -> T {
    sum_spec(s).div_spec(T::from_usize_spec(s.len() as usize))
}

/// What `mean` returns: the mean, or `None` on an empty slice.
pub open spec fn mean_opt_spec<T: NumericField>(s: Seq<T>) -> Option<T> {
    if s.len() == 0 {
        None
    } else {
        Some(mean_spec(s))
    }
}

/// The arithmetic mean of the samples, an estimate of the central
/// tendency; `None` if there are none.
pub fn mean<T: NumericField>(xs: &[T]) -> (r: Option<T>)
    ensures
        r == mean_opt_spec::<T>(xs@),
{
    let s = match sum(xs) {
        Some(s) => s,
        None => {
            return None;
        },
    };
    Some(s.div(T::from_usize(xs.len())))
}

/// The squared deviation of the sample `x` from the mean `m`, written as
/// the fold computes it: `(-x + m) * (-x + m)`.
pub open spec fn sq_dev_spec<T: NumericField>(x: T, m: T) -> T {
    x.neg_spec().add_spec(m).mul_spec(x.neg_spec().add_spec(m))
}

/// The left fold of the squared deviations of `s` from `m`.
pub open spec fn mse_spec<T: NumericField>(s: Seq<T>, m: T) -> T
    decreases s.len(),
{
    if s.len() == 0 {
        T::zero_spec()
    } else {
        mse_spec(s.drop_last(), m).add_spec(sq_dev_spec(s.last(), m))
    }
}

/// Which estimator `variance` computes.
#[derive(Clone, Copy, Debug, PartialEq, Eq)]
pub enum VarianceBias {
    /// Biased estimator of the population variance.
    Population,
    /// Unbiased estimator for the sample variance.
    Sample,
}

impl Default for VarianceBias {
    /// The sample estimator is the default.
    fn default() -> (r: Self)
        ensures
            r == VarianceBias::Sample,
    {
        VarianceBias::Sample
    }
}

impl VarianceBias {
    /// The divisor this estimator puts under the summed squared
    /// deviations of `n` samples.
    pub open spec fn scale_spec(self, n: nat) -> nat
        recommends
            n >= 1,
    {
        match self {
            VarianceBias::Population => n,
            VarianceBias::Sample => (n - 1) as nat,
        }
    }

    /// Computes the estimator's divisor for `n` samples.
    pub fn scale(&self, n: usize) -> (r: usize)
        requires
            n >= 1,
        ensures
            r == self.scale_spec(n as nat),
    {
        match self {
            VarianceBias::Population => n,
            VarianceBias::Sample => n - 1,
        }
    }
}

/// The requested estimator, with the sample estimator standing in when
/// none is named.
pub open spec fn bias_of(ty: Option<VarianceBias>) -> VarianceBias {
    match ty {
        Some(b) => b,
        None => VarianceBias::Sample,
    }
}

/// What `variance` returns: the summed squared deviations from the mean,
/// divided by the estimator's scale; `None` on an empty slice.
pub open spec fn variance_spec<T: NumericField>(s: Seq<T>, b: VarianceBias) -> Option<T> {
    if s.len() == 0 {
        None
    } else {
        Some(mse_spec(s, mean_spec(s)).div_spec(T::from_usize_spec(b.scale_spec(s.len()) as usize)))
    }
}

/// The variance of the samples under the chosen estimator (the sample
/// estimator if `ty` is `None`); `None` if there are no samples.
pub fn variance<T: NumericField>(xs: &[T], ty: Option<VarianceBias>) -> (r: Option<T>)
    ensures
        r == variance_spec::<T>(xs@, bias_of(ty)),
{
    let bias = match ty {
        Some(b) => b,
        None => VarianceBias::default(),
    };
    let m = match mean(xs) {
        Some(m) => m,
        None => {
            return None;
        },
    };
    let mut acc = T::zero();
    let mut i: usize = 0;
    while i < xs.len()
        invariant
            i <= xs@.len(),
            acc == mse_spec(xs@.take(i as int), m),
        decreases xs@.len() - i,
    {
        proof {
            assert(xs@.take(i + 1).drop_last() =~= xs@.take(i as int));
        }
        let e = xs[i].neg().add(m);
        acc = acc.add(e.mul(e));
        i = i + 1;
    }
    proof {
        assert(xs@.take(xs@.len() as int) =~= xs@);
    }
    let sc = bias.scale(xs.len());
    Some(acc.div(T::from_usize(sc)))
}

/// The left fold of the pairwise products of `a` and `b`.
pub open spec fn dot_spec<T: NumericField>(a: Seq<T>, b: Seq<T>) -> T
    recommends
        a.len() == b.len(),
    decreases a.len(),
{
    if a.len() == 0 {
        T::zero_spec()
    } else {
        dot_spec(a.drop_last(), b.drop_last()).add_spec(a.last().mul_spec(b.last()))
    }
}

/// What `dot` returns: the pairwise-product fold, or `None` when the
/// slices are empty or of different lengths.
pub open spec fn dot_opt_spec<T: NumericField>(a: Seq<T>, b: Seq<T>) -> Option<T> {
    if a.len() == 0 || a.len() != b.len() {
        None
    } else {
        Some(dot_spec(a, b))
    }
}

/// The dot product of the two sample slices; `None` when they are empty
/// or their lengths differ.
pub fn dot<T: NumericField>(xs: &[T], ys: &[T]) -> (r: Option<T>)
    ensures
        r == dot_opt_spec::<T>(xs@, ys@),
{
    if xs.is_empty() || xs.len() != ys.len() {
        return None;
    }
    let mut acc = T::zero();
    let mut i: usize = 0;
    while i < xs.len()
        invariant
            i <= xs@.len(),
            xs@.len() == ys@.len(),
            acc == dot_spec(xs@.take(i as int), ys@.take(i as int)),
        decreases xs@.len() - i,
    {
        proof {
            assert(xs@.take(i + 1).drop_last() =~= xs@.take(i as int));
            assert(ys@.take(i + 1).drop_last() =~= ys@.take(i as int));
        }
        acc = acc.add(xs[i].mul(ys[i]));
        i = i + 1;
    }
    proof {
        assert(xs@.take(xs@.len() as int) =~= xs@);
        assert(ys@.take(ys@.len() as int) =~= ys@);
    }
    Some(acc)
}

/// `s` with every sample replaced by its deviation from `m`.
pub open spec fn dev_seq_spec<T: NumericField>(s: Seq<T>, m: T) -> Seq<T> {
    s.map_values(|x: T| x.add_spec(m.neg_spec()))
}

/// What `covariance` returns: the dot product of the two deviation
/// sequences, divided by the count less one; `None` when the lengths
/// differ or there are fewer than two samples.
pub open spec fn covariance_opt_spec<T: NumericField>(a: Seq<T>, b: Seq<T>) -> Option<T> {
    if a.len() != b.len() || a.len() <= 1 {
        None
    } else {
        Some(
            dot_spec(dev_seq_spec(a, mean_spec(a)), dev_seq_spec(b, mean_spec(b))).div_spec(
                T::from_usize_spec(a.len() as usize).add_spec(T::one_spec().neg_spec()),
            ),
        )
    }
}

/// The sample covariance of the two sample slices; `None` when their
/// lengths differ or there are fewer than two samples.
pub fn covariance<T: NumericField>(xs: &[T], ys: &[T]) -> (r: Option<T>)
    ensures
        r == covariance_opt_spec::<T>(xs@, ys@),
{
    if xs.len() != ys.len() || xs.len() <= 1 {
        return None;
    }
    let x_mean = match mean(xs) {
        Some(m) => m,
        None => {
            return None;
        },
    };
    let y_mean = match mean(ys) {
        Some(m) => m,
        None => {
            return None;
        },
    };
    let mut x_err: Vec<T> = Vec::new();
    let mut i: usize = 0;
    while i < xs.len()
        invariant
            i <= xs@.len(),
            x_err@.len() == i,
            forall|j: int| 0 <= j < i ==> #[trigger] x_err@[j] == xs@[j].add_spec(
                x_mean.neg_spec(),
            ),
        decreases xs@.len() - i,
    {
        x_err.push(xs[i].sub(x_mean));
        i = i + 1;
    }
    let mut y_err: Vec<T> = Vec::new();
    let mut k: usize = 0;
    while k < ys.len()
        invariant
            k <= ys@.len(),
            y_err@.len() == k,
            forall|j: int| 0 <= j < k ==> #[trigger] y_err@[j] == ys@[j].add_spec(
                y_mean.neg_spec(),
            ),
        decreases ys@.len() - k,
    {
        y_err.push(ys[k].sub(y_mean));
        k = k + 1;
    }
    proof {
        assert(x_err@ =~= dev_seq_spec(xs@, x_mean));
        assert(y_err@ =~= dev_seq_spec(ys@, y_mean));
    }
    let d = match dot(x_err.as_slice(), y_err.as_slice()) {
        Some(d) => d,
        None => {
            return None;
        },
    };
    Some(d.div(T::from_usize(xs.len()).sub(T::one())))
}

/// Summing through any container of samples.
pub trait Sum<T: NumericSemiGroup>: AsSlice<T> {
    fn sum(&self) -> (r: Option<T>)
        ensures
            r == sum_opt_spec::<T>(self.samples_spec()),
    ;
}

impl<T: NumericSemiGroup, S: AsSlice<T>> Sum<T> for S {
    fn sum(&self) -> (r: Option<T>) {
        crate::array_stats::sum(self.as_slice())
    }
}

/// The mean of any container of samples.
pub trait Mean<T: NumericField>: AsSlice<T> {
    fn mean(&self) -> (r: Option<T>)
        ensures
            r == mean_opt_spec::<T>(self.samples_spec()),
    ;
}

impl<T: NumericField, S: AsSlice<T>> Mean<T> for S {
    fn mean(&self) -> (r: Option<T>) {
        crate::array_stats::mean(self.as_slice())
    }
}

/// The two variance estimators over any container of samples.
pub trait Variance<T: NumericField>: AsSlice<T> {
    fn sample_variance(&self) -> (r: Option<T>)
        ensures
            r == variance_spec::<T>(self.samples_spec(), VarianceBias::Sample),
    ;

    fn population_variance(&self) -> (r: Option<T>)
        ensures
            r == variance_spec::<T>(self.samples_spec(), VarianceBias::Population),
    ;
}

impl<T: NumericField, S: AsSlice<T>> Variance<T> for S {
    fn sample_variance(&self) -> (r: Option<T>) {
        variance(self.as_slice(), Some(VarianceBias::Sample))
    }

    fn population_variance(&self) -> (r: Option<T>) {
        variance(self.as_slice(), Some(VarianceBias::Population))
    }
}

/// The dot product against another container of samples.
pub trait Dot<S: AsSlice<T>, T: NumericField>: AsSlice<T> {
    fn dot(&self, ys: S) -> (r: Option<T>)
        ensures
            r == dot_opt_spec::<T>(self.samples_spec(), ys.samples_spec()),
    ;
}

impl<T: NumericField, S: AsSlice<T>> Dot<S, T> for S {
    fn dot(&self, ys: S) -> (r: Option<T>) {
        crate::array_stats::dot(self.as_slice(), ys.as_slice())
    }
}

/// The sample covariance against another container of samples.
pub trait Covariance<S: AsSlice<T>, T: NumericField>: AsSlice<T> {
    fn covariance(&self, ys: S) -> (r: Option<T>)
        ensures
            r == covariance_opt_spec::<T>(self.samples_spec(), ys.samples_spec()),
    ;
}

impl<T: NumericField, S: AsSlice<T>> Covariance<S, T> for S {
    fn covariance(&self, ys: S) -> (r: Option<T>) {
        crate::array_stats::covariance(self.as_slice(), ys.as_slice())
    }
}

} // verus!
