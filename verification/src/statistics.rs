//! A compact statistics interface: the same reductions as `array_stats`,
//! with a single variance entry point fixed to the population estimator.

use vstd::prelude::*;

verus! {

use crate::algebra::{NumericField, NumericSemiGroup};
use crate::array_stats::{
    covariance_opt_spec,
    dot_opt_spec,
    mean_opt_spec,
    sum_opt_spec,
    variance_spec,
    VarianceBias,
};
use crate::samples::AsSlice;

/// The sum of the samples, or `None` if there are none.
pub fn sum<T: NumericSemiGroup>(xs: &[T]) -> (r: Option<T>)
    ensures
        r == sum_opt_spec::<T>(xs@),
{
    crate::array_stats::sum(xs)
}

/// The arithmetic mean of the samples; `None` if there are none.
pub fn mean<T: NumericField>(xs: &[T]) -> (r: Option<T>)
    ensures
        r == mean_opt_spec::<T>(xs@),
{
    crate::array_stats::mean(xs)
}

/// The population variance of the samples: the mean squared deviation
/// from the mean; `None` if there are no samples.
pub fn variance<T: NumericField>(xs: &[T]) -> (r: Option<T>)
    ensures
        r == variance_spec::<T>(xs@, VarianceBias::Population),
{
    crate::array_stats::variance(xs, Some(VarianceBias::Population))
}

/// The dot product of the two sample slices; `None` when they are empty
/// or their lengths differ.
pub fn dot<T: NumericField>(xs: &[T], ys: &[T]) -> (r: Option<T>)
    ensures
        r == dot_opt_spec::<T>(xs@, ys@),
{
    crate::array_stats::dot(xs, ys)
}

/// The sample covariance of the two sample slices; `None` when their
/// lengths differ or there are fewer than two samples.
pub fn covariance<T: NumericField>(xs: &[T], ys: &[T]) -> (r: Option<T>)
    ensures
        r == covariance_opt_spec::<T>(xs@, ys@),
{
    crate::array_stats::covariance(xs, ys)
}

/// Summing through any container of samples.
pub trait Sum<T: NumericSemiGroup>: AsSlice<T> {
    fn sum(&self) -> (r: Option<T>)
        ensures
            r == sum_opt_spec::<T>(self.samples_spec()),
    ;
}

impl<T: NumericSemiGroup, S: AsSlice<T>> Sum<T> for S {
    fn sum(&self) -> (r: Option<T>) {
        crate::array_stats::sum(self.as_slice())
    }
}

/// The mean of any container of samples.
pub trait Mean<T: NumericField>: AsSlice<T> {
    fn mean(&self) -> (r: Option<T>)
        ensures
            r == mean_opt_spec::<T>(self.samples_spec()),
    ;
}

impl<T: NumericField, S: AsSlice<T>> Mean<T> for S {
    fn mean(&self) -> (r: Option<T>) {
        crate::array_stats::mean(self.as_slice())
    }
}

/// The population variance of any container of samples.
pub trait Variance<T: NumericField>: AsSlice<T> {
    fn variance(&self) -> (r: Option<T>)
        ensures
            r == variance_spec::<T>(self.samples_spec(), VarianceBias::Population),
    ;
}

impl<T: NumericField, S: AsSlice<T>> Variance<T> for S {
    fn variance(&self) -> (r: Option<T>) {
        crate::array_stats::variance(self.as_slice(), Some(VarianceBias::Population))
    }
}

/// The dot product against another container of samples.
pub trait Dot<S: AsSlice<T>, T: NumericField>: AsSlice<T> {
    fn dot(&self, ys: S) -> (r: Option<T>)
        ensures
            r == dot_opt_spec::<T>(self.samples_spec(), ys.samples_spec()),
    ;
}

impl<T: NumericField, S: AsSlice<T>> Dot<S, T> for S {
    fn dot(&self, ys: S) -> (r: Option<T>) {
        crate::array_stats::dot(self.as_slice(), ys.as_slice())
    }
}

/// The sample covariance against another container of samples.
pub trait Covariance<S: AsSlice<T>, T: NumericField>: AsSlice<T> {
    fn covariance(&self, ys: S) -> (r: Option<T>)
        ensures
            r == covariance_opt_spec::<T>(self.samples_spec(), ys.samples_spec()),
    ;
}

impl<T: NumericField, S: AsSlice<T>> Covariance<S, T> for S {
    fn covariance(&self, ys: S) -> (r: Option<T>) {
        crate::array_stats::covariance(self.as_slice(), ys.as_slice())
    }
}

} // verus!
