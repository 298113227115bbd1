use nmbrs::algebra::{AddIdentity, MulIdentity, NumericField, NumericGroup, NumericRing, NumericSemiGroup};
use nmbrs::array_stats::{Covariance, Dot, Mean, Sum, Variance, VarianceBias};

/// A real scalar backed by `f64`, registered for the full capability
/// hierarchy of the library.
#[derive(Clone, Copy, Debug, PartialEq)]
struct R64(f64);

impl AddIdentity for R64 {
    fn zero_spec() -> Self {
        R64(0.0)
    }

    fn zero() -> Self {
        R64(0.0)
    }
}

impl NumericSemiGroup for R64 {
    // The spec-side model mirrors the executable operation; the law
    // obligations are discharged by the verifier only for the library's
    // own registrations, never at run time.
    fn add_spec(self, o: Self) -> Self {
        R64(self.0 + o.0)
    }

    fn lt_spec(self, o: Self) -> bool {
        self.0 < o.0
    }

    fn law_add_zero(_a: Self) {}

    fn law_add_assoc(_a: Self, _b: Self, _c: Self) {}

    fn add(self, o: Self) -> Self {
        R64(self.0 + o.0)
    }

    fn eq_val(self, o: Self) -> bool {
        self.0 == o.0
    }

    fn lt(self, o: Self) -> bool {
        self.0 < o.0
    }
}

impl NumericGroup for R64 {
    fn neg_spec(self) -> Self {
        R64(-self.0)
    }

    fn law_add_neg(_a: Self) {}

    fn neg(self) -> Self {
        R64(-self.0)
    }
}

impl MulIdentity for R64 {
    fn one_spec() -> Self {
        R64(1.0)
    }

    fn one() -> Self {
        R64(1.0)
    }
}

impl NumericRing for R64 {
    fn mul_spec(self, o: Self) -> Self {
        R64(self.0 * o.0)
    }

    fn from_usize_spec(n: usize) -> Self {
        R64(n as f64)
    }

    fn law_mul_distributes(_a: Self, _b: Self, _k: Self) {}

    fn mul(self, o: Self) -> Self {
        R64(self.0 * o.0)
    }

    fn from_usize(n: usize) -> Self {
        R64(n as f64)
    }
}

impl NumericField for R64 {
    fn div_spec(self, o: Self) -> Self {
        R64(self.0 / o.0)
    }

    fn div(self, o: Self) -> Self {
        R64(self.0 / o.0)
    }
}

fn rv(xs: &[f64]) -> Vec<R64> {
    xs.iter().map(|x| R64(*x)).collect()
}

#[test]
fn array_stats_sum() {
    assert_eq!(nmbrs::array_stats::sum::<R64>(&Vec::with_capacity(0)), None);
    assert_eq!(nmbrs::array_stats::sum::<R64>(&[]), None);

    let xs = rv(&[1.0, 1.0, 2.0]);

    assert_eq!(nmbrs::array_stats::sum(&xs), xs.sum());
    assert_eq!(nmbrs::array_stats::sum(&xs), Some(R64(4.0)));

    let xs = rv(&[1.0, 2.0, 3.5]);
    assert_eq!(nmbrs::array_stats::sum(&xs), Some(R64(6.5)));
}

#[test]
fn array_stats_mean() {
    assert_eq!(nmbrs::array_stats::mean::<R64>(&Vec::with_capacity(0)), None);

    let xs = rv(&[1.0, 2.0, 3.0, 4.0, 5.0]);
    assert_eq!(nmbrs::array_stats::mean(&xs), xs.mean());
    assert_eq!(nmbrs::array_stats::mean(&xs), Some(R64(3.0)));

    let xs = rv(&[1.0, 2.0, 3.0, 4.0, 5.0, 6.0]);
    assert_eq!(nmbrs::array_stats::mean(&xs), xs.mean());
    assert_eq!(nmbrs::array_stats::mean(&xs), Some(R64(3.5)));
}

#[test]
fn population_variance() {
    let xs: Vec<R64> = Vec::with_capacity(0);
    assert_eq!(
        nmbrs::array_stats::variance(&xs, Some(VarianceBias::Population)),
        None
    );

    let xs = rv(&[2.0, 2.0, 2.0, 2.0, 2.0]);
    assert_eq!(
        nmbrs::array_stats::variance(&xs, Some(VarianceBias::Population)),
        Some(R64(0.0))
    );

    let xs = rv(&[1.0, 2.0, 3.0, 4.0, 5.0]);
    assert_eq!(
        nmbrs::array_stats::variance(&xs, Some(VarianceBias::Population)),
        Some(R64(2.0))
    );
    assert_eq!(
        nmbrs::array_stats::variance(&xs, Some(VarianceBias::Population)),
        xs.population_variance()
    );

    let xs: &[R64] = &[R64(1.0), R64(2.0), R64(3.0), R64(4.0), R64(5.0)];
    assert_eq!(
        nmbrs::array_stats::variance(xs, Some(VarianceBias::Population)),
        Some(R64(2.0))
    );
}

#[test]
fn array_stats_dot() {
    let xs = rv(&[1.0]);
    let ys: Vec<R64> = vec![];
    assert_eq!(nmbrs::array_stats::dot(&xs, &ys), None);

    let xs = rv(&[1.0]);
    let ys = rv(&[4.0, 5.0]);
    assert_eq!(nmbrs::array_stats::dot(&xs, &ys), None);

    let xs = rv(&[1.0, 2.0, 3.0]);
    let ys = rv(&[4.0, 5.0, 6.0]);
    assert_eq!(nmbrs::array_stats::dot(&xs, &ys), Some(R64(32.0)));
    assert_eq!(nmbrs::array_stats::dot(&xs, &ys), xs.dot(ys));

    let xs = rv(&[1.0, 2.0, 3.0, 4.0]);
    let ys = rv(&[4.0, 5.0, 6.0, 7.0]);
    assert_eq!(nmbrs::array_stats::dot(&xs, &ys), Some(R64(60.0)));

    let xs = rv(&[1.0, 2.0, 3.0, 4.0, 5.0]);
    let ys = rv(&[4.0, 5.0, 6.0, 7.0, 8.0]);
    assert_eq!(nmbrs::array_stats::dot(&xs, &ys), Some(R64(100.0)));

    let xs = rv(&[1.0, 2.0, 3.0, 4.0, 5.0, 6.0]);
    let ys = rv(&[4.0, 5.0, 6.0, 7.0, 8.0, 9.0]);
    assert_eq!(nmbrs::array_stats::dot(&xs, &ys), Some(R64(154.0)));
}

#[test]
fn array_stats_covariance() {
    let xs = rv(&[1.0]);
    let ys: Vec<R64> = vec![];
    assert_eq!(nmbrs::array_stats::covariance(&xs, &ys), None);

    let xs = rv(&[1.0]);
    let ys = rv(&[4.0, 5.0]);
    assert_eq!(nmbrs::array_stats::covariance(&xs, &ys), None);

    let xs = rv(&[1.0, 2.0, 3.0]);
    let ys = rv(&[4.0, 5.0, 6.0]);
    assert_eq!(nmbrs::array_stats::covariance(&xs, &ys), Some(R64(1.0)));

    let xs = rv(&[1.0, 2.0, 3.0, 4.0, 5.0]);
    let ys = rv(&[4.0, 5.0, 6.0, 7.0, 8.0]);
    assert_eq!(nmbrs::array_stats::covariance(&xs, &ys), Some(R64(2.5)));
    assert_eq!(nmbrs::array_stats::covariance(&xs, &ys), xs.covariance(ys));

    assert_eq!(
        nmbrs::array_stats::covariance(&xs, &xs),
        xs.sample_variance()
    );
}

const EPSILON: f64 = 1e-15;

#[test]
fn mean1() {
    let data = rv(&[
        5.3766713954610001e-01,
        1.8338850145950865e+00,
        -2.2588468610036481e+00,
        8.6217332036812055e-01,
        3.1876523985898081e-01,
        -1.3076882963052734e+00,
        -4.3359202230568356e-01,
        3.4262446653864992e-01,
        3.5783969397257605e+00,
        2.7694370298848772e+00,
    ]);
    let got = nmbrs::array_stats::mean(&data).unwrap().0;
    assert!((got - 6.2428219709029698e-01).abs() <= EPSILON);
}

#[test]
fn mean_0() {
    assert_eq!(nmbrs::array_stats::mean::<R64>(&[]), None);
}

#[test]
fn sample_variance1() {
    let xs = rv(&[
        5.3766713954610001e-01,
        1.8338850145950865e+00,
        -2.2588468610036481e+00,
        8.6217332036812055e-01,
        3.1876523985898081e-01,
        -1.3076882963052734e+00,
        -4.3359202230568356e-01,
        3.4262446653864992e-01,
        3.5783969397257605e+00,
        2.7694370298848772e+00,
    ]);
    let got = nmbrs::array_stats::variance(&xs, Some(VarianceBias::Sample))
        .unwrap()
        .0;
    assert!((got - 3.1324921339484746e+00).abs() <= EPSILON);
}

#[test]
fn variance_defaults_to_sample_estimator() {
    let xs = rv(&[1.0, 2.0, 3.0, 4.0, 5.0]);
    assert_eq!(
        nmbrs::array_stats::variance(&xs, None),
        nmbrs::array_stats::variance(&xs, Some(VarianceBias::Sample))
    );
    assert_eq!(
        nmbrs::array_stats::variance(&xs, None),
        Some(R64(2.5))
    );
}

#[test]
fn variance_bias_scale() {
    assert_eq!(VarianceBias::Population.scale(5), 5);
    assert_eq!(VarianceBias::Sample.scale(5), 4);
    assert_eq!(VarianceBias::default(), VarianceBias::Sample);
}

#[test]
fn sample_variance_of_single_integer_sample() {
    // One sample leaves the sample estimator with a zero divisor; integer
    // division by the additive identity is total and yields zero.
    assert_eq!(
        nmbrs::array_stats::variance(&[5i64], Some(VarianceBias::Sample)),
        Some(0)
    );
}

#[test]
fn integer_statistics_truncate() {
    // Integer fields divide with truncation: the mean of 1, 2 and 4 is 2.
    assert_eq!(nmbrs::array_stats::mean(&[1i64, 2, 4]), Some(2));
    assert_eq!(nmbrs::array_stats::sum(&[1i64, 2, 4]), Some(7));
}
