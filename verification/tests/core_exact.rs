//! Exact-arithmetic checks of the verified core: integer scalars, the
//! white-noise kernel, and stub inverters that exercise every construction
//! outcome.

use gp_regression::gp::GaussianProcess;
use gp_regression::gp::GpError;
use gp_regression::gp::MatrixInverter;
use gp_regression::kernel::DiagonalKernel;
use gp_regression::kernel::GpKernel;
use gp_regression::matrix::Matrix;
use gp_regression::scalar::Scalar;

/// Hands back the identity matrix of the input's size.
struct IdentityInverter;

impl MatrixInverter<i64> for IdentityInverter {
    fn try_inverse(&self, m: &Matrix<i64>) -> Option<Matrix<i64>> {
        let n = m.entries.len();
        let mut entries = Vec::new();
        for i in 0..n {
            let mut row = vec![0i64; n];
            row[i] = 1;
            entries.push(row);
        }
        Some(Matrix { entries, cols: n })
    }
}

/// Declares every matrix singular.
struct NoneInverter;

impl MatrixInverter<i64> for NoneInverter {
    fn try_inverse(&self, _m: &Matrix<i64>) -> Option<Matrix<i64>> {
        None
    }
}

/// Hands back a matrix of the wrong shape.
struct BadShapeInverter;

impl MatrixInverter<i64> for BadShapeInverter {
    fn try_inverse(&self, _m: &Matrix<i64>) -> Option<Matrix<i64>> {
        Some(Matrix {
            entries: vec![vec![1i64]],
            cols: 1,
        })
    }
}

/// Hands back a ragged matrix: right outer size, short second row.
struct RaggedInverter;

impl MatrixInverter<i64> for RaggedInverter {
    fn try_inverse(&self, m: &Matrix<i64>) -> Option<Matrix<i64>> {
        let n = m.entries.len();
        let mut entries = vec![vec![0i64; n]; n];
        entries[n - 1].pop();
        Some(Matrix { entries, cols: n })
    }
}

#[test]
fn saturating_integer_scalars() {
    assert_eq!(3i64.plus(4), 7);
    assert_eq!(i64::MAX.plus(1), i64::MAX);
    assert_eq!(i64::MIN.minus(1), i64::MIN);
    assert_eq!(i64::MAX.times(2), i64::MAX);
    assert_eq!(i64::MIN.times(2), i64::MIN);
    assert_eq!((-5i64).times(3), -15);
    assert_eq!(i64::zero(), 0);
    assert_eq!(i64::jitter(), 1);
    assert!(0i64.is_nonneg());
    assert!(!(-1i64).is_nonneg());
}

#[test]
fn white_noise_covariance_matrix() {
    let kernel = DiagonalKernel { amplitude: 4 };
    let x = vec![1i64, 2, 2];
    let m = kernel.compute_matrix(&x, &x);
    let expected = [[4, 0, 0], [0, 4, 4], [0, 4, 4]];
    assert_eq!(m.nrows(), 3);
    assert_eq!(m.ncols(), 3);
    for i in 0..3 {
        for j in 0..3 {
            assert_eq!(m.get(i, j), expected[i][j]);
        }
    }
}

#[test]
fn exact_posterior_with_identity_inverse() {
    let x = vec![1i64, 2, 3];
    let y = vec![10i64, 20, 30];
    let kernel = DiagonalKernel { amplitude: 4 };
    let gp = GaussianProcess::new(&x, &y, kernel, 0, &IdentityInverter).unwrap();
    assert_eq!(gp.x(), x);
    assert_eq!(gp.y(), y);
    assert_eq!(gp.noise_sigma(), 0);
    let (mean, variance) = gp.predict(&x);
    assert_eq!(mean, vec![40, 80, 120]);
    // The raw Schur diagonal is 4 - 16 + 1 = -11; the clamp turns each
    // entry into the additive identity.
    assert_eq!(variance, vec![0, 0, 0]);
    let (mean_again, variance_again) = gp.predict(&x);
    assert_eq!(mean, mean_again);
    assert_eq!(variance, variance_again);
}

#[test]
fn exact_error_outcomes() {
    let kernel = DiagonalKernel { amplitude: 4 };
    let mismatch = GaussianProcess::new(&vec![1i64, 2], &vec![1i64], kernel, 0, &IdentityInverter);
    assert!(matches!(mismatch, Err(GpError::DimensionMismatch)));

    let invalid = DiagonalKernel { amplitude: -1 };
    let config = GaussianProcess::new(&vec![1i64], &vec![1i64], invalid, 0, &IdentityInverter);
    assert!(matches!(config, Err(GpError::ConfigurationError)));

    let kernel = DiagonalKernel { amplitude: 4 };
    let noise = GaussianProcess::new(&vec![1i64], &vec![1i64], kernel, -3, &IdentityInverter);
    assert!(matches!(noise, Err(GpError::ConfigurationError)));

    let kernel = DiagonalKernel { amplitude: 4 };
    let singular = GaussianProcess::new(&vec![1i64], &vec![1i64], kernel, 0, &NoneInverter);
    assert!(matches!(singular, Err(GpError::NotInvertible)));

    let kernel = DiagonalKernel { amplitude: 4 };
    let bad = GaussianProcess::new(&vec![1i64, 2], &vec![3i64, 4], kernel, 0, &BadShapeInverter);
    assert!(matches!(bad, Err(GpError::NotInvertible)));

    let kernel = DiagonalKernel { amplitude: 4 };
    let ragged = GaussianProcess::new(&vec![1i64, 2], &vec![3i64, 4], kernel, 0, &RaggedInverter);
    assert!(matches!(ragged, Err(GpError::NotInvertible)));
}

#[test]
fn empty_training_set_fits_and_predicts_prior() {
    // The empty training set fits without consulting the inverter: even an
    // inverter that declares everything singular cannot make it fail.
    let kernel = DiagonalKernel { amplitude: 4 };
    let gp = GaussianProcess::new(&Vec::new(), &Vec::new(), kernel, 2, &NoneInverter).unwrap();
    let (mean, variance) = gp.predict(&vec![7i64]);
    assert_eq!(mean, vec![0]);
    assert_eq!(variance, vec![4 - 0 + 1]);
}
