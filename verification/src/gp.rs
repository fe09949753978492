//! The Gaussian process model: construction validates the training data and
//! hyperparameters, assembles and regularizes the training covariance
//! matrix, and stores its inverse; prediction combines the stored inverse
//! with fresh covariance evaluations to produce the posterior mean and
//! variance at each query point.

use vstd::prelude::*;

use crate::kernel::GpKernel;
use crate::kernel::spec_covariance_matrix;
use crate::matrix::Matrix;
use crate::matrix::add_to_diagonal;
use crate::matrix::column_of;
use crate::matrix::diagonal;
use crate::matrix::mat_mul;
use crate::matrix::mat_sub;
use crate::matrix::mat_vec;
use crate::matrix::sdot;
use crate::matrix::transpose;
use crate::scalar::Scalar;
use crate::scalar::clamp_nonneg;
use crate::scalar::spec_clamp_nonneg;

verus! {

/// Why model construction failed.
#[derive(Clone, Copy, Debug, PartialEq, Eq, Structural)]
pub enum GpError {
    /// The training inputs and targets differ in length.
    DimensionMismatch,
    /// A hyperparameter lies outside its domain: the kernel rejected its
    /// own parameters, or the observation noise is negative.
    ConfigurationError,
    /// The regularized training covariance matrix could not be inverted.
    NotInvertible,
}

/// Inverts a square matrix, or reports that it has no inverse. The library
/// promises nothing about the result: construction checks the returned
/// shape at run time and treats anything unusable as [`GpError::NotInvertible`].
pub trait MatrixInverter<S: Scalar> {
    /// The inverse of `m`, or `None` when `m` is not invertible.
    fn try_inverse(&self, m: &Matrix<S>) -> (r: Option<Matrix<S>>)
        requires
            m.wf(),
            m@.len() == m.cols,
    ;
}

/// A fitted Gaussian process: the training snapshot, the kernel, and the
/// inverse of the regularized training covariance matrix. Instances are
/// immutable; any change to data or hyperparameters is a fresh
/// construction.
pub struct GaussianProcess<S: Scalar, K: GpKernel<S>> {
    kernel: K,
    x: Vec<S>,
    y: Vec<S>,
    input_cov_matrix_inv: Matrix<S>,
    noise_sigma: S,
}

impl<S: Scalar, K: GpKernel<S>> GaussianProcess<S, K> {
    /// The training inputs.
    pub closed spec fn spec_x(self) -> Seq<S> {
        self.x@
    }

    /// The training targets.
    pub closed spec fn spec_y(self) -> Seq<S> {
        self.y@
    }

    /// The kernel the model was fitted with.
    pub closed spec fn spec_kernel(self) -> K {
        self.kernel
    }

    /// The observation-noise variance the model was fitted with.
    pub closed spec fn spec_noise_sigma(self) -> S {
        self.noise_sigma
    }

    /// The stored inverse of the regularized training covariance matrix.
    pub closed spec fn spec_inv(self) -> Seq<Seq<S>> {
        self.input_cov_matrix_inv@
    }

    /// Well-formedness: the training sequences pair up index by index, and
    /// the stored inverse is square with the training set's size.
    pub closed spec fn wf(self) -> bool {
        &&& self.x@.len() == self.y@.len()
        &&& self.input_cov_matrix_inv.wf()
        &&& self.input_cov_matrix_inv@.len() == self.x@.len()
        &&& self.input_cov_matrix_inv.cols == self.x@.len()
    }

    /// The cross-covariance matrix between the training inputs and the
    /// query points: cell `(t, j)` is the covariance of training point `t`
    /// and query point `j`.
    pub open spec fn spec_k_star(self, q: Seq<S>) -> Seq<Seq<S>> {
        spec_covariance_matrix(self.spec_kernel(), self.spec_x(), q)
    }

    /// Row `i` of the posterior weight matrix: the product of column `i` of
    /// the cross covariance with each column of the stored inverse.
    pub open spec fn spec_weights(self, q: Seq<S>, i: int) -> Seq<S> {
        Seq::new(
            self.spec_x().len(),
            |t: int| sdot(column_of(self.spec_k_star(q), i), column_of(self.spec_inv(), t)),
        )
    }

    /// The posterior mean at query point `i`: the weights applied to the
    /// training targets.
    pub open spec fn spec_mean_at(self, q: Seq<S>, i: int) -> S {
        sdot(self.spec_weights(q, i), self.spec_y())
    }

    /// The posterior variance at query point `i`: the prior variance at the
    /// point, minus the Schur-complement term, plus the diagonal jitter —
    /// clamped to the additive identity from below, so that arithmetic
    /// noise in the subtraction never surfaces as a negative variance.
    pub open spec fn spec_var_at(self, q: Seq<S>, i: int) -> S {
        spec_clamp_nonneg(
            self.spec_kernel().spec_compute(q[i], q[i]).spec_minus(
                sdot(self.spec_weights(q, i), column_of(self.spec_k_star(q), i)),
            ).spec_plus(S::spec_jitter()),
        )
    }

    /// Fits a Gaussian process to paired training data.
    ///
    /// Fails with `DimensionMismatch` if and only if the training sequences
    /// differ in length; otherwise with `ConfigurationError` if and only if
    /// the kernel rejects its hyperparameters or the noise is negative. An
    /// empty, valid training set always fits: the regularized covariance
    /// matrix is then the empty matrix, its own inverse, and the inverter
    /// is not consulted. Otherwise construction builds the training
    /// covariance matrix, adds `noise_sigma + jitter` to its diagonal, and
    /// asks `inverter` for the inverse; `NotInvertible` reports an inverter
    /// outcome the model cannot use. On success the model holds the
    /// training data unchanged.
    pub fn new<I: MatrixInverter<S>>(
        x: &Vec<S>,
        y: &Vec<S>,
        kernel: K,
        noise_sigma: S,
        inverter: &I,
    ) -> (r: Result<GaussianProcess<S, K>, GpError>)
        ensures
            x@.len() != y@.len() ==> r == Err::<GaussianProcess<S, K>, GpError>(
                GpError::DimensionMismatch,
            ),
            r is Err && r->Err_0 is DimensionMismatch ==> x@.len() != y@.len(),
            x@.len() == y@.len() && !(kernel.spec_valid() && noise_sigma.spec_is_nonneg())
                ==> r == Err::<GaussianProcess<S, K>, GpError>(GpError::ConfigurationError),
            r is Err && r->Err_0 is ConfigurationError ==> x@.len() == y@.len()
                && !(kernel.spec_valid() && noise_sigma.spec_is_nonneg()),
            r is Err ==> r->Err_0 is DimensionMismatch || r->Err_0 is ConfigurationError
                || r->Err_0 is NotInvertible,
            r is Err && r->Err_0 is NotInvertible ==> x@.len() == y@.len() && x@.len() > 0
                && kernel.spec_valid() && noise_sigma.spec_is_nonneg(),
            x@.len() == 0 && y@.len() == 0 && kernel.spec_valid()
                && noise_sigma.spec_is_nonneg() ==> r is Ok,
            r is Ok ==> x@.len() == y@.len() && kernel.spec_valid()
                && noise_sigma.spec_is_nonneg(),
            r is Ok ==> (r->Ok_0).wf() && (r->Ok_0).spec_x() == x@ && (r->Ok_0).spec_y() == y@
                && (r->Ok_0).spec_kernel() == kernel
                && (r->Ok_0).spec_noise_sigma() == noise_sigma
                && (r->Ok_0).spec_inv().len() == x@.len(),
    {
        let n = x.len();
        if n != y.len() {
            return Err(GpError::DimensionMismatch);
        }
        if !kernel.validate() || !noise_sigma.is_nonneg() {
            return Err(GpError::ConfigurationError);
        }
        if n == 0 {
            return Ok(
                GaussianProcess {
                    kernel,
                    x: clone_scalars(x),
                    y: clone_scalars(y),
                    input_cov_matrix_inv: Matrix { entries: Vec::new(), cols: 0 },
                    noise_sigma,
                },
            );
        }
        let k = kernel.compute_matrix(x, x);
        let regularized = add_to_diagonal(&k, noise_sigma.plus(S::jitter()));
        match inverter.try_inverse(&regularized) {
            None => Err(GpError::NotInvertible),
            Some(inverse) => {
                if has_shape(&inverse, n, n) {
                    Ok(
                        GaussianProcess {
                            kernel,
                            x: clone_scalars(x),
                            y: clone_scalars(y),
                            input_cov_matrix_inv: inverse,
                            noise_sigma,
                        },
                    )
                } else {
                    Err(GpError::NotInvertible)
                }
            },
        }
    }

    /// Posterior mean and variance at each query point, in query order.
    /// Each variance is clamped to the additive identity from below, so no
    /// negative variance reaches the caller.
    ///
    /// Reads the fitted model only — it is taken by shared reference and
    /// holds no interior mutability, so the model is unchanged by the call,
    /// and each output entry is the stated pure function of the model and
    /// the query points.
    pub fn predict(&self, x: &Vec<S>) -> (r: (Vec<S>, Vec<S>))
        requires
            self.wf(),
        ensures
            r.0@.len() == x@.len(),
            r.1@.len() == x@.len(),
            forall|i: int| 0 <= i < x@.len() ==> r.0@[i] == self.spec_mean_at(x@, i),
            forall|i: int| 0 <= i < x@.len() ==> r.1@[i] == self.spec_var_at(x@, i),
            forall|i: int| 0 <= i < x@.len() ==> (#[trigger] r.1@[i]).spec_is_nonneg(),
    {
        let m = x.len();
        let k_star = self.kernel.compute_matrix(&self.x, x);
        let k_star_star = self.kernel.compute_matrix(x, x);
        let k_star_t = transpose(&k_star);
        let weights = mat_mul(&k_star_t, &self.input_cov_matrix_inv);
        let mean = mat_vec(&weights, &self.y);
        let schur = mat_mul(&weights, &k_star);
        let covariance = mat_sub(&k_star_star, &schur);
        let covariance = add_to_diagonal(&covariance, S::jitter());
        let raw_variance = diagonal(&covariance);
        let mut variance: Vec<S> = Vec::new();
        let mut idx: usize = 0;
        while idx < raw_variance.len()
            invariant
                idx <= raw_variance@.len(),
                variance@.len() == idx,
                forall|p: int|
                    0 <= p < idx ==> #[trigger] variance@[p] == spec_clamp_nonneg(
                        raw_variance@[p],
                    ) && variance@[p].spec_is_nonneg(),
            decreases raw_variance@.len() - idx,
        {
            let clamped = clamp_nonneg(raw_variance[idx]);
            variance.push(clamped);
            idx += 1;
        }
        proof {
            let q = x@;
            let ks_spec = self.spec_k_star(q);
            assert(k_star@ =~~= ks_spec);
            assert forall|i: int| 0 <= i < m implies k_star_t@[i] =~= column_of(
                ks_spec,
                i,
            ) by {
                assert(k_star_t@[i].len() == k_star@.len());
            }
            assert forall|i: int| 0 <= i < m implies weights@[i] =~= self.spec_weights(
                q,
                i,
            ) by {
                assert(weights@[i].len() == self.input_cov_matrix_inv.cols);
                assert forall|t: int| 0 <= t < self.spec_x().len() implies weights@[i][t]
                    == self.spec_weights(q, i)[t] by {
                    assert(weights@[i][t] == sdot(
                        k_star_t@[i],
                        column_of(self.input_cov_matrix_inv@, t),
                    ));
                }
            }
            assert forall|i: int| 0 <= i < m implies mean@[i] == self.spec_mean_at(q, i) by {
                assert(mean@[i] == sdot(weights@[i], self.y@));
            }
            assert forall|i: int| 0 <= i < m implies variance@[i] == self.spec_var_at(q, i) by {
                assert(schur@[i][i] == sdot(weights@[i], column_of(k_star@, i)));
                assert(column_of(k_star@, i) =~= column_of(ks_spec, i));
                assert(k_star_star@[i][i] == self.spec_kernel().spec_compute(q[i], q[i]));
                assert(raw_variance@[i] == covariance@[i][i]);
                assert(variance@[i] == spec_clamp_nonneg(raw_variance@[i]));
            }
        }
        (mean, variance)
    }

    /// The training inputs, as stored by the fitted model.
    pub fn x(&self) -> (r: Vec<S>)
        ensures
            r@ == self.spec_x(),
    {
        clone_scalars(&self.x)
    }

    /// The training targets, as stored by the fitted model.
    pub fn y(&self) -> (r: Vec<S>)
        ensures
            r@ == self.spec_y(),
    {
        clone_scalars(&self.y)
    }

    /// The observation-noise variance the model was fitted with.
    pub fn noise_sigma(&self) -> (r: S)
        ensures
            r == self.spec_noise_sigma(),
    {
        self.noise_sigma
    }

    /// The kernel the model was fitted with.
    pub fn kernel(&self) -> (r: &K)
        ensures
            *r == self.spec_kernel(),
    {
        &self.kernel
    }
}

/// Whether `m` is well formed with exactly the given shape.
pub fn has_shape<S: Scalar>(m: &Matrix<S>, rows: usize, cols: usize) -> (r: bool)
    ensures
        r == (m.wf() && m@.len() == rows && m.cols == cols),
{
    if m.entries.len() != rows || m.cols != cols {
        return false;
    }
    let mut i: usize = 0;
    while i < rows
        invariant
            m@.len() == rows,
            m.cols == cols,
            i <= rows,
            forall|p: int| 0 <= p < i ==> (#[trigger] m.entries@[p])@.len() == cols,
        decreases rows - i,
    {
        if m.entries[i].len() != cols {
            assert(m.entries@[i as int]@.len() != m.cols);
            return false;
        }
        i += 1;
    }
    true
}

/// A copy of a scalar vector.
fn clone_scalars<S: Scalar>(v: &Vec<S>) -> (r: Vec<S>)
    ensures
        r@ == v@,
{
    let mut out: Vec<S> = Vec::new();
    let mut i: usize = 0;
    while i < v.len()
        invariant
            i <= v@.len(),
            out@ == v@.take(i as int),
        decreases v@.len() - i,
    {
        out.push(v[i]);
        i += 1;
    }
    proof {
        assert(out@ =~= v@);
    }
    out
}

/// Law: prediction has no hidden state. `predict` takes the model by shared
/// reference and the model holds no interior mutability, so the fitted
/// state cannot change across calls; this lemma states the observable half:
/// the posterior mean and variance are pure functions of the fitted model
/// and the query points, so two results that both satisfy `predict`'s
/// contract for the same model and query are equal.
pub proof fn lemma_predict_deterministic<S: Scalar, K: GpKernel<S>>(
    gp: GaussianProcess<S, K>,
    q: Seq<S>,
    mean1: Seq<S>,
    var1: Seq<S>,
    mean2: Seq<S>,
    var2: Seq<S>,
)
    requires
        mean1.len() == q.len(),
        var1.len() == q.len(),
        mean2.len() == q.len(),
        var2.len() == q.len(),
        forall|i: int| 0 <= i < q.len() ==> mean1[i] == gp.spec_mean_at(q, i),
        forall|i: int| 0 <= i < q.len() ==> var1[i] == gp.spec_var_at(q, i),
        forall|i: int| 0 <= i < q.len() ==> mean2[i] == gp.spec_mean_at(q, i),
        forall|i: int| 0 <= i < q.len() ==> var2[i] == gp.spec_var_at(q, i),
    ensures
        mean1 == mean2,
        var1 == var2,
{
    assert(mean1 =~= mean2);
    assert(var1 =~= var2);
}

} // verus!
