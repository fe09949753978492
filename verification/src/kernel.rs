//! The covariance-function capability: a symmetric scalar covariance with a
//! derived batch operation that assembles a full covariance matrix, plus one
//! exact kernel implemented here.

use vstd::prelude::*;

use crate::matrix::Matrix;
use crate::scalar::Scalar;

verus! {

/// A covariance function over scalars of type `S`.
///
/// Implementations pin the executable `compute` to the specification-level
/// `spec_compute`, and must prove the two kernel laws: symmetry, and that
/// the covariance of a point with itself is exactly the kernel's amplitude.
pub trait GpKernel<S: Scalar>: Sized {
    /// The value `compute` returns.
    spec fn spec_compute(&self, a: S, b: S) -> S;

    /// The kernel's amplitude: the covariance of any point with itself.
    spec fn spec_amplitude(&self) -> S;

    /// Whether the kernel's hyperparameters lie in their domain.
    spec fn spec_valid(&self) -> bool;

    /// Law: the covariance function is symmetric in its two arguments.
    proof fn lemma_symmetric(&self, a: S, b: S)
        ensures
            self.spec_compute(a, b) == self.spec_compute(b, a),
    ;

    /// Law: the covariance of a point with itself is the amplitude, exactly.
    proof fn lemma_self_covariance(&self, a: S)
        ensures
            self.spec_compute(a, a) == self.spec_amplitude(),
    ;

    /// The covariance of `a` and `b`. Total: defined for every pair of
    /// scalars, with no failure mode.
    fn compute(&self, a: S, b: S) -> (r: S)
        ensures
            r == self.spec_compute(a, b),
    ;

    /// Whether the kernel's hyperparameters lie in their domain. Model
    /// construction rejects a kernel for which this is false.
    fn validate(&self) -> (r: bool)
        ensures
            r == self.spec_valid(),
    ;

    /// The covariance matrix between two point collections: cell `(i, j)`
    /// is the covariance of `x[i]` and `x2[j]`.
    fn compute_matrix(&self, x: &Vec<S>, x2: &Vec<S>) -> (r: Matrix<S>)
        ensures
            r.wf(),
            r@.len() == x@.len(),
            r.cols == x2@.len(),
            forall|i: int, j: int|
                0 <= i < x@.len() && 0 <= j < x2@.len() ==> r@[i][j] == self.spec_compute(
                    x@[i],
                    x2@[j],
                ),
    {
        let mut out: Vec<Vec<S>> = Vec::new();
        let mut i: usize = 0;
        while i < x.len()
            invariant
                i <= x@.len(),
                out@.len() == i,
                forall|p: int| 0 <= p < i ==> (#[trigger] out@[p])@.len() == x2@.len(),
                forall|p: int, q: int|
                    0 <= p < i && 0 <= q < x2@.len() ==> out@[p]@[q] == self.spec_compute(
                        x@[p],
                        x2@[q],
                    ),
            decreases x@.len() - i,
        {
            let mut row: Vec<S> = Vec::new();
            let mut j: usize = 0;
            while j < x2.len()
                invariant
                    i < x@.len(),
                    j <= x2@.len(),
                    row@.len() == j,
                    forall|q: int|
                        0 <= q < j ==> row@[q] == self.spec_compute(x@[i as int], x2@[q]),
                decreases x2@.len() - j,
            {
                let c = self.compute(x[i], x2[j]);
                row.push(c);
                j += 1;
            }
            out.push(row);
            i += 1;
        }
        Matrix { entries: out, cols: x2.len() }
    }
}

/// The white-noise covariance function over exact integer scalars: full
/// covariance `amplitude` of a point with itself, none between distinct
/// points. Valid when the amplitude, a variance-like scale, is not
/// negative.
pub struct DiagonalKernel {
    pub amplitude: i64,
}

impl GpKernel<i64> for DiagonalKernel {
    open spec fn spec_compute(&self, a: i64, b: i64) -> i64 {
        if a == b {
            self.amplitude
        } else {
            0
        }
    }

    open spec fn spec_amplitude(&self) -> i64 {
        self.amplitude
    }

    open spec fn spec_valid(&self) -> bool {
        self.amplitude >= 0
    }

    proof fn lemma_symmetric(&self, a: i64, b: i64) {
    }

    proof fn lemma_self_covariance(&self, a: i64) {
    }

    fn compute(&self, a: i64, b: i64) -> (r: i64) {
        if a == b {
            self.amplitude
        } else {
            0
        }
    }

    fn validate(&self) -> (r: bool) {
        self.amplitude >= 0
    }
}

/// The covariance matrix of a point collection with itself, as a
/// specification value: cell `(i, j)` is the covariance of `x[i]` and
/// `x[j]`.
pub open spec fn spec_covariance_matrix<S: Scalar, K: GpKernel<S>>(
    kernel: K,
    x: Seq<S>,
    x2: Seq<S>,
) -> Seq<Seq<S>> {
    Seq::new(x.len(), |i: int| Seq::new(x2.len(), |j: int| kernel.spec_compute(x[i], x2[j])))
}

/// Law: transposing the covariance matrix between two point collections
/// gives the covariance matrix between them in the opposite order. This is
/// what lets the model build the training-to-query covariance once and use
/// its transpose as the query-to-training covariance.
pub proof fn lemma_cross_covariance_transpose<S: Scalar, K: GpKernel<S>>(
    kernel: K,
    x: Seq<S>,
    x2: Seq<S>,
)
    ensures
        forall|i: int, j: int|
            0 <= i < x.len() && 0 <= j < x2.len() ==> spec_covariance_matrix(kernel, x, x2)[i][j]
                == spec_covariance_matrix(kernel, x2, x)[j][i],
{
    assert forall|i: int, j: int|
        0 <= i < x.len() && 0 <= j < x2.len() implies spec_covariance_matrix(kernel, x, x2)[i][j]
        == spec_covariance_matrix(kernel, x2, x)[j][i] by {
        kernel.lemma_symmetric(x[i], x2[j]);
    }
}

/// Law: the covariance matrix of a point collection with itself is
/// symmetric, and every diagonal entry is exactly the kernel's amplitude.
pub proof fn lemma_self_covariance_matrix<S: Scalar, K: GpKernel<S>>(kernel: K, x: Seq<S>)
    ensures
        forall|i: int, j: int|
            0 <= i < x.len() && 0 <= j < x.len() ==> spec_covariance_matrix(kernel, x, x)[i][j]
                == spec_covariance_matrix(kernel, x, x)[j][i],
        forall|i: int|
            0 <= i < x.len() ==> spec_covariance_matrix(kernel, x, x)[i][i]
                == kernel.spec_amplitude(),
{
    assert forall|i: int, j: int|
        0 <= i < x.len() && 0 <= j < x.len() implies spec_covariance_matrix(kernel, x, x)[i][j]
        == spec_covariance_matrix(kernel, x, x)[j][i] by {
        kernel.lemma_symmetric(x[i], x[j]);
    }
    assert forall|i: int|
        0 <= i < x.len() implies spec_covariance_matrix(kernel, x, x)[i][i]
        == kernel.spec_amplitude() by {
        kernel.lemma_self_covariance(x[i]);
    }
}

} // verus!
