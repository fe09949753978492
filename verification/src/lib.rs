//! Gaussian process regression over scalar inputs.
//!
//! The library is generic over the scalar type: covariance-matrix assembly,
//! diagonal regularization, and the posterior mean/variance algebra are all
//! stated and verified over the abstract scalar operations of
//! [`scalar::Scalar`], so the same verified core serves an exact integer
//! instantiation as well as a floating-point one supplied by the caller
//! outside the verified boundary. Matrix inversion is delegated to a
//! caller-supplied [`gp::MatrixInverter`]; construction checks every
//! outcome of that call before trusting its shape.

use vstd::prelude::*;

pub mod gp;
pub mod kernel;
pub mod matrix;
pub mod scalar;

verus! {

pub use gp::GaussianProcess;
pub use gp::GpError;
pub use gp::MatrixInverter;
pub use kernel::DiagonalKernel;
pub use kernel::GpKernel;
pub use matrix::Matrix;
pub use scalar::Scalar;

} // verus!
