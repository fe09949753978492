//! The abstract scalar field the model computes over, and an exact
//! saturating integer instantiation.

use vstd::prelude::*;

verus! {

/// Scalar operations required by the Gaussian process model.
///
/// Each executable operation carries an `ensures` clause tying it to a
/// specification-level function, so contracts elsewhere in the library can
/// describe the exact value of every matrix entry the model produces.
/// Implementations choose the arithmetic (exact, saturating, rounding);
/// the model's contracts hold for any choice.
pub trait Scalar: Sized + Copy {
    /// The additive identity, as a specification value.
    spec fn spec_zero() -> Self;

    /// The meaning of `plus`.
    spec fn spec_plus(self, other: Self) -> Self;

    /// The meaning of `times`.
    spec fn spec_times(self, other: Self) -> Self;

    /// The meaning of `minus`.
    spec fn spec_minus(self, other: Self) -> Self;

    /// The meaning of `jitter`.
    spec fn spec_jitter() -> Self;

    /// The meaning of `is_nonneg`.
    spec fn spec_is_nonneg(self) -> bool;

    /// Law: the additive identity is not negative. This is what lets the
    /// model promise a nonnegative predictive variance after clamping.
    proof fn lemma_zero_nonneg()
        ensures
            Self::spec_zero().spec_is_nonneg(),
    ;

    /// The additive identity.
    fn zero() -> (r: Self)
        ensures
            r == Self::spec_zero(),
    ;

    /// Addition.
    fn plus(self, other: Self) -> (r: Self)
        ensures
            r == self.spec_plus(other),
    ;

    /// Multiplication.
    fn times(self, other: Self) -> (r: Self)
        ensures
            r == self.spec_times(other),
    ;

    /// Subtraction.
    fn minus(self, other: Self) -> (r: Self)
        ensures
            r == self.spec_minus(other),
    ;

    /// The small fixed positive value added to a covariance matrix's
    /// diagonal to guard the inversion against exact singularity.
    fn jitter() -> (r: Self)
        ensures
            r == Self::spec_jitter(),
    ;

    /// Whether the value is admissible as a variance-like quantity
    /// (observation noise must not be negative).
    fn is_nonneg(self) -> (r: bool)
        ensures
            r == self.spec_is_nonneg(),
    ;
}

/// Exact integer scalars with saturating arithmetic: the sum, product, or
/// difference is the mathematical one whenever it fits in `i64`, and is
/// clamped to the nearest representable bound otherwise.
impl Scalar for i64 {
    open spec fn spec_zero() -> i64 {
        0
    }

    open spec fn spec_plus(self, other: i64) -> i64 {
        clamp_i64(self + other)
    }

    open spec fn spec_times(self, other: i64) -> i64 {
        clamp_i64(self * other)
    }

    open spec fn spec_minus(self, other: i64) -> i64 {
        clamp_i64(self - other)
    }

    open spec fn spec_jitter() -> i64 {
        1
    }

    open spec fn spec_is_nonneg(self) -> bool {
        self >= 0
    }

    proof fn lemma_zero_nonneg() {
    }

    fn zero() -> (r: i64) {
        0
    }

    fn plus(self, other: i64) -> (r: i64) {
        let wide: i128 = self as i128 + other as i128;
        clamp_wide(wide)
    }

    fn times(self, other: i64) -> (r: i64) {
        proof {
            assert((self as i128) * (other as i128) <= i128::MAX
                && (self as i128) * (other as i128) >= i128::MIN) by (nonlinear_arith)
                requires
                    i64::MIN <= self <= i64::MAX,
                    i64::MIN <= other <= i64::MAX,
            ;
        }
        let wide: i128 = self as i128 * other as i128;
        clamp_wide(wide)
    }

    fn minus(self, other: i64) -> (r: i64) {
        let wide: i128 = self as i128 - other as i128;
        clamp_wide(wide)
    }

    fn jitter() -> (r: i64) {
        1
    }

    fn is_nonneg(self) -> (r: bool) {
        self >= 0
    }
}

/// A scalar clamped to the additive identity from below: the value itself
/// when it is not negative, the identity otherwise.
pub open spec fn spec_clamp_nonneg<S: Scalar>(v: S) -> S {
    if v.spec_is_nonneg() {
        v
    } else {
        S::spec_zero()
    }
}

/// Clamps a scalar to the additive identity from below.
pub fn clamp_nonneg<S: Scalar>(v: S) -> (r: S)
    ensures
        r == spec_clamp_nonneg(v),
        r.spec_is_nonneg(),
{
    proof {
        S::lemma_zero_nonneg();
    }
    if v.is_nonneg() {
        v
    } else {
        S::zero()
    }
}

/// A mathematical integer clamped to the `i64` range.
pub open spec fn clamp_i64(v: int) -> i64 {
    if v > i64::MAX {
        i64::MAX
    } else if v < i64::MIN {
        i64::MIN
    } else {
        v as i64
    }
}

/// Clamps a wide intermediate to the `i64` range.
fn clamp_wide(wide: i128) -> (r: i64)
    ensures
        r == clamp_i64(wide as int),
{
    if wide > i64::MAX as i128 {
        i64::MAX
    } else if wide < i64::MIN as i128 {
        i64::MIN
    } else {
        wide as i64
    }
}

} // verus!
