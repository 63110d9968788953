//! The arithmetic a simulation runs on.
//!
//! Everything else in this crate is written once, against the operations of
//! [`Scalar`], and says what it computes in terms of them: which operands meet
//! in which operation and in which order. A number type that rounds is
//! therefore followed step by step, never reasoned about as if it were exact.

use vstd::prelude::*;

verus! {

/// A number type with the operations the simulation needs.
///
/// Each executable operation is a total function of its operands and returns
/// what the matching specification function names. Three small groups of
/// laws are asked of every implementation; they are the only algebra the
/// crate relies on.
///
/// [`crate::fixed::Fixed`] is the implementation that this crate brings and
/// proves. One written elsewhere, say over the rounding numbers of the
/// machine, is not read by the verifier: what is proved here holds of it as
/// far as its operations are functions of their operands and keep the laws.
pub trait Scalar: Copy {
    /// The scalar that stands for the whole number `n`.
    spec fn of_int(n: i128) -> Self;

    /// The scalar in the unit interval (zero included, one excluded) that 64
    /// evenly distributed bits stand for.
    spec fn of_unit_bits(bits: u64) -> Self;

    /// `self + rhs`.
    spec fn sum(self, rhs: Self) -> Self;

    /// `self - rhs`.
    spec fn difference(self, rhs: Self) -> Self;

    /// `self * rhs`.
    spec fn product(self, rhs: Self) -> Self;

    /// `self / rhs`.
    spec fn quotient(self, rhs: Self) -> Self;

    /// The square root of `self`.
    spec fn root(self) -> Self;

    /// Whether `self` is strictly less than `rhs`.
    spec fn less(self, rhs: Self) -> bool;

    /// Whether `self` compares equal to zero.
    spec fn vanishes(self) -> bool;

    fn from_int(n: i128) -> (r: Self)
        ensures
            r == Self::of_int(n),
    ;

    fn from_unit_bits(bits: u64) -> (r: Self)
        ensures
            r == Self::of_unit_bits(bits),
    ;

    fn plus(self, rhs: Self) -> (r: Self)
        ensures
            r == self.sum(rhs),
    ;

    fn minus(self, rhs: Self) -> (r: Self)
        ensures
            r == self.difference(rhs),
    ;

    fn times(self, rhs: Self) -> (r: Self)
        ensures
            r == self.product(rhs),
    ;

    fn over(self, rhs: Self) -> (r: Self)
        ensures
            r == self.quotient(rhs),
    ;

    fn sqrt(self) -> (r: Self)
        ensures
            r == self.root(),
    ;

    fn lt(self, rhs: Self) -> (r: bool)
        ensures
            r == self.less(rhs),
    ;

    fn is_zero(self) -> (r: bool)
        ensures
            r == self.vanishes(),
    ;

    /// Zero times zero, zero plus zero and the root of zero are zero, and zero
    /// compares equal to zero.
    proof fn zero_laws()
        ensures
            Self::of_int(0).product(Self::of_int(0)) == Self::of_int(0),
            Self::of_int(0).sum(Self::of_int(0)) == Self::of_int(0),
            Self::of_int(0).root() == Self::of_int(0),
            Self::of_int(0).vanishes(),
    ;

    /// Zero is less than every whole number above zero.
    proof fn order_law(n: i128)
        requires
            n > 0,
        ensures
            Self::of_int(0).less(Self::of_int(n)),
    ;

    /// Addition does not depend on the order of its operands, and the square
    /// of a difference does not depend on which operand is taken from which.
    proof fn symmetry_laws(a: Self, b: Self)
        ensures
            a.sum(b) == b.sum(a),
            a.difference(b).product(a.difference(b)) == b.difference(a).product(
                b.difference(a),
            ),
    ;
}

/// The scalar zero.
pub open spec fn zero<S: Scalar>() -> S {
    S::of_int(0)
}

/// The scalar `numerator / denominator`, both taken as whole numbers first.
pub open spec fn ratio<S: Scalar>(numerator: i128, denominator: i128) -> S {
    S::of_int(numerator).quotient(S::of_int(denominator))
}

/// Computes [`ratio`].
pub fn ratio_of<S: Scalar>(numerator: i128, denominator: i128) -> (r: S)
    ensures
        r == ratio::<S>(numerator, denominator),
{
    S::from_int(numerator).over(S::from_int(denominator))
}

} // verus!
