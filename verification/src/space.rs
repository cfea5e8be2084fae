//! The algebraic capabilities that a dual quantity is built on.

use vstd::prelude::*;

verus! {

/// What a type must supply to carry a derivative: an additive identity,
/// pairwise addition and scaling by a scalar.
///
/// Every operation is total and is a function of its operands alone. The
/// specification functions name those functions, and each executable method
/// returns what its specification function names. That is proved of every
/// implementor that is verified; of any other it is taken on trust, and what
/// is proved of a dual quantity over such a space rests on it.
pub trait VectorSpace: Sized {
    /// The scalars by which a tangent is scaled.
    type Scalar: Copy;

    /// The additive identity.
    spec fn zero_spec() -> Self;

    /// The sum of `self` and `rhs`.
    spec fn add_spec(self, rhs: Self) -> Self;

    /// `self` scaled by `factor`.
    spec fn scale_spec(self, factor: Self::Scalar) -> Self;

    /// Returns the additive identity.
    fn zero() -> (r: Self)
        ensures
            r == Self::zero_spec(),
    ;

    /// Returns the sum of `self` and `rhs`.
    fn add(&self, rhs: &Self) -> (r: Self)
        ensures
            r == self.add_spec(*rhs),
    ;

    /// Returns `self` scaled by `factor`.
    fn scale(&self, factor: Self::Scalar) -> (r: Self)
        ensures
            r == self.scale_spec(factor),
    ;
}

/// A scalar: a vector space over itself, whose `add` is the scalar sum and
/// whose `scale` is the scalar product, together with the elementary
/// functions that a dual quantity can be passed through.
///
/// The elementary functions are total. Nothing more is asked of them: how
/// closely they follow the functions they are named after is for the type
/// to say, and they need not give the same result twice. What is proved of
/// a dual quantity speaks of the values they gave.
pub trait Real: VectorSpace<Scalar = Self> + Copy {
    /// Returns the additive inverse of `self`.
    fn neg(&self) -> Self;

    /// Returns the sine of `self`.
    fn sin(&self) -> Self;

    /// Returns the cosine of `self`.
    fn cos(&self) -> Self;

    /// Returns `self` raised to the integer power `n`.
    fn powi(&self, n: i32) -> Self;

    /// Returns the scalar that stands for the integer `n`.
    fn from_i32(n: i32) -> Self;
}

/// `r` is a value that negating `x` gives.
pub open spec fn neg_gives<S: Real>(x: S, r: S) -> bool {
    call_ensures(S::neg, (&x,), r)
}

/// `r` is a value that taking the sine of `x` gives.
pub open spec fn sin_gives<S: Real>(x: S, r: S) -> bool {
    call_ensures(S::sin, (&x,), r)
}

/// `r` is a value that taking the cosine of `x` gives.
pub open spec fn cos_gives<S: Real>(x: S, r: S) -> bool {
    call_ensures(S::cos, (&x,), r)
}

/// `r` is a value that raising `x` to the power `n` gives.
pub open spec fn powi_gives<S: Real>(x: S, n: i32, r: S) -> bool {
    call_ensures(S::powi, (&x, n), r)
}

/// `r` is a value that converting the integer `n` gives.
pub open spec fn from_i32_gives<S: Real>(n: i32, r: S) -> bool {
    call_ensures(S::from_i32, (n,), r)
}

/// Two tangents over the same scalars, side by side: the tangent of a
/// quantity that depends on two variables. Every operation acts on each
/// slot separately.
impl<A: VectorSpace, B: VectorSpace<Scalar = A::Scalar>> VectorSpace for (A, B) {
    type Scalar = A::Scalar;

    open spec fn zero_spec() -> Self {
        (A::zero_spec(), B::zero_spec())
    }

    open spec fn add_spec(self, rhs: Self) -> Self {
        (self.0.add_spec(rhs.0), self.1.add_spec(rhs.1))
    }

    open spec fn scale_spec(self, factor: A::Scalar) -> Self {
        (self.0.scale_spec(factor), self.1.scale_spec(factor))
    }

    fn zero() -> (r: Self) {
        (A::zero(), B::zero())
    }

    fn add(&self, rhs: &Self) -> (r: Self) {
        (self.0.add(&rhs.0), self.1.add(&rhs.1))
    }

    fn scale(&self, factor: A::Scalar) -> (r: Self) {
        (self.0.scale(factor), self.1.scale(factor))
    }
}

} // verus!
