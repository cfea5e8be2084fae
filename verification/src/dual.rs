//! The dual quantity: a primal value paired with its tangent.

use vstd::prelude::*;
use crate::space::{cos_gives, from_i32_gives, neg_gives, powi_gives, sin_gives, Real, VectorSpace};

verus! {

/// The exponent in the derivative factor of the `n`-th power: `n - 1`, and
/// the greatest `i32` where `n` is the least one, which is where `n - 1`
/// wraps round to.
pub open spec fn lowered_exponent(n: i32) -> i32 {
    if n > i32::MIN {
        (n - 1) as i32
    } else {
        i32::MAX
    }
}

/// A value together with its derivative.
///
/// The tangent lives in the space `T` chosen by the caller; no operation
/// changes that space, only the value in it.
#[derive(Debug)]
pub struct Dual<T: VectorSpace> {
    /// The value at the evaluation point.
    pub primal: T::Scalar,
    /// The derivative of that value.
    pub tangent: T,
}

impl<T: VectorSpace> Dual<T> where T::Scalar: Real {
    /// The dual of a value that does not depend on the differentiation
    /// variable: its tangent is the additive identity.
    pub open spec fn constant_spec(primal: T::Scalar) -> Self {
        Dual { primal, tangent: T::zero_spec() }
    }

    /// The chain rule: the dual whose primal is `primal` and whose tangent
    /// is the tangent of `self` scaled by `factor`.
    pub open spec fn chain_spec(self, primal: T::Scalar, factor: T::Scalar) -> Self {
        Dual { primal, tangent: self.tangent.scale_spec(factor) }
    }

    /// `self` is a sine of `x`: its primal is a sine of the primal of `x`,
    /// and its tangent is the tangent of `x` scaled by a cosine of that
    /// primal.
    pub open spec fn is_sin_of(self, x: Self) -> bool {
        exists|s: T::Scalar, c: T::Scalar|
            sin_gives(x.primal, s) && cos_gives(x.primal, c) && self == x.chain_spec(s, c)
    }

    /// `self` is a cosine of `x`: its primal is a cosine of the primal of
    /// `x`, and its tangent is the tangent of `x` scaled by a negated sine
    /// of that primal.
    pub open spec fn is_cos_of(self, x: Self) -> bool {
        exists|c: T::Scalar, s: T::Scalar, m: T::Scalar|
            cos_gives(x.primal, c) && sin_gives(x.primal, s) && neg_gives(s, m) && self
                == x.chain_spec(c, m)
    }

    /// `self` is `x` raised to the integer power `n`: its primal is an
    /// `n`-th power of the primal of `x`, and its tangent is the tangent of
    /// `x` scaled by `n` times a power of that primal with the exponent
    /// lowered by one.
    pub open spec fn is_powi_of(self, x: Self, n: i32) -> bool {
        exists|p: T::Scalar, k: T::Scalar, q: T::Scalar|
            powi_gives(x.primal, n, p) && from_i32_gives(n, k)
                && powi_gives(x.primal, lowered_exponent(n), q)
                && self == x.chain_spec(p, k.scale_spec(q))
    }

    /// The sum of two duals: primals and tangents are added.
    pub open spec fn sum(self, rhs: Self) -> Self {
        Dual {
            primal: self.primal.add_spec(rhs.primal),
            tangent: self.tangent.add_spec(rhs.tangent),
        }
    }

    /// The product of two duals: the primals are multiplied, and the tangent
    /// follows the product rule.
    pub open spec fn product(self, rhs: Self) -> Self {
        Dual {
            primal: self.primal.scale_spec(rhs.primal),
            tangent: rhs.tangent.scale_spec(self.primal).add_spec(
                self.tangent.scale_spec(rhs.primal),
            ),
        }
    }

    /// Builds a value that carries no derivative.
    pub fn constant(primal: T::Scalar) -> (r: Self)
        ensures
            r == Self::constant_spec(primal),
            r.tangent == T::zero_spec(),
    {
        Dual { primal, tangent: T::zero() }
    }

    /// Builds a value with the given derivative.
    pub fn new(primal: T::Scalar, tangent: T) -> (r: Self)
        ensures
            r.primal == primal,
            r.tangent == tangent,
    {
        Dual { primal, tangent }
    }

    /// Applies the chain rule for an outer function whose value at the
    /// primal is `primal` and whose derivative there is `factor`.
    pub fn chain(&self, primal: T::Scalar, factor: T::Scalar) -> (r: Self)
        ensures
            r == self.chain_spec(primal, factor),
    {
        Dual::new(primal, self.tangent.scale(factor))
    }

    /// Returns the sine of `self`.
    pub fn sin(&self) -> (r: Self)
        ensures
            r.is_sin_of(*self),
    {
        self.chain(self.primal.sin(), self.primal.cos())
    }

    /// Returns the cosine of `self`.
    pub fn cos(&self) -> (r: Self)
        ensures
            r.is_cos_of(*self),
    {
        let c = self.primal.cos();
        let s = self.primal.sin();
        let m = s.neg();
        assert(cos_gives(self.primal, c) && sin_gives(self.primal, s) && neg_gives(s, m));
        self.chain(c, m)
    }

    /// Returns `self` raised to the integer power `n`.
    ///
    /// The derivative factor is computed as `n` times the primal raised to
    /// the lowered exponent for every `n`, zero included; nothing is
    /// special-cased at a zero primal. At the least `i32` the lowered
    /// exponent is the greatest `i32`.
    pub fn powi(&self, n: i32) -> (r: Self)
        ensures
            r.is_powi_of(*self, n),
    {
        let lowered: i32 = if n > i32::MIN {
            n - 1
        } else {
            i32::MAX
        };
        self.chain(self.primal.powi(n), T::Scalar::from_i32(n).scale(self.primal.powi(lowered)))
    }

    /// The one rule of addition, which every form of `+` applies.
    pub(crate) fn add_impl(&self, rhs: &Dual<T>) -> (r: Dual<T>)
        ensures
            r == self.sum(*rhs),
    {
        Dual::new(self.primal.add(&rhs.primal), self.tangent.add(&rhs.tangent))
    }

    /// The one rule of multiplication, which every form of `*` applies.
    pub(crate) fn mul_impl(&self, rhs: &Dual<T>) -> (r: Dual<T>)
        ensures
            r == self.product(*rhs),
    {
        Dual::new(
            self.primal.scale(rhs.primal),
            rhs.tangent.scale(self.primal).add(&self.tangent.scale(rhs.primal)),
        )
    }
}

} // verus!
