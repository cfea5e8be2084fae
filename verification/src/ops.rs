//! The operators `+` and `*` on dual quantities.
//!
//! Each operator is offered for every combination of owned and borrowed
//! operands, so that expressions can be chained whichever way the operands
//! are held. All four forms of an operator apply the same rule and give the
//! same dual.

use vstd::prelude::*;
use vstd::std_specs::ops::{AddSpecImpl, MulSpecImpl};
use core::ops::{Add, Mul};
use crate::dual::Dual;
use crate::space::{Real, VectorSpace};

verus! {

/// `+` for an owned dual plus an owned dual.
impl<T: VectorSpace> Add for Dual<T> where T::Scalar: Real {
    type Output = Dual<T>;

    fn add(self, rhs: Self) -> (r: Dual<T>)
        ensures
            r == self.sum(rhs),
    {
        self.add_impl(&rhs)
    }
}

impl<T: VectorSpace> AddSpecImpl for Dual<T> where T::Scalar: Real {
    open spec fn obeys_add_spec() -> bool {
        true
    }

    open spec fn add_req(self, rhs: Self) -> bool {
        true
    }

    open spec fn add_spec(self, rhs: Self) -> Dual<T> {
        self.sum(rhs)
    }
}

/// `+` for a borrowed dual plus a borrowed dual.
impl<'a, T: VectorSpace> Add for &'a Dual<T> where T::Scalar: Real {
    type Output = Dual<T>;

    fn add(self, rhs: Self) -> (r: Dual<T>)
        ensures
            r == self.sum(*rhs),
    {
        self.add_impl(rhs)
    }
}

impl<'a, T: VectorSpace> AddSpecImpl for &'a Dual<T> where T::Scalar: Real {
    open spec fn obeys_add_spec() -> bool {
        true
    }

    open spec fn add_req(self, rhs: Self) -> bool {
        true
    }

    open spec fn add_spec(self, rhs: Self) -> Dual<T> {
        self.sum(*rhs)
    }
}

/// `+` for an owned dual plus a borrowed dual.
impl<'a, T: VectorSpace> Add<&'a Dual<T>> for Dual<T> where T::Scalar: Real {
    type Output = Dual<T>;

    fn add(self, rhs: &'a Dual<T>) -> (r: Dual<T>)
        ensures
            r == self.sum(*rhs),
    {
        self.add_impl(rhs)
    }
}

impl<'a, T: VectorSpace> AddSpecImpl<&'a Dual<T>> for Dual<T> where T::Scalar: Real {
    open spec fn obeys_add_spec() -> bool {
        true
    }

    open spec fn add_req(self, rhs: &'a Dual<T>) -> bool {
        true
    }

    open spec fn add_spec(self, rhs: &'a Dual<T>) -> Dual<T> {
        self.sum(*rhs)
    }
}

/// `+` for a borrowed dual plus an owned dual.
impl<'a, T: VectorSpace> Add<Dual<T>> for &'a Dual<T> where T::Scalar: Real {
    type Output = Dual<T>;

    fn add(self, rhs: Dual<T>) -> (r: Dual<T>)
        ensures
            r == self.sum(rhs),
    {
        self.add_impl(&rhs)
    }
}

impl<'a, T: VectorSpace> AddSpecImpl<Dual<T>> for &'a Dual<T> where T::Scalar: Real {
    open spec fn obeys_add_spec() -> bool {
        true
    }

    open spec fn add_req(self, rhs: Dual<T>) -> bool {
        true
    }

    open spec fn add_spec(self, rhs: Dual<T>) -> Dual<T> {
        self.sum(rhs)
    }
}

/// `*` for an owned dual times an owned dual.
impl<T: VectorSpace> Mul for Dual<T> where T::Scalar: Real {
    type Output = Dual<T>;

    fn mul(self, rhs: Self) -> (r: Dual<T>)
        ensures
            r == self.product(rhs),
    {
        self.mul_impl(&rhs)
    }
}

impl<T: VectorSpace> MulSpecImpl for Dual<T> where T::Scalar: Real {
    open spec fn obeys_mul_spec() -> bool {
        true
    }

    open spec fn mul_req(self, rhs: Self) -> bool {
        true
    }

    open spec fn mul_spec(self, rhs: Self) -> Dual<T> {
        self.product(rhs)
    }
}

/// `*` for a borrowed dual times a borrowed dual.
impl<'a, T: VectorSpace> Mul for &'a Dual<T> where T::Scalar: Real {
    type Output = Dual<T>;

    fn mul(self, rhs: Self) -> (r: Dual<T>)
        ensures
            r == self.product(*rhs),
    {
        self.mul_impl(rhs)
    }
}

impl<'a, T: VectorSpace> MulSpecImpl for &'a Dual<T> where T::Scalar: Real {
    open spec fn obeys_mul_spec() -> bool {
        true
    }

    open spec fn mul_req(self, rhs: Self) -> bool {
        true
    }

    open spec fn mul_spec(self, rhs: Self) -> Dual<T> {
        self.product(*rhs)
    }
}

/// `*` for an owned dual times a borrowed dual.
impl<'a, T: VectorSpace> Mul<&'a Dual<T>> for Dual<T> where T::Scalar: Real {
    type Output = Dual<T>;

    fn mul(self, rhs: &'a Dual<T>) -> (r: Dual<T>)
        ensures
            r == self.product(*rhs),
    {
        self.mul_impl(rhs)
    }
}

impl<'a, T: VectorSpace> MulSpecImpl<&'a Dual<T>> for Dual<T> where T::Scalar: Real {
    open spec fn obeys_mul_spec() -> bool {
        true
    }

    open spec fn mul_req(self, rhs: &'a Dual<T>) -> bool {
        true
    }

    open spec fn mul_spec(self, rhs: &'a Dual<T>) -> Dual<T> {
        self.product(*rhs)
    }
}

/// `*` for a borrowed dual times an owned dual.
impl<'a, T: VectorSpace> Mul<Dual<T>> for &'a Dual<T> where T::Scalar: Real {
    type Output = Dual<T>;

    fn mul(self, rhs: Dual<T>) -> (r: Dual<T>)
        ensures
            r == self.product(rhs),
    {
        self.mul_impl(&rhs)
    }
}

impl<'a, T: VectorSpace> MulSpecImpl<Dual<T>> for &'a Dual<T> where T::Scalar: Real {
    open spec fn obeys_mul_spec() -> bool {
        true
    }

    open spec fn mul_req(self, rhs: Dual<T>) -> bool {
        true
    }

    open spec fn mul_spec(self, rhs: Dual<T>) -> Dual<T> {
        self.product(rhs)
    }
}

} // verus!
