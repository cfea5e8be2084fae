//! The laws of the algebra, and what the rules of differentiation give
//! where they hold.
//!
//! Nothing in the executable code depends on these laws: a tangent space
//! whose arithmetic is only approximate can still be differentiated through.
//! Each theorem names the laws it rests on, and holds of every space that
//! obeys them.

use vstd::prelude::*;
use vstd::std_specs::ops::{AddSpec, MulSpec};
use crate::dual::Dual;
use crate::space::{cos_gives, from_i32_gives, neg_gives, powi_gives, sin_gives, Real, VectorSpace};

verus! {

/// Addition in `T` is associative.
#[verifier::opaque]
pub open spec fn add_is_associative<T: VectorSpace>() -> bool {
    forall|a: T, b: T, c: T| #[trigger] a.add_spec(b.add_spec(c)) == a.add_spec(b).add_spec(c)
}

/// Addition in `T` is commutative.
#[verifier::opaque]
pub open spec fn add_is_commutative<T: VectorSpace>() -> bool {
    forall|a: T, b: T| #[trigger] a.add_spec(b) == b.add_spec(a)
}

/// Adding zero changes nothing.
#[verifier::opaque]
pub open spec fn zero_is_neutral<T: VectorSpace>() -> bool {
    forall|a: T| #[trigger] a.add_spec(T::zero_spec()) == a
}

/// Scaling by `one` changes nothing.
#[verifier::opaque]
pub open spec fn is_unit<T: VectorSpace>(one: T::Scalar) -> bool {
    forall|a: T| #[trigger] a.scale_spec(one) == a
}

/// Scaling twice is scaling once by the product of the factors.
#[verifier::opaque]
pub open spec fn scale_composes<T: VectorSpace>() -> bool where T::Scalar: Real {
    forall|a: T, k1: T::Scalar, k2: T::Scalar| #[trigger]
        a.scale_spec(k1).scale_spec(k2) == a.scale_spec(k1.scale_spec(k2))
}

/// Scaling a sum is adding the scaled terms.
#[verifier::opaque]
pub open spec fn scale_distributes<T: VectorSpace>() -> bool {
    forall|a: T, b: T, k: T::Scalar| #[trigger]
        a.add_spec(b).scale_spec(k) == a.scale_spec(k).add_spec(b.scale_spec(k))
}

/// Scaling zero gives zero.
#[verifier::opaque]
pub open spec fn zero_stays_zero<T: VectorSpace>() -> bool {
    forall|k: T::Scalar| #[trigger] T::zero_spec().scale_spec(k) == T::zero_spec()
}

/// The laws of a vector space whose scalar one is `one`. Every tangent
/// space is meant to obey them.
pub open spec fn vector_space_laws<T: VectorSpace>(one: T::Scalar) -> bool where T::Scalar: Real {
    &&& add_is_associative::<T>()
    &&& add_is_commutative::<T>()
    &&& zero_is_neutral::<T>()
    &&& is_unit::<T>(one)
    &&& scale_composes::<T>()
    &&& scale_distributes::<T>()
}

/// The product of two scalars does not depend on their order.
#[verifier::opaque]
pub open spec fn product_is_commutative<S: Real>() -> bool {
    forall|a: S, b: S| #[trigger] a.scale_spec(b) == b.scale_spec(a)
}

/// Raising a scalar to the power one gives the scalar itself.
#[verifier::opaque]
pub open spec fn first_power_is_neutral<S: Real>() -> bool {
    forall|a: S, r: S| #[trigger] powi_gives(a, 1, r) ==> r == a
}

/// In a space that obeys the vector-space laws, sums can be regrouped and
/// reordered, zero and one are neutral, scaling twice is scaling by the
/// product, and scaling a sum is adding the scaled terms.
pub proof fn lemma_vector_space_laws<T: VectorSpace>(
    one: T::Scalar,
    a: T,
    b: T,
    c: T,
    k1: T::Scalar,
    k2: T::Scalar,
) where T::Scalar: Real
    requires
        vector_space_laws::<T>(one),
    ensures
        a.add_spec(b.add_spec(c)) == a.add_spec(b).add_spec(c),
        a.add_spec(b) == b.add_spec(a),
        a.add_spec(T::zero_spec()) == a,
        a.scale_spec(one) == a,
        a.scale_spec(k1).scale_spec(k2) == a.scale_spec(k1.scale_spec(k2)),
        a.add_spec(b).scale_spec(k1) == a.scale_spec(k1).add_spec(b.scale_spec(k1)),
{
    assert(a.add_spec(b.add_spec(c)) == a.add_spec(b).add_spec(c)) by {
        reveal(add_is_associative);
    }
    assert(a.add_spec(b) == b.add_spec(a)) by {
        reveal(add_is_commutative);
    }
    assert(a.add_spec(T::zero_spec()) == a) by {
        reveal(zero_is_neutral);
    }
    assert(a.scale_spec(one) == a) by {
        reveal(is_unit);
    }
    assert(a.scale_spec(k1).scale_spec(k2) == a.scale_spec(k1.scale_spec(k2))) by {
        reveal(scale_composes);
    }
    assert(a.add_spec(b).scale_spec(k1) == a.scale_spec(k1).add_spec(b.scale_spec(k1))) by {
        reveal(scale_distributes);
    }
}

/// Two spaces that obey the vector-space laws, put side by side, obey them
/// too.
pub proof fn lemma_pair_is_vector_space<A: VectorSpace, B: VectorSpace<Scalar = A::Scalar>>(
    one: A::Scalar,
) where A::Scalar: Real
    requires
        vector_space_laws::<A>(one),
        vector_space_laws::<B>(one),
    ensures
        vector_space_laws::<(A, B)>(one),
{
    assert(add_is_associative::<(A, B)>()) by {
        reveal(add_is_associative);
    }
    assert(add_is_commutative::<(A, B)>()) by {
        reveal(add_is_commutative);
    }
    assert(zero_is_neutral::<(A, B)>()) by {
        reveal(zero_is_neutral);
    }
    assert(is_unit::<(A, B)>(one)) by {
        reveal(is_unit);
    }
    assert(scale_composes::<(A, B)>()) by {
        reveal(scale_composes);
    }
    assert(scale_distributes::<(A, B)>()) by {
        reveal(scale_distributes);
    }
}

/// The product rule: where addition of tangents is commutative, the tangent
/// of a product is the tangent of the first factor scaled by the second
/// primal, plus the tangent of the second factor scaled by the first primal.
pub proof fn lemma_product_rule<T: VectorSpace>(a: Dual<T>, b: Dual<T>) where T::Scalar: Real
    requires
        add_is_commutative::<T>(),
    ensures
        a.product(b).primal == a.primal.scale_spec(b.primal),
        a.product(b).tangent == a.tangent.scale_spec(b.primal).add_spec(
            b.tangent.scale_spec(a.primal),
        ),
{
    reveal(add_is_commutative);
}

/// Whether an operand is owned or borrowed makes no difference: the four
/// forms of `+` name the same sum, and the four forms of `*` the same
/// product.
pub proof fn lemma_operand_forms_agree<T: VectorSpace>(a: Dual<T>, b: Dual<T>) where
    T::Scalar: Real,
    ensures
        a.add_spec(b) == a.sum(b),
        (&a).add_spec(&b) == a.sum(b),
        a.add_spec(&b) == a.sum(b),
        (&a).add_spec(b) == a.sum(b),
        a.mul_spec(b) == a.product(b),
        (&a).mul_spec(&b) == a.product(b),
        a.mul_spec(&b) == a.product(b),
        (&a).mul_spec(b) == a.product(b),
{
}

/// `r` is the polynomial `t * t + t + 1` at the dual `t`, computed with an
/// integer power, two additions and the constant `one`.
pub open spec fn is_quadratic_of<T: VectorSpace>(r: Dual<T>, t: Dual<T>, one: T::Scalar) -> bool where
    T::Scalar: Real,
{
    exists|square: Dual<T>| #[trigger]
        square.is_powi_of(t, 2) && r == square.sum(t).sum(Dual::constant_spec(one))
}

/// Differentiating `t * t + t + 1` at `t`, seeded with `one`, gives
/// `2 * t + 1`, where zero and `one` are neutral, the product of scalars is
/// commutative and the first power is neutral. The square and the two are
/// what the scalar's own power and conversion gave.
pub proof fn lemma_quadratic_derivative<S: Real>(t: S, one: S, r: Dual<S>)
    requires
        zero_is_neutral::<S>(),
        is_unit::<S>(one),
        product_is_commutative::<S>(),
        first_power_is_neutral::<S>(),
        is_quadratic_of(r, Dual::<S> { primal: t, tangent: one }, one),
    ensures
        exists|square: S, two: S|
            powi_gives(t, 2, square) && from_i32_gives(2, two)
                && r.primal == square.add_spec(t).add_spec(one)
                && r.tangent == two.scale_spec(t).add_spec(one),
{
    let seed = Dual::<S> { primal: t, tangent: one };
    let power = choose|power: Dual<S>| #[trigger]
        power.is_powi_of(seed, 2) && r == power.sum(seed).sum(Dual::constant_spec(one));
    let (square, two, first) = choose|square: S, two: S, first: S|
        powi_gives(t, 2, square) && from_i32_gives(2, two) && powi_gives(t, 1, first)
            && power == seed.chain_spec(square, two.scale_spec(first));
    assert(first == t) by {
        reveal(first_power_is_neutral);
    }
    let slope = two.scale_spec(t);
    lemma_unit_on_the_left(one, slope);
    assert(slope.add_spec(one).add_spec(S::zero_spec()) == slope.add_spec(one)) by {
        reveal(zero_is_neutral);
    }
    assert(powi_gives(t, 2, square) && from_i32_gives(2, two)
        && r.primal == square.add_spec(t).add_spec(one)
        && r.tangent == two.scale_spec(t).add_spec(one));
}

/// The chain rule for the sine at the seed: where `one` is neutral and the
/// product of scalars is commutative, a sine of `x` seeded with `one` has a
/// sine of `x` as its primal and a cosine of `x` as its tangent.
pub proof fn lemma_sin_derivative<S: Real>(x: S, one: S, r: Dual<S>)
    requires
        is_unit::<S>(one),
        product_is_commutative::<S>(),
        r.is_sin_of(Dual::<S> { primal: x, tangent: one }),
    ensures
        sin_gives(x, r.primal),
        cos_gives(x, r.tangent),
{
    let (s, c) = choose|s: S, c: S|
        sin_gives(x, s) && cos_gives(x, c)
            && r == (Dual::<S> { primal: x, tangent: one }).chain_spec(s, c);
    lemma_unit_on_the_left(one, c);
}

/// The chain rule for the cosine at the seed: where `one` is neutral and the
/// product of scalars is commutative, a cosine of `x` seeded with `one` has
/// a cosine of `x` as its primal and a negated sine of `x` as its tangent.
pub proof fn lemma_cos_derivative<S: Real>(x: S, one: S, r: Dual<S>)
    requires
        is_unit::<S>(one),
        product_is_commutative::<S>(),
        r.is_cos_of(Dual::<S> { primal: x, tangent: one }),
    ensures
        cos_gives(x, r.primal),
        exists|s: S| sin_gives(x, s) && neg_gives(s, r.tangent),
{
    let (c, s, m) = choose|c: S, s: S, m: S|
        cos_gives(x, c) && sin_gives(x, s) && neg_gives(s, m)
            && r == (Dual::<S> { primal: x, tangent: one }).chain_spec(c, m);
    lemma_unit_on_the_left(one, m);
    assert(sin_gives(x, s) && neg_gives(s, r.tangent));
}

/// Partial derivatives in two variables: differentiating `x * y + x` with
/// `x` seeded in the first slot of a pair and `y` in the second gives
/// `y + 1` in the first slot and `x` in the second, where addition of
/// scalars is commutative with zero neutral, the product of scalars is
/// commutative with `one` neutral, and scaling zero gives zero.
pub proof fn lemma_partial_derivatives<S: Real>(x: S, y: S, one: S)
    requires
        add_is_commutative::<S>(),
        zero_is_neutral::<S>(),
        is_unit::<S>(one),
        product_is_commutative::<S>(),
        zero_stays_zero::<S>(),
    ensures
        ({
            let dx = Dual::<(S, S)> { primal: x, tangent: (one, S::zero_spec()) };
            let dy = Dual::<(S, S)> { primal: y, tangent: (S::zero_spec(), one) };
            let r = dx.product(dy).sum(dx);
            &&& r.primal == x.scale_spec(y).add_spec(x)
            &&& r.tangent == (y.add_spec(one), x)
        }),
{
    let zero = S::zero_spec();
    lemma_unit_on_the_left(one, x);
    lemma_unit_on_the_left(one, y);
    assert(zero.scale_spec(x) == zero && zero.scale_spec(y) == zero) by {
        reveal(zero_stays_zero);
    }
    assert(zero.add_spec(y) == y) by {
        reveal(add_is_commutative);
        reveal(zero_is_neutral);
        assert(zero.add_spec(y) == y.add_spec(zero));
    }
    assert(x.add_spec(zero) == x) by {
        reveal(zero_is_neutral);
    }
}

/// Where the product of scalars is commutative, a scalar that is neutral as
/// a factor is neutral as the scalar that is scaled, too.
proof fn lemma_unit_on_the_left<S: Real>(one: S, k: S)
    requires
        is_unit::<S>(one),
        product_is_commutative::<S>(),
    ensures
        one.scale_spec(k) == k,
{
    reveal(is_unit);
    reveal(product_is_commutative);
    assert(one.scale_spec(k) == k.scale_spec(one));
}

} // verus!
