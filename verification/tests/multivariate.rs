use forward_ad::{Dual, Real, VectorSpace};

/// A double-precision scalar.
#[derive(Clone, Copy, Debug, PartialEq)]
struct F(f64);

// The functions whose names end in `_spec` name the operations for the
// verifier; nothing ever runs them.
impl VectorSpace for F {
    type Scalar = F;

    fn zero_spec() -> Self {
        unreachable!()
    }

    fn add_spec(self, _rhs: Self) -> Self {
        unreachable!()
    }

    fn scale_spec(self, _factor: F) -> Self {
        unreachable!()
    }

    fn zero() -> Self {
        F(0.0)
    }

    fn add(&self, rhs: &Self) -> Self {
        F(self.0 + rhs.0)
    }

    fn scale(&self, factor: F) -> Self {
        F(self.0 * factor.0)
    }
}

impl Real for F {
    fn neg(&self) -> Self {
        F(-self.0)
    }

    fn sin(&self) -> Self {
        F(self.0.sin())
    }

    fn cos(&self) -> Self {
        F(self.0.cos())
    }

    fn powi(&self, n: i32) -> Self {
        F(self.0.powi(n))
    }

    fn from_i32(n: i32) -> Self {
        F(f64::from(n))
    }
}

type Gradient = (F, F);

fn x_at(value: f64) -> Dual<Gradient> {
    Dual::new(F(value), (F(1.0), F(0.0)))
}

fn y_at(value: f64) -> Dual<Gradient> {
    Dual::new(F(value), (F(0.0), F(1.0)))
}

#[test]
fn pair_operations_act_on_each_slot() {
    let a: Gradient = (F(1.0), F(2.0));
    let b: Gradient = (F(10.0), F(20.0));
    assert_eq!(Gradient::zero(), (F(0.0), F(0.0)));
    assert_eq!(a.add(&b), (F(11.0), F(22.0)));
    assert_eq!(a.scale(F(3.0)), (F(3.0), F(6.0)));
}

#[test]
fn pairs_obey_the_laws_on_exact_values() {
    let a: Gradient = (F(1.5), F(-3.0));
    let b: Gradient = (F(0.25), F(7.0));
    let c: Gradient = (F(-2.0), F(0.5));
    let (k1, k2) = (F(0.5), F(4.0));
    assert_eq!(a.add(&b.add(&c)), a.add(&b).add(&c));
    assert_eq!(a.add(&b), b.add(&a));
    assert_eq!(a.add(&Gradient::zero()), a);
    assert_eq!(a.scale(F::from_i32(1)), a);
    assert_eq!(a.scale(k1).scale(k2), a.scale(k1.scale(k2)));
    assert_eq!(a.add(&b).scale(k1), a.scale(k1).add(&b.scale(k1)));
}

#[test]
fn constant_has_zero_gradient() {
    let c: Dual<Gradient> = Dual::constant(F(9.0));
    assert_eq!(c.primal, F(9.0));
    assert_eq!(c.tangent, (F(0.0), F(0.0)));
}

#[test]
fn polynomial_in_two_variables_has_both_partial_derivatives() {
    // g(x, y) = x * y + x * x + y
    // dg/dx = y + 2 x, dg/dy = x + 1
    let (x, y) = (x_at(3.0), y_at(4.0));
    let g = &x * &y + &x * &x + &y;
    assert_eq!(g.primal, F(25.0));
    assert_eq!(g.tangent, (F(10.0), F(4.0)));
}

#[test]
fn product_rule_with_different_tangents() {
    let a = Dual::new(F(3.0), (F(2.0), F(-1.0)));
    let b = Dual::new(F(5.0), (F(7.0), F(0.5)));
    let r = &a * &b;
    assert_eq!(r.primal, F(15.0));
    assert_eq!(r.tangent, (F(31.0), F(-3.5)));
    let expected = a.tangent.scale(b.primal).add(&b.tangent.scale(a.primal));
    assert_eq!(r.tangent, expected);
}

#[test]
fn all_forms_agree_on_gradients() {
    let a = || Dual::new(F(2.0), (F(1.0), F(0.0)));
    let b = || Dual::new(F(-3.0), (F(0.0), F(1.0)));
    let sum = a() + b();
    for r in [&a() + &b(), a() + &b(), &a() + b()] {
        assert_eq!(r.primal, sum.primal);
        assert_eq!(r.tangent, sum.tangent);
    }
    let product = a() * b();
    for r in [&a() * &b(), a() * &b(), &a() * b()] {
        assert_eq!(r.primal, product.primal);
        assert_eq!(r.tangent, product.tangent);
    }
    assert_eq!(sum.tangent, (F(1.0), F(1.0)));
    assert_eq!(product.tangent, (F(-3.0), F(2.0)));
}

#[test]
fn elementary_functions_scale_every_slot() {
    let x = 0.5_f64;
    let d = Dual::new(F(x), (F(2.0), F(-1.0)));
    assert_eq!(d.sin().tangent, (F(2.0 * x.cos()), F(-1.0 * x.cos())));
    assert_eq!(d.cos().tangent, (F(2.0 * -x.sin()), F(-1.0 * -x.sin())));
    assert_eq!(d.powi(3).tangent, (F(2.0 * (3.0 * x.powi(2))), F(-1.0 * (3.0 * x.powi(2)))));
}

#[test]
fn cubic_in_two_variables_through_powers() {
    // g(x, y) = x^3 * y^2: dg/dx = 3 x^2 y^2, dg/dy = 2 x^3 y
    let (x, y) = (x_at(2.0), y_at(3.0));
    let g = x.powi(3) * y.powi(2);
    assert_eq!(g.primal, F(72.0));
    assert_eq!(g.tangent, (F(108.0), F(48.0)));
}

#[test]
fn pairs_nest_for_three_variables() {
    // g(x, y, z) = x * y * z at (2, 3, 5)
    let x: Dual<((F, F), F)> = Dual::new(F(2.0), ((F(1.0), F(0.0)), F(0.0)));
    let y: Dual<((F, F), F)> = Dual::new(F(3.0), ((F(0.0), F(1.0)), F(0.0)));
    let z: Dual<((F, F), F)> = Dual::new(F(5.0), ((F(0.0), F(0.0)), F(1.0)));
    let g = x * y * z;
    assert_eq!(g.primal, F(30.0));
    assert_eq!(g.tangent, ((F(15.0), F(10.0)), F(6.0)));
}

#[test]
fn product_plus_a_factor_has_both_partial_derivatives() {
    // g(x, y) = x * y + x: dg/dx = y + 1, dg/dy = x
    for (px, py) in [(3.0, 4.0), (-2.5, 0.5), (0.0, 7.0), (1e6, -1e-3)] {
        let (x, y) = (x_at(px), y_at(py));
        let m = &x * &y;
        let r = &m + &x;
        assert_eq!(r.primal, F(px * py + px));
        assert_eq!(r.tangent, (F(py + 1.0), F(px)));
    }
}
