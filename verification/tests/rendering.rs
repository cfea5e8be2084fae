use forward_ad::text::render_pair;
use forward_ad::{Dual, Real, Render, VectorSpace};

/// A double-precision scalar.
#[derive(Clone, Copy, Debug, PartialEq)]
struct F(f64);

// The functions whose names end in `_spec` name the operations for the
// verifier; nothing ever runs them.
impl VectorSpace for F {
    type Scalar = F;

    fn zero_spec() -> Self {
        unreachable!()
    }

    fn add_spec(self, _rhs: Self) -> Self {
        unreachable!()
    }

    fn scale_spec(self, _factor: F) -> Self {
        unreachable!()
    }

    fn zero() -> Self {
        F(0.0)
    }

    fn add(&self, rhs: &Self) -> Self {
        F(self.0 + rhs.0)
    }

    fn scale(&self, factor: F) -> Self {
        F(self.0 * factor.0)
    }
}

impl Real for F {
    fn neg(&self) -> Self {
        F(-self.0)
    }

    fn sin(&self) -> Self {
        F(self.0.sin())
    }

    fn cos(&self) -> Self {
        F(self.0.cos())
    }

    fn powi(&self, n: i32) -> Self {
        F(self.0.powi(n))
    }

    fn from_i32(n: i32) -> Self {
        F(f64::from(n))
    }
}

impl Render for F {
    fn render(&self) -> String {
        format!("{}", self.0)
    }
}

#[test]
fn pair_is_bracketed_and_comma_separated() {
    assert_eq!(render_pair("1", "2"), "(1, 2)");
    assert_eq!(render_pair("", ""), "(, )");
    assert_eq!(render_pair("a, b", "(c)"), "(a, b, (c))");
}

#[test]
fn dual_renders_primal_then_tangent() {
    let d = Dual::new(F(111.0), F(21.0));
    assert_eq!(d.render(), "(111, 21)");
    let d = Dual::new(F(-0.5), F(2.25));
    assert_eq!(d.render(), format!("({}, {})", -0.5, 2.25));
}

#[test]
fn special_values_render_as_their_type_writes_them() {
    let d = Dual::new(F(f64::INFINITY), F(f64::NAN));
    assert_eq!(d.render(), "(inf, NaN)");
}

#[test]
fn rendering_follows_a_computation() {
    let t = Dual::new(F(10.0), F(1.0));
    let r = t.powi(2) + &t + Dual::constant(F(1.0));
    assert_eq!(r.render(), "(111, 21)");
}
