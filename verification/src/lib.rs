//! Forward-mode automatic differentiation.
//!
//! A [`Dual`] pairs a value with its derivative and carries both through
//! sums, products and elementary functions, so that one evaluation of an
//! expression yields its value and its derivative together. The derivative
//! lives in a [`VectorSpace`] of the caller's choice: a scalar for one
//! variable, a pair of tangents for two.

pub mod space;
pub mod dual;
pub mod ops;
pub mod laws;
pub mod text;

pub use crate::dual::Dual;
pub use crate::space::{Real, VectorSpace};
pub use crate::text::Render;
