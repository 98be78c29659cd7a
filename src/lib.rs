//! Dimensional analysis of physical quantities.
//!
//! A [`Unit`] is a vector of seven exponents over the SI base quantities
//! together with a rational scale relative to the coherent SI unit. A
//! [`Quantity`] pairs a storage value with a unit; arithmetic on quantities
//! derives the result unit through the unit algebra and refuses to mix units
//! that do not agree.
//!
//! Units are values carried at run time rather than type-level markers, so a
//! unit mismatch is reported as an error value instead of being rejected by
//! the type checker.

pub mod checked;
pub mod dimensions;
pub mod eq;
pub mod expr;
pub mod fraction;
pub mod gcd;
pub mod prefixes;
pub mod quantity;
pub mod render;
pub mod simplify;
pub mod text;
pub mod unit;
pub mod units;

pub use crate::checked::{CheckedAdd, CheckedDiv, CheckedMul, CheckedSub};
pub use crate::dimensions::Dimensions;
pub use crate::eq::{DimensionsEq, FractionEq, UnitEq};
pub use crate::expr::{compile, CompileError, Token};
pub use crate::fraction::Fraction;
pub use crate::gcd::gcd;
pub use crate::quantity::{Quantity, QuantityError};
pub use crate::simplify::Simplify;
pub use crate::unit::Unit;
