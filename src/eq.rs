//! Equality relations between ratios, dimension vectors and units.
use vstd::prelude::*;

verus! {

/// Equality of two ratios by cross-multiplication: `a / b == c / d` iff
/// `a * d == c * b`, so ratios that are not reduced still compare equal.
pub trait FractionEq<Rhs> {
    spec fn spec_ratio_equal(&self, rhs: &Rhs) -> bool;

    fn ratio_equal(&self, rhs: &Rhs) -> (r: bool)
        ensures
            r == self.spec_ratio_equal(rhs),
    ;
}

/// Equality of dimension vectors, component by component.
pub trait DimensionsEq<Rhs> {
    spec fn spec_dimensions_equal(&self, rhs: &Rhs) -> bool;

    fn dimensions_equal(&self, rhs: &Rhs) -> (r: bool)
        ensures
            r == self.spec_dimensions_equal(rhs),
    ;
}

/// Strict equality of units: equal dimensions and equal ratios.
pub trait UnitEq<Rhs> {
    spec fn spec_strict_equal(&self, rhs: &Rhs) -> bool;

    fn strict_equal(&self, rhs: &Rhs) -> (r: bool)
        ensures
            r == self.spec_strict_equal(rhs),
    ;
}

} // verus!
