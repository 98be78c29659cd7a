//! Units: a dimension vector together with a scale ratio, and the algebra
//! that combines them.
use vstd::prelude::*;

use crate::dimensions::{dims_add, dims_fit, dims_sub, Dimensions};
use crate::eq::{DimensionsEq, FractionEq, UnitEq};
use crate::fraction::{ratio_div, ratio_equal, ratio_fits, ratio_mul, Fraction, Ratio};

verus! {

/// A unit as the specifications see it: seven exponents and a ratio.
pub struct UnitValue {
    pub dims: Seq<int>,
    pub ratio: Ratio,
}

/// The dimensionless unit with ratio `1 / 1`.
pub open spec fn identity_unit() -> UnitValue {
    UnitValue { dims: Seq::new(7, |i: int| 0int), ratio: Ratio { num: 1, den: 1 } }
}

/// Product of units: exponents add, ratios multiply.
pub open spec fn unit_mul(a: UnitValue, b: UnitValue) -> UnitValue {
    UnitValue { dims: dims_add(a.dims, b.dims), ratio: ratio_mul(a.ratio, b.ratio) }
}

/// Quotient of units: exponents subtract, ratios divide.
pub open spec fn unit_div(a: UnitValue, b: UnitValue) -> UnitValue {
    UnitValue { dims: dims_sub(a.dims, b.dims), ratio: ratio_div(a.ratio, b.ratio) }
}

/// Equal dimensions and ratios equal by cross-multiplication.
pub open spec fn unit_strict_equal(a: UnitValue, b: UnitValue) -> bool {
    a.dims == b.dims && ratio_equal(a.ratio, b.ratio)
}

/// The unit can be held by a `Unit`: exponents fit in `i32`, ratio terms in `u64`.
pub open spec fn unit_fits(a: UnitValue) -> bool {
    dims_fit(a.dims) && ratio_fits(a.ratio)
}

/// A unit: its shape ([`Dimensions`]) and its size relative to the coherent
/// SI unit of that shape ([`Fraction`]). Kilometre per hour is
/// `(1, 0, -1, 0, 0, 0, 0)` with ratio `1000 / 3600`.
#[derive(Clone, Copy, Debug)]
pub struct Unit {
    pub dimensions: Dimensions,
    pub ratio: Fraction,
}

impl View for Unit {
    type V = UnitValue;

    open spec fn view(&self) -> UnitValue {
        UnitValue { dims: self.dimensions@, ratio: self.ratio@ }
    }
}

impl Unit {
    /// The unit with the given dimensions and ratio.
    pub fn new(dimensions: Dimensions, ratio: Fraction) -> (r: Unit)
        ensures
            r.dimensions == dimensions,
            r.ratio == ratio,
    {
        Unit { dimensions, ratio }
    }

    /// The dimensionless unit with ratio `1 / 1`, the starting point of
    /// every product of units.
    pub fn dimensionless() -> (r: Unit)
        ensures
            r@ == identity_unit(),
    {
        Unit { dimensions: Dimensions::zero(), ratio: Fraction::one() }
    }

    /// Product of two units: exponents add, ratios multiply.
    pub fn mul(self, rhs: Unit) -> (r: Unit)
        requires
            unit_fits(unit_mul(self@, rhs@)),
        ensures
            r@ == unit_mul(self@, rhs@),
    {
        Unit { dimensions: self.dimensions.mul(rhs.dimensions), ratio: self.ratio.mul(rhs.ratio) }
    }

    /// Quotient of two units: exponents subtract, ratios divide.
    pub fn div(self, rhs: Unit) -> (r: Unit)
        requires
            unit_fits(unit_div(self@, rhs@)),
        ensures
            r@ == unit_div(self@, rhs@),
    {
        Unit { dimensions: self.dimensions.div(rhs.dimensions), ratio: self.ratio.div(rhs.ratio) }
    }

    /// Product of two units, or `None` where it cannot be held by a `Unit`.
    pub fn checked_mul(self, rhs: Unit) -> (r: Option<Unit>)
        ensures
            r is Some <==> unit_fits(unit_mul(self@, rhs@)),
            r is Some ==> r->0@ == unit_mul(self@, rhs@),
    {
        if !self.dimensions.can_mul(rhs.dimensions) {
            return None;
        }
        match self.ratio.checked_mul(rhs.ratio) {
            Some(ratio) => Some(Unit { dimensions: self.dimensions.mul(rhs.dimensions), ratio }),
            None => None,
        }
    }

    /// Quotient of two units, or `None` where it cannot be held by a `Unit`.
    pub fn checked_div(self, rhs: Unit) -> (r: Option<Unit>)
        ensures
            r is Some <==> unit_fits(unit_div(self@, rhs@)),
            r is Some ==> r->0@ == unit_div(self@, rhs@),
    {
        if !self.dimensions.can_div(rhs.dimensions) {
            return None;
        }
        match self.ratio.checked_div(rhs.ratio) {
            Some(ratio) => Some(Unit { dimensions: self.dimensions.div(rhs.dimensions), ratio }),
            None => None,
        }
    }
}

impl DimensionsEq<Unit> for Unit {
    /// Units with the same shape, whatever their ratios: the condition for
    /// converting between them.
    open spec fn spec_dimensions_equal(&self, rhs: &Unit) -> bool {
        self@.dims == rhs@.dims
    }

    fn dimensions_equal(&self, rhs: &Unit) -> (r: bool) {
        self.dimensions.dimensions_equal(&rhs.dimensions)
    }
}

impl UnitEq<Unit> for Unit {
    /// Same dimensions and ratios equal by cross-multiplication (`2 / 4`
    /// equals `1 / 2`): the condition for adding quantities.
    open spec fn spec_strict_equal(&self, rhs: &Unit) -> bool {
        unit_strict_equal(self@, rhs@)
    }

    fn strict_equal(&self, rhs: &Unit) -> (r: bool) {
        self.dimensions.dimensions_equal(&rhs.dimensions) && self.ratio.ratio_equal(&rhs.ratio)
    }
}

/// Multiplication of units is associative in the dimensions: for all units
/// `a`, `b`, `c`, `(a * b) * c` has the dimensions of `a * (b * c)`.
pub proof fn lemma_dimension_additivity(a: Unit, b: Unit, c: Unit)
    ensures
        unit_mul(unit_mul(a@, b@), c@).dims == unit_mul(a@, unit_mul(b@, c@)).dims,
{
    assert(unit_mul(unit_mul(a@, b@), c@).dims =~= unit_mul(a@, unit_mul(b@, c@)).dims);
}

/// Dividing a unit by itself gives the identity: for every unit `u`, `u / u`
/// has the dimensions of the dimensionless unit and is strictly equal to it
/// (its ratio `(n * d) / (d * n)` equals `1 / 1`).
pub proof fn lemma_inverse_roundtrip(u: Unit)
    ensures
        unit_div(u@, u@).dims == identity_unit().dims,
        unit_strict_equal(unit_div(u@, u@), identity_unit()),
{
    assert(unit_div(u@, u@).dims =~= identity_unit().dims);
    let r = u@.ratio;
    assert(r.num * r.den * 1 == 1 * (r.den * r.num)) by (nonlinear_arith);
}

} // verus!
