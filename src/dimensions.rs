//! Exponent vectors over the seven SI base quantities.
use vstd::prelude::*;

use crate::eq::DimensionsEq;

verus! {

/// Component-wise sum: the dimensions of a product of units.
pub open spec fn dims_add(a: Seq<int>, b: Seq<int>) -> Seq<int> {
    Seq::new(7, |i: int| a[i] + b[i])
}

/// Component-wise difference: the dimensions of a quotient of units.
pub open spec fn dims_sub(a: Seq<int>, b: Seq<int>) -> Seq<int> {
    Seq::new(7, |i: int| a[i] - b[i])
}

/// Every component fits in an `i32`.
pub open spec fn dims_fit(a: Seq<int>) -> bool {
    &&& i32::MIN <= a[0] <= i32::MAX
    &&& i32::MIN <= a[1] <= i32::MAX
    &&& i32::MIN <= a[2] <= i32::MAX
    &&& i32::MIN <= a[3] <= i32::MAX
    &&& i32::MIN <= a[4] <= i32::MAX
    &&& i32::MIN <= a[5] <= i32::MAX
    &&& i32::MIN <= a[6] <= i32::MAX
}

/// Exponents of a unit's base quantities, in this order: length (metre),
/// mass (kilogram), time (second), electric current (ampere),
/// thermodynamic temperature (kelvin), amount of substance (mole) and
/// luminous intensity (candela). `m / s` is `(1, 0, -1, 0, 0, 0, 0)`.
#[derive(Clone, Copy, Debug, PartialEq, Eq, Structural)]
pub struct Dimensions {
    pub length: i32,
    pub mass: i32,
    pub time: i32,
    pub electric_current: i32,
    pub thermodynamic_temperature: i32,
    pub amount_of_substance: i32,
    pub luminous_intensity: i32,
}

impl View for Dimensions {
    type V = Seq<int>;

    open spec fn view(&self) -> Seq<int> {
        seq![
            self.length as int,
            self.mass as int,
            self.time as int,
            self.electric_current as int,
            self.thermodynamic_temperature as int,
            self.amount_of_substance as int,
            self.luminous_intensity as int,
        ]
    }
}

impl Dimensions {
    /// Dimensions with the given exponents, in the order of the fields.
    pub fn new(
        length: i32,
        mass: i32,
        time: i32,
        electric_current: i32,
        thermodynamic_temperature: i32,
        amount_of_substance: i32,
        luminous_intensity: i32,
    ) -> (r: Dimensions)
        ensures
            r@ == seq![
                length as int,
                mass as int,
                time as int,
                electric_current as int,
                thermodynamic_temperature as int,
                amount_of_substance as int,
                luminous_intensity as int,
            ],
    {
        Dimensions {
            length,
            mass,
            time,
            electric_current,
            thermodynamic_temperature,
            amount_of_substance,
            luminous_intensity,
        }
    }

    /// All exponents zero.
    pub fn zero() -> (r: Dimensions)
        ensures
            r@ == Seq::new(7, |i: int| 0int),
    {
        let r = Dimensions::new(0, 0, 0, 0, 0, 0, 0);
        assert(r@ =~= Seq::new(7, |i: int| 0int));
        r
    }

    /// Adds exponents: the dimensions of the product of two units.
    pub fn mul(self, rhs: Dimensions) -> (r: Dimensions)
        requires
            dims_fit(dims_add(self@, rhs@)),
        ensures
            r@ == dims_add(self@, rhs@),
    {
        let ghost s = dims_add(self@, rhs@);
        let r = Dimensions {
            length: self.length + rhs.length,
            mass: self.mass + rhs.mass,
            time: self.time + rhs.time,
            electric_current: self.electric_current + rhs.electric_current,
            thermodynamic_temperature: self.thermodynamic_temperature
                + rhs.thermodynamic_temperature,
            amount_of_substance: self.amount_of_substance + rhs.amount_of_substance,
            luminous_intensity: self.luminous_intensity + rhs.luminous_intensity,
        };
        assert(r@ =~= s);
        r
    }

    /// Subtracts exponents: the dimensions of the quotient of two units.
    pub fn div(self, rhs: Dimensions) -> (r: Dimensions)
        requires
            dims_fit(dims_sub(self@, rhs@)),
        ensures
            r@ == dims_sub(self@, rhs@),
    {
        let ghost s = dims_sub(self@, rhs@);
        let r = Dimensions {
            length: self.length - rhs.length,
            mass: self.mass - rhs.mass,
            time: self.time - rhs.time,
            electric_current: self.electric_current - rhs.electric_current,
            thermodynamic_temperature: self.thermodynamic_temperature
                - rhs.thermodynamic_temperature,
            amount_of_substance: self.amount_of_substance - rhs.amount_of_substance,
            luminous_intensity: self.luminous_intensity - rhs.luminous_intensity,
        };
        assert(r@ =~= s);
        r
    }

    /// Whether the sum of the exponents fits, that is whether `mul` may be
    /// called.
    pub fn can_mul(self, rhs: Dimensions) -> (r: bool)
        ensures
            r == dims_fit(dims_add(self@, rhs@)),
    {
        let r = self.length.checked_add(rhs.length).is_some()
            && self.mass.checked_add(rhs.mass).is_some()
            && self.time.checked_add(rhs.time).is_some()
            && self.electric_current.checked_add(rhs.electric_current).is_some()
            && self.thermodynamic_temperature.checked_add(rhs.thermodynamic_temperature).is_some()
            && self.amount_of_substance.checked_add(rhs.amount_of_substance).is_some()
            && self.luminous_intensity.checked_add(rhs.luminous_intensity).is_some();
        r
    }

    /// Whether the difference of the exponents fits, that is whether `div`
    /// may be called.
    pub fn can_div(self, rhs: Dimensions) -> (r: bool)
        ensures
            r == dims_fit(dims_sub(self@, rhs@)),
    {
        let r = self.length.checked_sub(rhs.length).is_some()
            && self.mass.checked_sub(rhs.mass).is_some()
            && self.time.checked_sub(rhs.time).is_some()
            && self.electric_current.checked_sub(rhs.electric_current).is_some()
            && self.thermodynamic_temperature.checked_sub(rhs.thermodynamic_temperature).is_some()
            && self.amount_of_substance.checked_sub(rhs.amount_of_substance).is_some()
            && self.luminous_intensity.checked_sub(rhs.luminous_intensity).is_some();
        r
    }
}

impl DimensionsEq<Dimensions> for Dimensions {
    open spec fn spec_dimensions_equal(&self, rhs: &Dimensions) -> bool {
        self@ == rhs@
    }

    fn dimensions_equal(&self, rhs: &Dimensions) -> (r: bool) {
        let r = self.length == rhs.length && self.mass == rhs.mass && self.time == rhs.time
            && self.electric_current == rhs.electric_current
            && self.thermodynamic_temperature == rhs.thermodynamic_temperature
            && self.amount_of_substance == rhs.amount_of_substance
            && self.luminous_intensity == rhs.luminous_intensity;
        assert(r ==> self@ =~= rhs@);
        assert(self@ == rhs@ ==> (self@[0] == rhs@[0] && self@[1] == rhs@[1] && self@[2]
            == rhs@[2] && self@[3] == rhs@[3] && self@[4] == rhs@[4] && self@[5] == rhs@[5]
            && self@[6] == rhs@[6]));
        r
    }
}

} // verus!
