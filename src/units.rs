//! Named units, built as canonical values.
use vstd::prelude::*;

use crate::dimensions::Dimensions;
use crate::fraction::{Fraction, Ratio};
use crate::unit::{Unit, UnitValue};

verus! {

/// The unit with exponents `(l, m, t, i, o, n, j)` and ratio `num / den`.
pub open spec fn unit_value(
    l: int,
    m: int,
    t: int,
    i: int,
    o: int,
    n: int,
    j: int,
    num: nat,
    den: nat,
) -> UnitValue {
    UnitValue { dims: seq![l, m, t, i, o, n, j], ratio: Ratio { num, den } }
}

/// Dimensionless, a plain number.
pub fn dimensionless() -> (r: Unit)
    ensures
        r@ == unit_value(0, 0, 0, 0, 0, 0, 0, 1, 1),
{
    Unit::new(Dimensions::new(0, 0, 0, 0, 0, 0, 0), Fraction::new(1, 1))
}

/// Metre, `m`: length.
pub fn metre() -> (r: Unit)
    ensures
        r@ == unit_value(1, 0, 0, 0, 0, 0, 0, 1, 1),
{
    Unit::new(Dimensions::new(1, 0, 0, 0, 0, 0, 0), Fraction::new(1, 1))
}

/// Kilogram, `kg`: mass.
pub fn kilogram() -> (r: Unit)
    ensures
        r@ == unit_value(0, 1, 0, 0, 0, 0, 0, 1, 1),
{
    Unit::new(Dimensions::new(0, 1, 0, 0, 0, 0, 0), Fraction::new(1, 1))
}

/// Second, `s`: time.
pub fn second() -> (r: Unit)
    ensures
        r@ == unit_value(0, 0, 1, 0, 0, 0, 0, 1, 1),
{
    Unit::new(Dimensions::new(0, 0, 1, 0, 0, 0, 0), Fraction::new(1, 1))
}

/// Ampere, `A`: electric current.
pub fn ampere() -> (r: Unit)
    ensures
        r@ == unit_value(0, 0, 0, 1, 0, 0, 0, 1, 1),
{
    Unit::new(Dimensions::new(0, 0, 0, 1, 0, 0, 0), Fraction::new(1, 1))
}

/// Kelvin, `K`: thermodynamic temperature.
pub fn kelvin() -> (r: Unit)
    ensures
        r@ == unit_value(0, 0, 0, 0, 1, 0, 0, 1, 1),
{
    Unit::new(Dimensions::new(0, 0, 0, 0, 1, 0, 0), Fraction::new(1, 1))
}

/// Mole, `mol`: amount of substance.
pub fn mole() -> (r: Unit)
    ensures
        r@ == unit_value(0, 0, 0, 0, 0, 1, 0, 1, 1),
{
    Unit::new(Dimensions::new(0, 0, 0, 0, 0, 1, 0), Fraction::new(1, 1))
}

/// Candela, `cd`: luminous intensity.
pub fn candela() -> (r: Unit)
    ensures
        r@ == unit_value(0, 0, 0, 0, 0, 0, 1, 1, 1),
{
    Unit::new(Dimensions::new(0, 0, 0, 0, 0, 0, 1), Fraction::new(1, 1))
}

/// Hertz, `Hz`: `1 / s`.
pub fn hertz() -> (r: Unit)
    ensures
        r@ == unit_value(0, 0, -1, 0, 0, 0, 0, 1, 1),
{
    Unit::new(Dimensions::new(0, 0, -1, 0, 0, 0, 0), Fraction::new(1, 1))
}

/// Newton, `N`: `kg * m / s^2`.
pub fn newton() -> (r: Unit)
    ensures
        r@ == unit_value(1, 1, -2, 0, 0, 0, 0, 1, 1),
{
    Unit::new(Dimensions::new(1, 1, -2, 0, 0, 0, 0), Fraction::new(1, 1))
}

/// Pascal, `Pa`: `kg / m / s^2`.
pub fn pascal() -> (r: Unit)
    ensures
        r@ == unit_value(-1, 1, -2, 0, 0, 0, 0, 1, 1),
{
    Unit::new(Dimensions::new(-1, 1, -2, 0, 0, 0, 0), Fraction::new(1, 1))
}

/// Joule, `J`: `kg * m^2 / s^2`.
pub fn joule() -> (r: Unit)
    ensures
        r@ == unit_value(2, 1, -2, 0, 0, 0, 0, 1, 1),
{
    Unit::new(Dimensions::new(2, 1, -2, 0, 0, 0, 0), Fraction::new(1, 1))
}

/// Watt, `W`: `kg * m^2 / s^3`.
pub fn watt() -> (r: Unit)
    ensures
        r@ == unit_value(2, 1, -3, 0, 0, 0, 0, 1, 1),
{
    Unit::new(Dimensions::new(2, 1, -3, 0, 0, 0, 0), Fraction::new(1, 1))
}

/// Square metre, `m^2`.
pub fn square_metre() -> (r: Unit)
    ensures
        r@ == unit_value(2, 0, 0, 0, 0, 0, 0, 1, 1),
{
    Unit::new(Dimensions::new(2, 0, 0, 0, 0, 0, 0), Fraction::new(1, 1))
}

/// Cubic metre, `m^3`.
pub fn cubic_metre() -> (r: Unit)
    ensures
        r@ == unit_value(3, 0, 0, 0, 0, 0, 0, 1, 1),
{
    Unit::new(Dimensions::new(3, 0, 0, 0, 0, 0, 0), Fraction::new(1, 1))
}

/// Metre per second, `m/s`.
pub fn metre_per_second() -> (r: Unit)
    ensures
        r@ == unit_value(1, 0, -1, 0, 0, 0, 0, 1, 1),
{
    Unit::new(Dimensions::new(1, 0, -1, 0, 0, 0, 0), Fraction::new(1, 1))
}

/// Minute, `min`: 60 seconds.
pub fn minute() -> (r: Unit)
    ensures
        r@ == unit_value(0, 0, 1, 0, 0, 0, 0, 60, 1),
{
    Unit::new(Dimensions::new(0, 0, 1, 0, 0, 0, 0), Fraction::new(60, 1))
}

/// Hour, `h`: 60 minutes.
pub fn hour() -> (r: Unit)
    ensures
        r@ == unit_value(0, 0, 1, 0, 0, 0, 0, 3600, 1),
{
    Unit::new(Dimensions::new(0, 0, 1, 0, 0, 0, 0), Fraction::new(3600, 1))
}

/// Day, `d`: 24 hours.
pub fn day() -> (r: Unit)
    ensures
        r@ == unit_value(0, 0, 1, 0, 0, 0, 0, 86400, 1),
{
    Unit::new(Dimensions::new(0, 0, 1, 0, 0, 0, 0), Fraction::new(86400, 1))
}

/// Kilometre per hour, `km/h`.
pub fn kilometre_per_hour() -> (r: Unit)
    ensures
        r@ == unit_value(1, 0, -1, 0, 0, 0, 0, 1000, 3600),
{
    Unit::new(Dimensions::new(1, 0, -1, 0, 0, 0, 0), Fraction::new(1000, 3600))
}

/// Gram, `g`: a thousandth of the base unit of mass.
pub fn gram() -> (r: Unit)
    ensures
        r@ == unit_value(0, 1, 0, 0, 0, 0, 0, 1, 1000),
{
    Unit::new(Dimensions::new(0, 1, 0, 0, 0, 0, 0), Fraction::new(1, 1000))
}

} // verus!
