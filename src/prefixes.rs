//! SI prefixes: scale a unit's ratio by a power of ten.
//!
//! The prefixes run from exa (`10^18`) down to atto (`10^-18`): the terms of
//! a ratio are `u64`, which holds `10^18` but not `10^21`.
use vstd::prelude::*;

use crate::fraction::{ratio_div, ratio_fits, ratio_mul, Fraction, Ratio};
use crate::unit::{Unit, UnitValue};

verus! {

/// `u` with its ratio multiplied by `x`.
pub open spec fn scaled_up(u: UnitValue, x: nat) -> UnitValue {
    UnitValue { dims: u.dims, ratio: ratio_mul(u.ratio, Ratio { num: x, den: 1 }) }
}

/// `u` with its ratio divided by `x`.
pub open spec fn scaled_down(u: UnitValue, x: nat) -> UnitValue {
    UnitValue { dims: u.dims, ratio: ratio_div(u.ratio, Ratio { num: x, den: 1 }) }
}

/// Multiplies the ratio of `u` by `x`, keeping its dimensions.
pub fn mul_by(u: Unit, x: u64) -> (r: Unit)
    requires
        ratio_fits(scaled_up(u@, x as nat).ratio),
    ensures
        r@ == scaled_up(u@, x as nat),
{
    Unit::new(u.dimensions, u.ratio.mul(Fraction::new(x, 1)))
}

/// Divides the ratio of `u` by `x`, keeping its dimensions.
pub fn div_by(u: Unit, x: u64) -> (r: Unit)
    requires
        ratio_fits(scaled_down(u@, x as nat).ratio),
    ensures
        r@ == scaled_down(u@, x as nat),
{
    Unit::new(u.dimensions, u.ratio.div(Fraction::new(x, 1)))
}

/// Exa, `E`: the ratio times `1_000_000_000_000_000_000`.
pub fn exa(u: Unit) -> (r: Unit)
    requires
        ratio_fits(scaled_up(u@, 1_000_000_000_000_000_000).ratio),
    ensures
        r@ == scaled_up(u@, 1_000_000_000_000_000_000),
{
    mul_by(u, 1_000_000_000_000_000_000)
}

/// Peta, `P`: the ratio times `1_000_000_000_000_000`.
pub fn peta(u: Unit) -> (r: Unit)
    requires
        ratio_fits(scaled_up(u@, 1_000_000_000_000_000).ratio),
    ensures
        r@ == scaled_up(u@, 1_000_000_000_000_000),
{
    mul_by(u, 1_000_000_000_000_000)
}

/// Tera, `T`: the ratio times `1_000_000_000_000`.
pub fn tera(u: Unit) -> (r: Unit)
    requires
        ratio_fits(scaled_up(u@, 1_000_000_000_000).ratio),
    ensures
        r@ == scaled_up(u@, 1_000_000_000_000),
{
    mul_by(u, 1_000_000_000_000)
}

/// Giga, `G`: the ratio times `1_000_000_000`.
pub fn giga(u: Unit) -> (r: Unit)
    requires
        ratio_fits(scaled_up(u@, 1_000_000_000).ratio),
    ensures
        r@ == scaled_up(u@, 1_000_000_000),
{
    mul_by(u, 1_000_000_000)
}

/// Mega, `M`: the ratio times `1_000_000`.
pub fn mega(u: Unit) -> (r: Unit)
    requires
        ratio_fits(scaled_up(u@, 1_000_000).ratio),
    ensures
        r@ == scaled_up(u@, 1_000_000),
{
    mul_by(u, 1_000_000)
}

/// Kilo, `k`: the ratio times `1_000`.
pub fn kilo(u: Unit) -> (r: Unit)
    requires
        ratio_fits(scaled_up(u@, 1_000).ratio),
    ensures
        r@ == scaled_up(u@, 1_000),
{
    mul_by(u, 1_000)
}

/// Hecto, `h`: the ratio times `100`.
pub fn hecto(u: Unit) -> (r: Unit)
    requires
        ratio_fits(scaled_up(u@, 100).ratio),
    ensures
        r@ == scaled_up(u@, 100),
{
    mul_by(u, 100)
}

/// Deca, `da`: the ratio times `10`.
pub fn deca(u: Unit) -> (r: Unit)
    requires
        ratio_fits(scaled_up(u@, 10).ratio),
    ensures
        r@ == scaled_up(u@, 10),
{
    mul_by(u, 10)
}

/// Deci, `d`: the ratio divided by `10`.
pub fn deci(u: Unit) -> (r: Unit)
    requires
        ratio_fits(scaled_down(u@, 10).ratio),
    ensures
        r@ == scaled_down(u@, 10),
{
    div_by(u, 10)
}

/// Centi, `c`: the ratio divided by `100`.
pub fn centi(u: Unit) -> (r: Unit)
    requires
        ratio_fits(scaled_down(u@, 100).ratio),
    ensures
        r@ == scaled_down(u@, 100),
{
    div_by(u, 100)
}

/// Milli, `m`: the ratio divided by `1_000`.
pub fn milli(u: Unit) -> (r: Unit)
    requires
        ratio_fits(scaled_down(u@, 1_000).ratio),
    ensures
        r@ == scaled_down(u@, 1_000),
{
    div_by(u, 1_000)
}

/// Micro, `u`: the ratio divided by `1_000_000`.
pub fn micro(u: Unit) -> (r: Unit)
    requires
        ratio_fits(scaled_down(u@, 1_000_000).ratio),
    ensures
        r@ == scaled_down(u@, 1_000_000),
{
    div_by(u, 1_000_000)
}

/// Nano, `n`: the ratio divided by `1_000_000_000`.
pub fn nano(u: Unit) -> (r: Unit)
    requires
        ratio_fits(scaled_down(u@, 1_000_000_000).ratio),
    ensures
        r@ == scaled_down(u@, 1_000_000_000),
{
    div_by(u, 1_000_000_000)
}

/// Pico, `p`: the ratio divided by `1_000_000_000_000`.
pub fn pico(u: Unit) -> (r: Unit)
    requires
        ratio_fits(scaled_down(u@, 1_000_000_000_000).ratio),
    ensures
        r@ == scaled_down(u@, 1_000_000_000_000),
{
    div_by(u, 1_000_000_000_000)
}

/// Femto, `f`: the ratio divided by `1_000_000_000_000_000`.
pub fn femto(u: Unit) -> (r: Unit)
    requires
        ratio_fits(scaled_down(u@, 1_000_000_000_000_000).ratio),
    ensures
        r@ == scaled_down(u@, 1_000_000_000_000_000),
{
    div_by(u, 1_000_000_000_000_000)
}

/// Atto, `a`: the ratio divided by `1_000_000_000_000_000_000`.
pub fn atto(u: Unit) -> (r: Unit)
    requires
        ratio_fits(scaled_down(u@, 1_000_000_000_000_000_000).ratio),
    ensures
        r@ == scaled_down(u@, 1_000_000_000_000_000_000),
{
    div_by(u, 1_000_000_000_000_000_000)
}

} // verus!
