//! Reduction of ratios to lowest terms.
use vstd::prelude::*;

use crate::fraction::{ratio_simplified, Fraction, Ratio};
use crate::quantity::Quantity;
use crate::unit::Unit;
use crate::gcd::{binary_gcd, gcd, lemma_gcd_bounds, lemma_gcd_divides, lemma_gcd_greatest};

verus! {

/// Reduction of a value's ratio to lowest terms. It is never applied
/// implicitly: callers reduce explicitly where a minimal form is wanted.
pub trait Simplify: Sized {
    /// The inputs on which reduction is defined.
    spec fn can_simplify(&self) -> bool;

    /// Whether `r` is `self` reduced.
    spec fn simplify_result(&self, r: &Self) -> bool;

    fn simplify(self) -> (r: Self)
        requires
            self.can_simplify(),
        ensures
            self.simplify_result(&r),
    ;
}

/// Divides both terms of `f` by their greatest common divisor.
fn simplified_fraction(f: Fraction) -> (r: Fraction)
    requires
        f.divisor != 0,
    ensures
        r@ == ratio_simplified(f@),
{
    let g = gcd(f.numerator, f.divisor);
    proof {
        lemma_gcd_bounds(f.numerator as nat, f.divisor as nat);
    }
    Fraction { numerator: f.numerator / g, divisor: f.divisor / g }
}

impl Simplify for Fraction {
    /// A zero divisor has no reduced form.
    open spec fn can_simplify(&self) -> bool {
        self.divisor != 0
    }

    open spec fn simplify_result(&self, r: &Fraction) -> bool {
        r@ == ratio_simplified(self@)
    }

    fn simplify(self) -> (r: Fraction) {
        simplified_fraction(self)
    }
}

impl Simplify for Unit {
    /// A zero divisor has no reduced form.
    open spec fn can_simplify(&self) -> bool {
        self.ratio.divisor != 0
    }

    /// Same dimensions, ratio reduced.
    open spec fn simplify_result(&self, r: &Unit) -> bool {
        r.dimensions == self.dimensions && r.ratio@ == ratio_simplified(self.ratio@)
    }

    fn simplify(self) -> (r: Unit) {
        Unit::new(self.dimensions, simplified_fraction(self.ratio))
    }
}

impl Simplify for Quantity {
    /// A zero divisor has no reduced form.
    open spec fn can_simplify(&self) -> bool {
        self.spec_unit().ratio.divisor != 0
    }

    /// Same stored value and dimensions, ratio reduced.
    open spec fn simplify_result(&self, r: &Quantity) -> bool {
        &&& r.spec_storage() == self.spec_storage()
        &&& r.spec_unit().dimensions == self.spec_unit().dimensions
        &&& r.spec_unit().ratio@ == ratio_simplified(self.spec_unit().ratio@)
    }

    fn simplify(self) -> (r: Quantity) {
        self.set_ratio(simplified_fraction(self.unit().ratio))
    }
}

/// With `d != 0`, `n / g` and `d / g` (where `g = gcd(n, d)`) are coprime and
/// the divisor stays non-zero.
proof fn lemma_simplified_coprime(r: Ratio)
    requires
        r.den != 0,
    ensures
        ratio_simplified(r).den != 0,
        binary_gcd(ratio_simplified(r).num, ratio_simplified(r).den) == 1,
{
    let n = r.num;
    let d = r.den;
    let g = binary_gcd(n, d);
    lemma_gcd_bounds(n, d);
    let (kn, kd) = lemma_gcd_divides(n, d);
    assert(n / g == kn && d / g == kd) by (nonlinear_arith)
        requires
            n == kn * g,
            d == kd * g,
            g > 0,
    ;
    assert(kd != 0) by (nonlinear_arith)
        requires
            d == kd * g,
            d != 0,
    ;
    let h = binary_gcd(kn, kd);
    lemma_gcd_bounds(kn, kd);
    let (a, b) = lemma_gcd_divides(kn, kd);
    let c = h * g;
    assert(c > 0 && n == a * c && d == b * c) by (nonlinear_arith)
        requires
            n == kn * g,
            d == kd * g,
            kn == a * h,
            kd == b * h,
            c == h * g,
            h > 0,
            g > 0,
    ;
    let k = lemma_gcd_greatest(n, d, c as nat, a, b);
    assert(h == 1) by (nonlinear_arith)
        requires
            g == k * (h * g),
            g > 0,
            h > 0,
    ;
}

/// Reduction is idempotent: for every fraction `n / d` with `d != 0`,
/// `simplify(simplify(n / d)) == simplify(n / d)`.
pub proof fn lemma_simplify_idempotent(f: Fraction)
    requires
        f.divisor != 0,
    ensures
        ratio_simplified(f@).den != 0,
        ratio_simplified(ratio_simplified(f@)) == ratio_simplified(f@),
{
    lemma_simplified_coprime(f@);
}

} // verus!
