//! Exact ratios of two unsigned integers, used as the scale of a unit.
use vstd::prelude::*;

use crate::eq::FractionEq;
use crate::gcd::binary_gcd;

verus! {

/// A ratio of two natural numbers, as the specifications see it.
pub struct Ratio {
    pub num: nat,
    pub den: nat,
}

/// `(n1 / d1) * (n2 / d2) = (n1 * n2) / (d1 * d2)`
pub open spec fn ratio_mul(a: Ratio, b: Ratio) -> Ratio {
    Ratio { num: a.num * b.num, den: a.den * b.den }
}

/// `(n1 / d1) / (n2 / d2) = (n1 * d2) / (d1 * n2)`
pub open spec fn ratio_div(a: Ratio, b: Ratio) -> Ratio {
    Ratio { num: a.num * b.den, den: a.den * b.num }
}

/// Equality by cross-multiplication.
pub open spec fn ratio_equal(a: Ratio, b: Ratio) -> bool {
    a.num * b.den == b.num * a.den
}

/// Both terms divided by their greatest common divisor.
pub open spec fn ratio_simplified(a: Ratio) -> Ratio {
    let g = binary_gcd(a.num, a.den);
    Ratio { num: a.num / g, den: a.den / g }
}

/// Both terms fit in a `u64`.
pub open spec fn ratio_fits(a: Ratio) -> bool {
    a.num <= u64::MAX && a.den <= u64::MAX
}

/// Rust's integer division, which rounds toward zero.
pub open spec fn trunc_div(x: int, d: int) -> int {
    if x == 0 {
        0
    } else if x > 0 && d > 0 {
        x / d
    } else if x < 0 && d < 0 {
        (-x) / (-d)
    } else if x < 0 {
        -((-x) / d)
    } else {
        -(x / (-d))
    }
}

/// Rust's integer remainder, which takes the sign of the dividend.
pub open spec fn trunc_rem(x: int, d: int) -> int {
    if x >= 0 {
        x % d
    } else {
        -((-x) % d)
    }
}

/// A product of an `i64` and a `u64` fits in an `i128`.
proof fn lemma_wide_product(x: int, n: int)
    requires
        i64::MIN <= x <= i64::MAX,
        0 <= n <= u64::MAX,
    ensures
        i128::MIN <= x * n <= i128::MAX,
{
    if x >= 0 {
        assert(0 <= x * n <= i64::MAX * u64::MAX) by (nonlinear_arith)
            requires
                0 <= x <= i64::MAX,
                0 <= n <= u64::MAX,
        ;
    } else {
        assert(i64::MIN * u64::MAX <= x * n <= 0) by (nonlinear_arith)
            requires
                i64::MIN <= x < 0,
                0 <= n <= u64::MAX,
        ;
    }
}

/// A product of two `u64` values fits in a `u128`.
proof fn lemma_u128_product(a: int, b: int)
    requires
        0 <= a <= u64::MAX,
        0 <= b <= u64::MAX,
    ensures
        0 <= a * b <= u128::MAX,
{
    assert(0 <= a * b <= u64::MAX * u64::MAX) by (nonlinear_arith)
        requires
            0 <= a <= u64::MAX,
            0 <= b <= u64::MAX,
    ;
}

/// The ratio `numerator / divisor` of a unit to the coherent SI unit of the
/// same dimensions (a kilometre is `1000 / 1` metres).
///
/// A zero divisor is a representational error: the operations that divide
/// by it require it to be non-zero.
#[derive(Clone, Copy, Debug)]
pub struct Fraction {
    pub numerator: u64,
    pub divisor: u64,
}

impl View for Fraction {
    type V = Ratio;

    open spec fn view(&self) -> Ratio {
        Ratio { num: self.numerator as nat, den: self.divisor as nat }
    }
}

impl Fraction {
    /// The fraction `numerator / divisor`, kept as given (not reduced).
    pub fn new(numerator: u64, divisor: u64) -> (r: Fraction)
        ensures
            r.numerator == numerator,
            r.divisor == divisor,
    {
        Fraction { numerator, divisor }
    }

    /// `1 / 1`
    pub fn one() -> (r: Fraction)
        ensures
            r@ == (Ratio { num: 1, den: 1 }),
    {
        Fraction { numerator: 1, divisor: 1 }
    }

    /// Product of two fractions, not reduced.
    pub fn mul(self, rhs: Fraction) -> (r: Fraction)
        requires
            ratio_fits(ratio_mul(self@, rhs@)),
        ensures
            r@ == ratio_mul(self@, rhs@),
    {
        Fraction { numerator: self.numerator * rhs.numerator, divisor: self.divisor * rhs.divisor }
    }

    /// Quotient of two fractions, not reduced.
    pub fn div(self, rhs: Fraction) -> (r: Fraction)
        requires
            ratio_fits(ratio_div(self@, rhs@)),
        ensures
            r@ == ratio_div(self@, rhs@),
    {
        Fraction { numerator: self.numerator * rhs.divisor, divisor: self.divisor * rhs.numerator }
    }

    /// Product of two fractions, or `None` where a term would not fit.
    pub fn checked_mul(self, rhs: Fraction) -> (r: Option<Fraction>)
        ensures
            r is Some <==> ratio_fits(ratio_mul(self@, rhs@)),
            r is Some ==> r->0@ == ratio_mul(self@, rhs@),
    {
        match (self.numerator.checked_mul(rhs.numerator), self.divisor.checked_mul(rhs.divisor)) {
            (Some(n), Some(d)) => Some(Fraction { numerator: n, divisor: d }),
            _ => None,
        }
    }

    /// Quotient of two fractions, or `None` where a term would not fit.
    pub fn checked_div(self, rhs: Fraction) -> (r: Option<Fraction>)
        ensures
            r is Some <==> ratio_fits(ratio_div(self@, rhs@)),
            r is Some ==> r->0@ == ratio_div(self@, rhs@),
    {
        match (self.numerator.checked_mul(rhs.divisor), self.divisor.checked_mul(rhs.numerator)) {
            (Some(n), Some(d)) => Some(Fraction { numerator: n, divisor: d }),
            _ => None,
        }
    }

    /// Scales `x` by this fraction: `x * numerator / divisor`, multiplying
    /// first (in 128 bits, so the product cannot overflow) and then dividing
    /// with Rust's rounding toward zero.
    pub fn mul_value(self, x: i64) -> (r: i64)
        requires
            self.divisor != 0,
            i64::MIN <= trunc_div(x * self.numerator, self.divisor as int) <= i64::MAX,
        ensures
            r == trunc_div(x * self.numerator, self.divisor as int),
    {
        proof {
            lemma_wide_product(x as int, self.numerator as int);
        }
        let wide = (x as i128) * (self.numerator as i128);
        (wide / (self.divisor as i128)) as i64
    }

    /// Scales `x` by the inverse of this fraction: `x * divisor / numerator`,
    /// multiplying first (in 128 bits) and rounding toward zero.
    pub fn div_value(self, x: i64) -> (r: i64)
        requires
            self.numerator != 0,
            i64::MIN <= trunc_div(x * self.divisor, self.numerator as int) <= i64::MAX,
        ensures
            r == trunc_div(x * self.divisor, self.numerator as int),
    {
        proof {
            lemma_wide_product(x as int, self.divisor as int);
        }
        let wide = (x as i128) * (self.divisor as i128);
        (wide / (self.numerator as i128)) as i64
    }
}

impl FractionEq<Fraction> for Fraction {
    open spec fn spec_ratio_equal(&self, rhs: &Fraction) -> bool {
        ratio_equal(self@, rhs@)
    }

    fn ratio_equal(&self, rhs: &Fraction) -> (r: bool) {
        proof {
            lemma_u128_product(self.numerator as int, rhs.divisor as int);
            lemma_u128_product(rhs.numerator as int, self.divisor as int);
        }
        (self.numerator as u128) * (rhs.divisor as u128) == (rhs.numerator as u128) * (
        self.divisor as u128)
    }
}

} // verus!
