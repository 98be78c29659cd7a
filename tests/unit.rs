use typed_phy::expr::{parse, Token};
use typed_phy::prefixes::{exa, kilo, milli};
use typed_phy::units::{
    dimensionless, hertz, hour, kilogram, kilometre_per_hour, metre, metre_per_second, second,
    watt,
};
use typed_phy::{compile, gcd, CompileError, Dimensions, Fraction, Unit};
use typed_phy::{DimensionsEq, FractionEq, Simplify, UnitEq};

#[test]
fn div() {
    assert_eq!(
        Dimensions::new(1, 1, 1, 1, 1, 1, 1).div(Dimensions::new(1, 1, 1, 1, 1, 1, 1)),
        Dimensions::new(0, 0, 0, 0, 0, 0, 0)
    );
    assert_eq!(
        Dimensions::new(0, 0, 0, 0, 0, 0, 0).div(Dimensions::new(8, 7, 6, 5, 4, 3, 2)),
        Dimensions::new(-8, -7, -6, -5, -4, -3, -2)
    );
}

#[test]
fn mul() {
    assert_eq!(
        Dimensions::new(0, 0, 0, 0, 0, 0, 0).mul(Dimensions::new(1, 1, 1, 1, 1, 1, 1)),
        Dimensions::new(1, 1, 1, 1, 1, 1, 1)
    );
    assert_eq!(
        Dimensions::new(0, 0, 0, 0, 0, 0, 0).mul(Dimensions::new(8, -7, 6, -5, 4, -3, 2)),
        Dimensions::new(8, -7, 6, -5, 4, -3, 2)
    );
}

#[test]
fn dimension_overflow_is_detected() {
    let big = Dimensions::new(i32::MAX, 0, 0, 0, 0, 0, 0);
    let one = Dimensions::new(1, 0, 0, 0, 0, 0, 0);
    assert!(!big.can_mul(one));
    assert!(big.can_div(one));
    assert!(!Dimensions::new(i32::MIN, 0, 0, 0, 0, 0, 0).can_div(one));
}

#[test]
fn gcd_values() {
    assert_eq!(gcd(10, 5), 5);
    assert_eq!(gcd(10, 10), 10);
    assert_eq!(gcd(5, 10), 5);
    assert_eq!(gcd(17, 5), 1);
    assert_eq!(gcd(0, 5), 5);
    assert_eq!(gcd(10, 0), 10);
    assert_eq!(gcd(0, 0), 0);
    assert_eq!(gcd(3600, 1000), 200);
    assert_eq!(gcd(u64::MAX, u64::MAX), u64::MAX);
}

#[test]
fn fraction_arithmetic() {
    let a = Fraction::new(2, 5).mul(Fraction::new(7, 3));
    assert_eq!((a.numerator, a.divisor), (14, 15));
    let b = Fraction::new(2, 5).div(Fraction::new(7, 3));
    assert_eq!((b.numerator, b.divisor), (6, 35));
    assert!(Fraction::new(u64::MAX, 1).checked_mul(Fraction::new(2, 1)).is_none());
    assert!(Fraction::new(1, u64::MAX).checked_div(Fraction::new(2, 1)).is_none());
    let c = Fraction::new(3, 4).checked_div(Fraction::new(5, 6)).unwrap();
    assert_eq!((c.numerator, c.divisor), (18, 20));
}

#[test]
fn fraction_scales_values() {
    assert_eq!(Fraction::new(5, 7).mul_value(14), 10);
    assert_eq!(Fraction::new(5, 7).div_value(10), 14);
    assert_eq!(Fraction::new(1000, 1).mul_value(i64::MAX / 1000), i64::MAX / 1000 * 1000);
    assert_eq!(Fraction::new(1, 3).mul_value(-7), -2);
}

#[test]
fn fraction_equality_cross_multiplies() {
    assert!(Fraction::new(2, 4).ratio_equal(&Fraction::new(1, 2)));
    assert!(Fraction::new(1000, 3600).ratio_equal(&Fraction::new(5, 18)));
    assert!(!Fraction::new(1, 3).ratio_equal(&Fraction::new(1, 2)));
    assert!(Fraction::new(u64::MAX, u64::MAX).ratio_equal(&Fraction::new(1, 1)));
}

#[test]
fn simplify_fraction() {
    let s = Fraction::new(30, 42).simplify();
    assert_eq!((s.numerator, s.divisor), (5, 7));
    let s = Fraction::new(32, 12).simplify();
    assert_eq!((s.numerator, s.divisor), (8, 3));
    let s = Fraction::new(0, 3).simplify();
    assert_eq!((s.numerator, s.divisor), (0, 1));
}

#[test]
fn simplify_is_idempotent() {
    for (n, d) in [(30u64, 42u64), (1000, 3600), (17, 5), (0, 9), (64, 48)] {
        let once = Fraction::new(n, d).simplify();
        let twice = once.simplify();
        assert_eq!((once.numerator, once.divisor), (twice.numerator, twice.divisor));
    }
}

#[test]
fn dimension_additivity() {
    let a = kilo(metre());
    let b = second().div(hour());
    let c = watt();
    let left = a.mul(b).mul(c);
    let right = a.mul(b.mul(c));
    assert!(left.dimensions_equal(&right));
    assert_eq!(left.dimensions, right.dimensions);
}

#[test]
fn inverse_roundtrip() {
    for u in [metre(), kilometre_per_hour(), watt(), milli(kilogram()), hour()] {
        let q = u.div(u);
        assert!(q.dimensions_equal(&dimensionless()));
        assert!(q.strict_equal(&dimensionless()));
    }
}

#[test]
fn unit_equality_relations() {
    assert!(metre().dimensions_equal(&kilo(metre())));
    assert!(!metre().strict_equal(&kilo(metre())));
    assert!(hertz().strict_equal(&dimensionless().div(second())));
    assert!(!hertz().dimensions_equal(&second()));
}

#[test]
fn unit_overflow_is_detected() {
    assert!(exa(metre()).checked_mul(exa(metre())).is_none());
    assert!(metre().checked_mul(second()).is_some());
}

fn t(u: Unit) -> Token {
    Token::Term(u)
}

fn op(c: char) -> Token {
    Token::Op(c)
}

#[test]
fn compile_metre_per_second() {
    let u = compile(&vec![t(metre()), op('/'), t(second())]).unwrap();
    assert!(u.strict_equal(&metre_per_second()));
}

#[test]
fn compile_redundant_identities() {
    let tokens = vec![
        t(metre()),
        op('/'),
        t(second()),
        op('*'),
        t(second()),
        op('/'),
        t(second()),
        op('*'),
        t(metre_per_second()),
        op('/'),
        t(metre_per_second()),
    ];
    let u = compile(&tokens).unwrap();
    assert!(u.strict_equal(&metre_per_second()));
}

#[test]
fn unit() {
    let kmph = compile(&vec![t(kilo(metre())), op('/'), t(hour())]).unwrap();
    assert_eq!(kmph.dimensions, Dimensions::new(1, 0, -1, 0, 0, 0, 0));
    assert_eq!((kmph.ratio.numerator, kmph.ratio.divisor), (1000, 3600));

    let tokens = vec![
        t(kilo(metre())),
        op('^'),
        Token::Exponent(2),
        op('/'),
        t(second()),
        op('*'),
        t(second()),
        op('^'),
        Token::Exponent(1),
        op('*'),
        t(kilogram()),
        op('^'),
        Token::Exponent(2),
        op('*'),
        t(kilogram()),
        op('^'),
        Token::Exponent(2),
        op('/'),
        t(kilogram()),
        op('^'),
        Token::Exponent(2),
        op('*'),
        t(kilogram()),
        op('/'),
        t(kilogram()),
        op('*'),
        t(kilogram()),
        op('^'),
        Token::Exponent(-2),
        op('/'),
        t(kilo(metre())),
        op('^'),
        Token::Exponent(2),
    ];
    let simple = compile(&tokens).unwrap().simplify();
    assert_eq!(simple.dimensions, dimensionless().dimensions);
    assert_eq!((simple.ratio.numerator, simple.ratio.divisor), (1, 1));

    let empty = compile(&Vec::new()).unwrap();
    assert_eq!(empty.dimensions, dimensionless().dimensions);
    assert_eq!((empty.ratio.numerator, empty.ratio.divisor), (1, 1));

    let w = compile(&vec![
        t(kilogram()),
        op('*'),
        t(metre()),
        op('^'),
        Token::Exponent(2),
        op('*'),
        t(second()),
        op('^'),
        Token::Exponent(-3),
    ])
    .unwrap();
    assert!(w.strict_equal(&watt()));
}

#[test]
fn compile_powers() {
    let w = compile(&vec![
        t(kilogram()),
        op('*'),
        t(metre()),
        op('^'),
        Token::Exponent(2),
        op('/'),
        t(second()),
        op('^'),
        Token::Exponent(3),
    ])
    .unwrap();
    assert!(w.strict_equal(&watt()));
    let m4 = compile(&vec![t(metre()), op('^'), Token::Exponent(4)]).unwrap();
    assert_eq!(m4.dimensions, Dimensions::new(4, 0, 0, 0, 0, 0, 0));
    let inv = compile(&vec![t(metre()), op('^'), Token::Exponent(-4)]).unwrap();
    assert_eq!(inv.dimensions, Dimensions::new(-4, 0, 0, 0, 0, 0, 0));
    let none = compile(&vec![t(metre()), op('^'), Token::Exponent(0)]).unwrap();
    assert!(none.strict_equal(&dimensionless()));
    let flipped = compile(&vec![t(metre()), op('/'), t(second()), op('^'), Token::Exponent(-2)])
        .unwrap();
    assert_eq!(flipped.dimensions, Dimensions::new(1, 0, 2, 0, 0, 0, 0));
}

#[test]
fn parse_expands_powers() {
    let steps = parse(&vec![t(metre()), op('*'), t(second()), op('^'), Token::Exponent(-3)]).unwrap();
    assert_eq!(steps.len(), 4);
    assert!(steps[0].0);
    assert!(!steps[1].0 && !steps[2].0 && !steps[3].0);
}

#[test]
fn compile_errors() {
    assert_eq!(
        compile(&vec![t(metre()), op('^'), Token::Exponent(5)]).unwrap_err(),
        CompileError::ExponentOutOfRange(5)
    );
    assert_eq!(
        compile(&vec![t(metre()), op('^'), Token::Exponent(-5)]).unwrap_err(),
        CompileError::ExponentOutOfRange(-5)
    );
    assert_eq!(
        compile(&vec![t(metre()), op('+'), t(second())]).unwrap_err(),
        CompileError::UnsupportedOperator('+')
    );
    assert_eq!(
        compile(&vec![op('%'), t(second())]).unwrap_err(),
        CompileError::UnsupportedOperator('%')
    );
    assert_eq!(
        compile(&vec![t(metre()), t(second())]).unwrap_err(),
        CompileError::UnexpectedToken(1)
    );
    assert_eq!(
        compile(&vec![t(metre()), op('*')]).unwrap_err(),
        CompileError::UnexpectedToken(2)
    );
    assert_eq!(
        compile(&vec![t(metre()), op('^')]).unwrap_err(),
        CompileError::UnexpectedToken(2)
    );
    assert_eq!(
        compile(&vec![op('*'), t(metre())]).unwrap_err(),
        CompileError::UnexpectedToken(0)
    );
    assert_eq!(
        compile(&vec![t(exa(metre())), op('^'), Token::Exponent(2)]).unwrap_err(),
        CompileError::Overflow
    );
}
