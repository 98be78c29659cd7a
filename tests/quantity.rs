use typed_phy::prefixes::{deci, kilo};
use typed_phy::units::{
    dimensionless, hertz, hour, kilogram, metre, metre_per_second, minute, second, square_metre,
};
use typed_phy::{CheckedAdd, CheckedDiv, CheckedMul, CheckedSub, Fraction, Quantity, QuantityError};
use typed_phy::{Simplify, UnitEq};

fn q(value: i64, unit: typed_phy::Unit) -> Quantity {
    Quantity::new(value, unit)
}

#[test]
fn simple() {
    let length = q(20, metre()).add(q(4, metre())).unwrap();
    let time = q(2, second()).mul_scalar(3);

    let speed = length.div(time);

    assert_eq!(speed, q(4, metre_per_second()));
}

#[test]
fn end_to_end_speed() {
    let length = q(20, metre()).add(q(4, metre())).unwrap();
    let time = q(2, second()).mul_scalar(3);
    let speed = length.div(time);
    assert_eq!(speed.into_inner(), 4);
    assert!(speed.unit().strict_equal(&metre_per_second()));
}

#[test]
fn iter_traits() {
    let items: Vec<Quantity> = (1..=10).map(|x| q(x, second())).collect();

    // Sum of first n elements of arithmetic progression is equal to `n(a1 + an)/2`
    // `10 * (1 + 10) / 2 == 55`
    assert_eq!(Quantity::sum(second(), &items).unwrap(), q(55, second()));
}

#[test]
fn sum_of_nothing_is_zero() {
    assert_eq!(Quantity::sum(metre(), &Vec::new()).unwrap(), q(0, metre()));
}

#[test]
fn sum_refuses_mixed_units() {
    let items = vec![q(1, second()), q(2, metre())];
    assert_eq!(Quantity::sum(second(), &items), Err(QuantityError::IllegalOperation));
}

#[test]
fn rem() {
    assert_eq!(q(10, second()).rem_scalar(3), q(1, second()));
    assert_eq!(q(10, metre_per_second()).rem(q(4, metre())), q(2, hertz()));

    let mut var = q(20, second());
    var.rem_assign(8);
    assert_eq!(var, q(4, second()));
}

#[test]
fn rem_takes_sign_of_dividend() {
    assert_eq!(q(-7, second()).rem_scalar(2), q(-1, second()));
    assert_eq!(q(7, second()).rem_scalar(-2), q(1, second()));
}

#[test]
fn arithmetic_operations() {
    let x = q(10, metre());
    let y = q(20, metre());
    assert_eq!(x.add(y).unwrap(), q(30, metre()));
    assert_eq!(x.sub(y).unwrap(), q(-10, metre()));
    assert_eq!(x.mul_scalar(2), q(20, metre()));
    assert_eq!(x.mul(y), q(200, square_metre()));
    assert_eq!(q(20, metre()).div(q(10, second())), q(2, metre_per_second()));
    assert_eq!(q(1, metre()).mul_scalar(10), q(10, metre()));
    assert_eq!(q(20, metre()).div_scalar(2), q(10, metre()));
    assert_eq!(q(5, metre()).neg(), q(-5, metre()));
}

#[test]
fn division_rounds_toward_zero() {
    assert_eq!(q(-7, metre()).div_scalar(2).into_inner(), -3);
    assert_eq!(q(7, metre()).div_scalar(-2).into_inner(), -3);
    assert_eq!(q(-7, metre()).div(q(-2, second())).into_inner(), 3);
}

#[test]
fn add_refuses_different_units() {
    assert_eq!(q(1, metre()).add(q(1, second())), Err(QuantityError::IllegalOperation));
    assert_eq!(q(1, metre()).sub(q(1, kilo(metre()))), Err(QuantityError::IllegalOperation));
}

#[test]
fn add_accepts_unreduced_equal_ratio() {
    let half = q(1, metre()).set_ratio(Fraction::new(1, 2));
    let two_quarters = q(3, metre()).set_ratio(Fraction::new(2, 4));
    let sum = half.add(two_quarters).unwrap();
    assert_eq!(sum.into_inner(), 4);
    assert_eq!(sum.unit().ratio.divisor, 2);
}

#[test]
fn compound_assignment() {
    let mut x = q(20, second());
    x.add_assign(q(10, second())).unwrap();
    assert_eq!(x, q(30, second()));
    x.sub_assign(q(5, second())).unwrap();
    assert_eq!(x, q(25, second()));
    x.mul_assign(2);
    assert_eq!(x, q(50, second()));
    x.div_assign(5);
    assert_eq!(x, q(10, second()));
    assert_eq!(x.add_assign(q(1, metre())), Err(QuantityError::IllegalOperation));
    assert_eq!(x, q(10, second()));
}

#[test]
fn checked_add_boundary() {
    assert_eq!(q(20, second()).checked_add(q(10, second())), Ok(Some(q(30, second()))));
    assert_eq!(q(i64::MAX, second()).checked_add(q(10, second())), Ok(None));
    assert_eq!(q(1, second()).checked_add(q(1, metre())), Err(QuantityError::IllegalOperation));
}

#[test]
fn checked_sub_boundary() {
    assert_eq!(q(20, second()).checked_sub(q(10, second())), Ok(Some(q(10, second()))));
    assert_eq!(q(-2, second()).checked_sub(q(i64::MAX, second())), Ok(None));
}

#[test]
fn checked_mul_boundary() {
    assert_eq!(q(20, metre()).checked_mul(q(10, metre())), Some(q(200, square_metre())));
    assert_eq!(q(20, metre()).checked_mul(q(i64::MAX / 10, metre())), None);
    assert_eq!(q(1, metre()).checked_mul(10), Some(q(10, metre())));
    assert_eq!(q(i64::MAX, metre()).checked_mul(10), None);
}

#[test]
fn checked_div_boundary() {
    assert_eq!(q(20, metre()).checked_div(q(10, second())), Some(q(2, metre_per_second())));
    assert_eq!(q(20, metre()).checked_div(q(0, second())), None);
    assert_eq!(q(i64::MIN, metre()).checked_div(q(-1, second())), None);
    assert_eq!(q(20, metre()).checked_div(2), Some(q(10, metre())));
    assert_eq!(q(20, metre()).checked_div(0), None);
}

#[test]
fn conversion_preserves_magnitude() {
    assert_eq!(q(10, kilo(metre())).into_unit(metre()).unwrap().into_inner(), 10000);
    assert_eq!(q(100_000, deci(metre())).into_unit(kilo(metre())).unwrap().into_inner(), 10);
    assert_eq!(q(10, kilo(metre())).into_unit(deci(metre())).unwrap(), q(100_000, deci(metre())));
    assert_eq!(q(3600, second()).into_unit(hour()).unwrap(), q(1, hour()));
    assert_eq!(q(5, hour()).into_unit(minute()).unwrap(), q(300, minute()));
}

#[test]
fn conversion_refuses_other_dimensions() {
    assert_eq!(q(1, metre()).into_unit(second()), Err(QuantityError::IllegalOperation));
    assert_eq!(q(1, metre()).set_unit(second()), Err(QuantityError::IllegalOperation));
}

#[test]
fn conversion_to_base() {
    assert_eq!(q(10, kilo(metre())).into_base(), q(10_000, metre()));
    assert_eq!(q(10, deci(metre())).into_base(), q(1, metre()));
    assert_eq!(q(10, hour()).into_base(), q(36000, second()));
    assert_eq!(q(10, minute()).into_base(), q(600, second()));
    assert_eq!(q(100, metre()).mul(q(3, kilo(metre()))).into_base(), q(300_000, square_metre()));
}

#[test]
fn conversion_to_ratio() {
    let r = q(10, kilo(metre())).into_ratio(Fraction::new(1, 10));
    assert_eq!(r, q(100_000, deci(metre())));
}

#[test]
fn set_unit_keeps_value() {
    assert_eq!(q(1, kilo(metre())).set_unit(metre()).unwrap(), q(1, metre()));
    assert_eq!(q(2, kilo(metre())).set_unit(metre()).unwrap().into_inner(), 2);
}

#[test]
fn as_unit_relabels_equal_units() {
    let speed = q(10, metre()).div(q(1, second()));
    assert_eq!(speed.as_unit(metre_per_second()).unwrap().into_inner(), 10);
    assert_eq!(speed.as_unit(hertz()), Err(QuantityError::IllegalOperation));
}

#[test]
fn value_of_dimensionless() {
    assert_eq!(q(10, metre()).div(q(2, metre())).value(), Ok(5));
    assert_eq!(q(10, metre()).add(q(2, metre())).unwrap().value(), Err(QuantityError::IllegalOperation));
    assert_eq!(q(7, dimensionless()).value(), Ok(7));
}

#[test]
fn map_applies_to_value() {
    let r = q(10, kilogram()).map(|v| v * 3 + 1);
    assert_eq!(r, q(31, kilogram()));
}

#[test]
fn simplify_quantity() {
    let x = q(5, metre()).set_ratio(Fraction::new(30, 42)).simplify();
    assert_eq!(x.into_inner(), 5);
    assert_eq!(x.unit().ratio.numerator, 5);
    assert_eq!(x.unit().ratio.divisor, 7);
}

#[test]
fn equality_tolerates_unreduced_ratio() {
    let a = q(3, metre()).set_ratio(Fraction::new(2, 4));
    let b = q(3, metre()).set_ratio(Fraction::new(1, 2));
    assert_eq!(a, b);
    assert_ne!(a, q(3, metre()));
    assert_ne!(q(3, metre()), q(4, metre()));
}
