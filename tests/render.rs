use typed_phy::prefixes::{giga, kilo, milli, nano, pico};
use typed_phy::units::{
    cubic_metre, dimensionless, gram, hertz, hour, joule, kilogram, kilometre_per_hour, metre,
    metre_per_second, minute, mole, second, watt,
};
use typed_phy::{Dimensions, Fraction, Quantity, Unit};

fn frac(n: u64, d: u64) -> Fraction {
    Fraction::new(n, d)
}

fn odd_unit(n: u64, d: u64) -> Unit {
    Unit::new(Dimensions::new(1, -2, 1, -1, -1, 1, 1), Fraction::new(n, d))
}

#[test]
fn debug() {
    assert_eq!(frac(1, 1).to_debug_string(), "Fraction<1/1>");
    assert_eq!(Fraction::one().to_debug_string(), "Fraction<1/1>");
    assert_eq!(frac(1000, 3600).to_debug_string(), "Fraction<1000/3600>");
}

#[test]
fn fraction_display() {
    assert_eq!(frac(10, 1).to_string(), "10/1");
    assert_eq!(frac(100, 1).to_string(), "100/1");
    assert_eq!(frac(3, 3).to_string(), "3/3");
    assert_eq!(frac(0, 3).to_string(), "0/3");
    assert_eq!(frac(1000, 3600).to_string(), "1000/3600");
}

#[test]
fn cooler_display() {
    assert_eq!(frac(10, 1).to_alternate_string(), "10");
    assert_eq!(frac(100, 1).to_alternate_string(), "100");
    assert_eq!(frac(3, 3).to_alternate_string(), "1");
    assert_eq!(frac(0, 3).to_alternate_string(), "0");
    assert_eq!(frac(1000, 3600).to_alternate_string(), "1000 / 3600");
}

#[test]
fn fraction_doc_texts() {
    assert_eq!(frac(2, 3).to_debug_string(), "Fraction<2/3>");
    assert_eq!(frac(5, 5).to_string(), "5/5");
    assert_eq!(frac(0, 7).to_string(), "0/7");
    assert_eq!(frac(2, 3).to_alternate_string(), "2 / 3");
    assert_eq!(frac(5, 5).to_alternate_string(), "1");
    assert_eq!(frac(3, 1).to_alternate_string(), "3");
}

#[test]
fn display_base() {
    assert_eq!(metre().to_string(), "m");
    assert_eq!(mole().to_string(), "mol");
}

#[test]
fn display_builtin() {
    assert_eq!(hertz().to_string(), "Hz");
    assert_eq!(joule().to_string(), "J");
    assert_eq!(watt().to_string(), "W");
    assert_eq!(gram().to_string(), "g");
}

#[test]
fn display_coherent() {
    assert_eq!(cubic_metre().to_string(), "m^3");
    assert_eq!(metre_per_second().to_string(), "m/s");
    assert_eq!(hour().to_string(), "h");
    assert_eq!(minute().to_string(), "min");
    assert_eq!(kilometre_per_hour().to_string(), "km/h");
}

#[test]
fn display_builtin_prefix() {
    assert_eq!(kilo(hertz()).to_string(), "kHz");
    assert_eq!(giga(watt()).to_string(), "GW");
    assert_eq!(kilo(gram()).to_string(), "kg");
    assert_eq!(milli(gram()).to_string(), "mg");
    assert_eq!(nano(metre()).to_string(), "nm");
}

#[test]
fn display_other() {
    assert_eq!(odd_unit(1, 1).to_string(), "m * kg^-2 * s * A^-1 * K^-1 * mol * cd");
    assert_eq!(milli(dimensionless()).to_string(), "(ratio: 1/1000)");
    assert_eq!(
        milli(odd_unit(1, 1)).to_string(),
        "m * kg^-2 * s * A^-1 * K^-1 * mol * cd (ratio: 1/1000)"
    );
}

#[test]
fn display_unnamed_kilogram() {
    assert_eq!(kilogram().to_string(), "kg");
    assert_eq!(dimensionless().to_string(), "dimless");
    assert_eq!(metre().mul(metre()).mul(metre()).mul(metre()).to_string(), "m^4");
}

#[test]
fn quantity_display() {
    assert_eq!(Quantity::new(42, metre()).to_string(), "42 m");
    assert_eq!(Quantity::new(42, kilo(hertz())).to_string(), "42 kHz");
    assert_eq!(Quantity::new(42, pico(second())).to_string(), "42 ps");
    assert_eq!(
        Quantity::new(42, odd_unit(15, 71)).to_string(),
        "42 m * kg^-2 * s * A^-1 * K^-1 * mol * cd (ratio: 15/71)"
    );
    assert_eq!(Quantity::new(-3, second()).to_string(), "-3 s");
}

#[test]
fn debug_texts() {
    assert_eq!(
        Quantity::new(10, metre()).to_debug_string(),
        "Quantity<_, Unit<Dimensions<1, 0, 0, 0, 0, 0, 0>, Fraction<1/1>>>(10)"
    );
    assert_eq!(
        metre_per_second().to_debug_string(),
        "Unit<Dimensions<1, 0, -1, 0, 0, 0, 0>, Fraction<1/1>>"
    );
    assert_eq!(
        Dimensions::new(1, 0, -1, 0, 0, 0, 0).to_string(),
        "m^1 * kg^0 * s^-1 * A^0 * K^0 * mol^0 * cd^0"
    );
    assert_eq!(
        Dimensions::new(8, -7, 6, -5, 4, -3, 2).to_debug_string(),
        "Dimensions<8, -7, 6, -5, 4, -3, 2>"
    );
}
