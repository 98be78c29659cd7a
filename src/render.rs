//! Texts of units, ratios, dimension vectors and quantities.
use vstd::prelude::*;
use vstd::string::StringExecFns;

use crate::dimensions::Dimensions;
use crate::fraction::{Fraction, Ratio};
use crate::quantity::Quantity;
use crate::text::{decimal, push_decimal, push_signed, signed_decimal};
use crate::unit::{Unit, UnitValue};

verus! {

/// Number of named units that take SI prefixes.
pub const SIMPLE_UNITS: usize = 12;

/// Number of SI prefixes, the empty one included.
pub const PREFIXES: usize = 21;

/// Number of named units that take no prefix.
pub const COHERENT_UNITS: usize = 8;

/// Symbol of the `i`-th named unit that takes prefixes: metre, second,
/// ampere, kelvin, mole, candela, gram, hertz, newton, pascal, joule, watt.
pub open spec fn simple_symbol(i: int) -> Seq<char> {
    if i == 0 {
        seq!['m']
    } else if i == 1 {
        seq!['s']
    } else if i == 2 {
        seq!['A']
    } else if i == 3 {
        seq!['K']
    } else if i == 4 {
        seq!['m', 'o', 'l']
    } else if i == 5 {
        seq!['c', 'd']
    } else if i == 6 {
        seq!['g']
    } else if i == 7 {
        seq!['H', 'z']
    } else if i == 8 {
        seq!['N']
    } else if i == 9 {
        seq!['P', 'a']
    } else if i == 10 {
        seq!['J']
    } else {
        seq!['W']
    }
}

/// Dimensions of the `i`-th named unit that takes prefixes.
pub open spec fn simple_dims(i: int) -> Seq<int> {
    if i == 0 {
        seq![1int, 0, 0, 0, 0, 0, 0]
    } else if i == 1 {
        seq![0int, 0, 1, 0, 0, 0, 0]
    } else if i == 2 {
        seq![0int, 0, 0, 1, 0, 0, 0]
    } else if i == 3 {
        seq![0int, 0, 0, 0, 1, 0, 0]
    } else if i == 4 {
        seq![0int, 0, 0, 0, 0, 1, 0]
    } else if i == 5 {
        seq![0int, 0, 0, 0, 0, 0, 1]
    } else if i == 6 {
        seq![0int, 1, 0, 0, 0, 0, 0]
    } else if i == 7 {
        seq![0int, 0, -1, 0, 0, 0, 0]
    } else if i == 8 {
        seq![1int, 1, -2, 0, 0, 0, 0]
    } else if i == 9 {
        seq![-1int, 1, -2, 0, 0, 0, 0]
    } else if i == 10 {
        seq![2int, 1, -2, 0, 0, 0, 0]
    } else {
        seq![2int, 1, -3, 0, 0, 0, 0]
    }
}

/// Ratio of the `i`-th named unit that takes prefixes (the gram is a
/// thousandth of the kilogram).
pub open spec fn simple_ratio(i: int) -> Ratio {
    if i == 0 {
        Ratio { num: 1, den: 1 }
    } else if i == 1 {
        Ratio { num: 1, den: 1 }
    } else if i == 2 {
        Ratio { num: 1, den: 1 }
    } else if i == 3 {
        Ratio { num: 1, den: 1 }
    } else if i == 4 {
        Ratio { num: 1, den: 1 }
    } else if i == 5 {
        Ratio { num: 1, den: 1 }
    } else if i == 6 {
        Ratio { num: 1, den: 1000 }
    } else if i == 7 {
        Ratio { num: 1, den: 1 }
    } else if i == 8 {
        Ratio { num: 1, den: 1 }
    } else if i == 9 {
        Ratio { num: 1, den: 1 }
    } else if i == 10 {
        Ratio { num: 1, den: 1 }
    } else {
        Ratio { num: 1, den: 1 }
    }
}

/// Symbol of the `j`-th prefix, from yotta (`Y`) down to yocto (`y`); the
/// middle one is empty.
pub open spec fn prefix_symbol(j: int) -> Seq<char> {
    if j == 0 {
        seq!['Y']
    } else if j == 1 {
        seq!['Z']
    } else if j == 2 {
        seq!['E']
    } else if j == 3 {
        seq!['P']
    } else if j == 4 {
        seq!['T']
    } else if j == 5 {
        seq!['G']
    } else if j == 6 {
        seq!['M']
    } else if j == 7 {
        seq!['k']
    } else if j == 8 {
        seq!['h']
    } else if j == 9 {
        seq!['d', 'a']
    } else if j == 10 {
        Seq::empty()
    } else if j == 11 {
        seq!['d']
    } else if j == 12 {
        seq!['c']
    } else if j == 13 {
        seq!['m']
    } else if j == 14 {
        seq!['\u{3bc}']
    } else if j == 15 {
        seq!['n']
    } else if j == 16 {
        seq!['p']
    } else if j == 17 {
        seq!['f']
    } else if j == 18 {
        seq!['a']
    } else if j == 19 {
        seq!['z']
    } else {
        seq!['y']
    }
}

/// Power of ten of the `j`-th prefix.
pub open spec fn prefix_power(j: int) -> int {
    if j == 0 {
        24
    } else if j == 1 {
        21
    } else if j == 2 {
        18
    } else if j == 3 {
        15
    } else if j == 4 {
        12
    } else if j == 5 {
        9
    } else if j == 6 {
        6
    } else if j == 7 {
        3
    } else if j == 8 {
        2
    } else if j == 9 {
        1
    } else if j == 10 {
        0
    } else if j == 11 {
        -1
    } else if j == 12 {
        -2
    } else if j == 13 {
        -3
    } else if j == 14 {
        -6
    } else if j == 15 {
        -9
    } else if j == 16 {
        -12
    } else if j == 17 {
        -15
    } else if j == 18 {
        -18
    } else if j == 19 {
        -21
    } else {
        -24
    }
}

/// `10^k`
pub open spec fn pow10(k: nat) -> nat
    decreases k,
{
    if k == 0 {
        1
    } else {
        10 * pow10((k - 1) as nat)
    }
}

/// `r` scaled by the `j`-th prefix.
pub open spec fn prefixed(r: Ratio, j: int) -> Ratio {
    let p = prefix_power(j);
    if p >= 0 {
        Ratio { num: r.num * pow10(p as nat), den: r.den }
    } else {
        Ratio { num: r.num, den: r.den * pow10((-p) as nat) }
    }
}

/// `u` is exactly the `i`-th named unit under the `j`-th prefix (ratio terms
/// compared as they are, not reduced).
pub open spec fn simple_match(u: UnitValue, i: int, j: int) -> bool {
    u.dims == simple_dims(i) && u.ratio == prefixed(simple_ratio(i), j)
}

/// Symbol of the `i`-th named unit that takes no prefix: dimensionless,
/// square and cubic metre, metre per second, minute, hour, day, kilometre per
/// hour.
pub open spec fn coherent_symbol(i: int) -> Seq<char> {
    if i == 0 {
        seq!['d', 'i', 'm', 'l', 'e', 's', 's']
    } else if i == 1 {
        seq!['m', '^', '2']
    } else if i == 2 {
        seq!['m', '^', '3']
    } else if i == 3 {
        seq!['m', '/', 's']
    } else if i == 4 {
        seq!['m', 'i', 'n']
    } else if i == 5 {
        seq!['h']
    } else if i == 6 {
        seq!['d']
    } else {
        seq!['k', 'm', '/', 'h']
    }
}

/// Dimensions and ratio of the `i`-th named unit that takes no prefix.
pub open spec fn coherent_value(i: int) -> UnitValue {
    if i == 0 {
        UnitValue { dims: seq![0int, 0, 0, 0, 0, 0, 0], ratio: Ratio { num: 1, den: 1 } }
    } else if i == 1 {
        UnitValue { dims: seq![2int, 0, 0, 0, 0, 0, 0], ratio: Ratio { num: 1, den: 1 } }
    } else if i == 2 {
        UnitValue { dims: seq![3int, 0, 0, 0, 0, 0, 0], ratio: Ratio { num: 1, den: 1 } }
    } else if i == 3 {
        UnitValue { dims: seq![1int, 0, -1, 0, 0, 0, 0], ratio: Ratio { num: 1, den: 1 } }
    } else if i == 4 {
        UnitValue { dims: seq![0int, 0, 1, 0, 0, 0, 0], ratio: Ratio { num: 60, den: 1 } }
    } else if i == 5 {
        UnitValue { dims: seq![0int, 0, 1, 0, 0, 0, 0], ratio: Ratio { num: 3600, den: 1 } }
    } else if i == 6 {
        UnitValue { dims: seq![0int, 0, 1, 0, 0, 0, 0], ratio: Ratio { num: 86400, den: 1 } }
    } else {
        UnitValue { dims: seq![1int, 0, -1, 0, 0, 0, 0], ratio: Ratio { num: 1000, den: 3600 } }
    }
}

/// The first name, scanning the prefixed units from position `n` on (unit
/// by unit, each under every prefix in order).
pub open spec fn simple_name_from(u: UnitValue, n: int) -> Option<Seq<char>>
    decreases SIMPLE_UNITS * PREFIXES - n,
{
    if n < 0 || n >= SIMPLE_UNITS * PREFIXES {
        None
    } else if simple_match(u, n / PREFIXES as int, n % PREFIXES as int) {
        Some(prefix_symbol(n % PREFIXES as int) + simple_symbol(n / PREFIXES as int))
    } else {
        simple_name_from(u, n + 1)
    }
}

/// The first name among the unprefixed units from position `n` on.
pub open spec fn coherent_name_from(u: UnitValue, n: int) -> Option<Seq<char>>
    decreases COHERENT_UNITS - n,
{
    if n < 0 || n >= COHERENT_UNITS {
        None
    } else if u == coherent_value(n) {
        Some(coherent_symbol(n))
    } else {
        coherent_name_from(u, n + 1)
    }
}

/// The name of a unit, where it has one: a prefixed named unit (`kHz`,
/// `mg`), else an unprefixed one (`m/s`, `h`).
pub open spec fn unit_name(u: UnitValue) -> Option<Seq<char>> {
    match simple_name_from(u, 0) {
        Some(s) => Some(s),
        None => coherent_name_from(u, 0),
    }
}

/// Symbol, dimensions and ratio of the `i`-th named unit that takes prefixes.
fn simple_entry(i: usize) -> (r: (&'static str, Dimensions, u64, u64))
    requires
        i < SIMPLE_UNITS,
    ensures
        r.0@ == simple_symbol(i as int),
        r.1@ == simple_dims(i as int),
        r.2 as nat == simple_ratio(i as int).num,
        r.3 as nat == simple_ratio(i as int).den,
{
    proof {
        reveal_strlit("m");
        reveal_strlit("s");
        reveal_strlit("A");
        reveal_strlit("K");
        reveal_strlit("mol");
        reveal_strlit("cd");
        reveal_strlit("g");
        reveal_strlit("Hz");
        reveal_strlit("N");
        reveal_strlit("Pa");
        reveal_strlit("J");
        reveal_strlit("W");
    }
    if i == 0 {
        ("m", Dimensions::new(1, 0, 0, 0, 0, 0, 0), 1, 1)
    } else if i == 1 {
        ("s", Dimensions::new(0, 0, 1, 0, 0, 0, 0), 1, 1)
    } else if i == 2 {
        ("A", Dimensions::new(0, 0, 0, 1, 0, 0, 0), 1, 1)
    } else if i == 3 {
        ("K", Dimensions::new(0, 0, 0, 0, 1, 0, 0), 1, 1)
    } else if i == 4 {
        ("mol", Dimensions::new(0, 0, 0, 0, 0, 1, 0), 1, 1)
    } else if i == 5 {
        ("cd", Dimensions::new(0, 0, 0, 0, 0, 0, 1), 1, 1)
    } else if i == 6 {
        ("g", Dimensions::new(0, 1, 0, 0, 0, 0, 0), 1, 1000)
    } else if i == 7 {
        ("Hz", Dimensions::new(0, 0, -1, 0, 0, 0, 0), 1, 1)
    } else if i == 8 {
        ("N", Dimensions::new(1, 1, -2, 0, 0, 0, 0), 1, 1)
    } else if i == 9 {
        ("Pa", Dimensions::new(-1, 1, -2, 0, 0, 0, 0), 1, 1)
    } else if i == 10 {
        ("J", Dimensions::new(2, 1, -2, 0, 0, 0, 0), 1, 1)
    } else {
        ("W", Dimensions::new(2, 1, -3, 0, 0, 0, 0), 1, 1)
    }
}

/// Symbol, power of ten and direction (up for a multiple) of the `j`-th prefix.
fn prefix_entry(j: usize) -> (r: (&'static str, u32, bool))
    requires
        j < PREFIXES,
    ensures
        r.0@ == prefix_symbol(j as int),
        r.2 ==> prefix_power(j as int) == r.1 as int,
        !r.2 ==> prefix_power(j as int) == -(r.1 as int),
        r.1 <= 24,
{
    proof {
        reveal_strlit("Y");
        reveal_strlit("Z");
        reveal_strlit("E");
        reveal_strlit("P");
        reveal_strlit("T");
        reveal_strlit("G");
        reveal_strlit("M");
        reveal_strlit("k");
        reveal_strlit("h");
        reveal_strlit("da");
        reveal_strlit("");
        reveal_strlit("d");
        reveal_strlit("c");
        reveal_strlit("m");
        reveal_strlit("\u{3bc}");
        reveal_strlit("n");
        reveal_strlit("p");
        reveal_strlit("f");
        reveal_strlit("a");
        reveal_strlit("z");
        reveal_strlit("y");
    }
    if j == 0 {
        ("Y", 24, true)
    } else if j == 1 {
        ("Z", 21, true)
    } else if j == 2 {
        ("E", 18, true)
    } else if j == 3 {
        ("P", 15, true)
    } else if j == 4 {
        ("T", 12, true)
    } else if j == 5 {
        ("G", 9, true)
    } else if j == 6 {
        ("M", 6, true)
    } else if j == 7 {
        ("k", 3, true)
    } else if j == 8 {
        ("h", 2, true)
    } else if j == 9 {
        ("da", 1, true)
    } else if j == 10 {
        ("", 0, true)
    } else if j == 11 {
        ("d", 1, false)
    } else if j == 12 {
        ("c", 2, false)
    } else if j == 13 {
        ("m", 3, false)
    } else if j == 14 {
        ("\u{3bc}", 6, false)
    } else if j == 15 {
        ("n", 9, false)
    } else if j == 16 {
        ("p", 12, false)
    } else if j == 17 {
        ("f", 15, false)
    } else if j == 18 {
        ("a", 18, false)
    } else if j == 19 {
        ("z", 21, false)
    } else {
        ("y", 24, false)
    }
}

/// Symbol and value of the `i`-th named unit that takes no prefix.
fn coherent_entry(i: usize) -> (r: (&'static str, Dimensions, u64, u64))
    requires
        i < COHERENT_UNITS,
    ensures
        r.0@ == coherent_symbol(i as int),
        r.1@ == coherent_value(i as int).dims,
        r.2 as nat == coherent_value(i as int).ratio.num,
        r.3 as nat == coherent_value(i as int).ratio.den,
{
    proof {
        reveal_strlit("dimless");
        reveal_strlit("m^2");
        reveal_strlit("m^3");
        reveal_strlit("m/s");
        reveal_strlit("min");
        reveal_strlit("h");
        reveal_strlit("d");
        reveal_strlit("km/h");
    }
    if i == 0 {
        ("dimless", Dimensions::new(0, 0, 0, 0, 0, 0, 0), 1, 1)
    } else if i == 1 {
        ("m^2", Dimensions::new(2, 0, 0, 0, 0, 0, 0), 1, 1)
    } else if i == 2 {
        ("m^3", Dimensions::new(3, 0, 0, 0, 0, 0, 0), 1, 1)
    } else if i == 3 {
        ("m/s", Dimensions::new(1, 0, -1, 0, 0, 0, 0), 1, 1)
    } else if i == 4 {
        ("min", Dimensions::new(0, 0, 1, 0, 0, 0, 0), 60, 1)
    } else if i == 5 {
        ("h", Dimensions::new(0, 0, 1, 0, 0, 0, 0), 3600, 1)
    } else if i == 6 {
        ("d", Dimensions::new(0, 0, 1, 0, 0, 0, 0), 86400, 1)
    } else {
        ("km/h", Dimensions::new(1, 0, -1, 0, 0, 0, 0), 1000, 3600)
    }
}

/// `10^a <= 10^b` for `a <= b`.
proof fn lemma_pow10_monotone(a: nat, b: nat)
    requires
        a <= b,
    ensures
        1 <= pow10(a) <= pow10(b),
    decreases b,
{
    if a < b {
        lemma_pow10_monotone(a, (b - 1) as nat);
    } else if a > 0 {
        lemma_pow10_monotone((a - 1) as nat, (a - 1) as nat);
    }
}

/// `10^k` for `k <= 24`.
fn pow10_u128(k: u32) -> (r: u128)
    requires
        k <= 24,
    ensures
        r == pow10(k as nat),
        r <= 1_000_000_000_000_000_000_000_000u128,
{
    proof {
        reveal_with_fuel(pow10, 25);
        assert(pow10(24) == 1_000_000_000_000_000_000_000_000u128);
    }
    let mut r: u128 = 1;
    let mut i: u32 = 0;
    while i < k
        invariant
            i <= k <= 24,
            r == pow10(i as nat),
            pow10(24) == 1_000_000_000_000_000_000_000_000u128,
        decreases k - i,
    {
        proof {
            lemma_pow10_monotone((i + 1) as nat, 24);
        }
        r = r * 10;
        i = i + 1;
    }
    proof {
        lemma_pow10_monotone(k as nat, 24);
    }
    r
}

/// The prefix and unit symbols of the first prefixed named unit that `u`
/// is exactly.
fn simple_name(u: &Unit) -> (r: Option<(&'static str, &'static str)>)
    ensures
        r is Some <==> simple_name_from(u@, 0) is Some,
        r is Some ==> r.unwrap().0@ + r.unwrap().1@ == simple_name_from(u@, 0)->0,
{
    let mut i: usize = 0;
    while i < SIMPLE_UNITS
        invariant
            i <= SIMPLE_UNITS,
            simple_name_from(u@, 0) == simple_name_from(u@, (i * PREFIXES) as int),
        decreases SIMPLE_UNITS - i,
    {
        let (symbol, dims, num, den) = simple_entry(i);
        let mut j: usize = 0;
        while j < PREFIXES
            invariant
                i < SIMPLE_UNITS,
                j <= PREFIXES,
                dims@ == simple_dims(i as int),
                num as nat == simple_ratio(i as int).num,
                den as nat == simple_ratio(i as int).den,
                symbol@ == simple_symbol(i as int),
                simple_name_from(u@, 0) == simple_name_from(u@, (i * PREFIXES + j) as int),
            decreases PREFIXES - j,
        {
            let (prefix, power, up) = prefix_entry(j);
            let p = pow10_u128(power);
            let ghost n = (i * PREFIXES + j) as int;
            proof {
                vstd::arithmetic::div_mod::lemma_fundamental_div_mod_converse(
                    n,
                    PREFIXES as int,
                    i as int,
                    j as int,
                );
                assert(num <= 1 && den <= 1000) by {
                    assert(i == 0 || i == 1 || i == 2 || i == 3 || i == 4 || i == 5 || i == 6 || i
                        == 7 || i == 8 || i == 9 || i == 10 || i == 11);
                }
            }
            let (want_num, want_den) = if up {
                ((num as u128) * p, den as u128)
            } else {
                (num as u128, (den as u128) * p)
            };
            if dims == u.dimensions && want_num == u.ratio.numerator as u128 && want_den
                == u.ratio.divisor as u128 {
                assert(simple_match(u@, i as int, j as int));
                return Some((prefix, symbol));
            }
            assert(!simple_match(u@, i as int, j as int));
            j = j + 1;
        }
        i = i + 1;
    }
    None
}

/// The symbol of the first unprefixed named unit that `u` is exactly.
fn coherent_name(u: &Unit) -> (r: Option<&'static str>)
    ensures
        r is Some <==> coherent_name_from(u@, 0) is Some,
        r is Some ==> r->0@ == coherent_name_from(u@, 0)->0,
{
    let mut i: usize = 0;
    while i < COHERENT_UNITS
        invariant
            i <= COHERENT_UNITS,
            coherent_name_from(u@, 0) == coherent_name_from(u@, i as int),
        decreases COHERENT_UNITS - i,
    {
        let (symbol, dims, num, den) = coherent_entry(i);
        if dims == u.dimensions && num == u.ratio.numerator && den == u.ratio.divisor {
            assert(u@ == coherent_value(i as int));
            return Some(symbol);
        }
        assert(u@ != coherent_value(i as int));
        i = i + 1;
    }
    None
}

/// Symbol of the coherent unit of the `i`-th base quantity.
pub open spec fn dim_symbol(i: int) -> Seq<char> {
    if i == 0 {
        seq!['m']
    } else if i == 1 {
        seq!['k', 'g']
    } else if i == 2 {
        seq!['s']
    } else if i == 3 {
        seq!['A']
    } else if i == 4 {
        seq!['K']
    } else if i == 5 {
        seq!['m', 'o', 'l']
    } else {
        seq!['c', 'd']
    }
}

/// `Fraction` text: `n/d`.
pub open spec fn fraction_text(r: Ratio) -> Seq<char> {
    decimal(r.num) + seq!['/'] + decimal(r.den)
}

/// Short `Fraction` text: `0` for a zero numerator, `n` for a divisor of 1,
/// `1` for equal terms, else `n / d`.
pub open spec fn fraction_alternate_text(r: Ratio) -> Seq<char> {
    if r.num == 0 {
        seq!['0']
    } else if r.den == 1 {
        decimal(r.num)
    } else if r.den == r.num {
        seq!['1']
    } else {
        decimal(r.num) + seq![' ', '/', ' '] + decimal(r.den)
    }
}

/// `Fraction` debugging text: `Fraction<n/d>`.
pub open spec fn fraction_debug_text(r: Ratio) -> Seq<char> {
    seq!['F', 'r', 'a', 'c', 't', 'i', 'o', 'n', '<'] + fraction_text(r) + seq!['>']
}

/// The first `k` exponents, each as `symbol^exponent`, joined by ` * `.
pub open spec fn dims_text_upto(d: Seq<int>, k: nat) -> Seq<char>
    decreases k,
{
    if k == 0 {
        Seq::empty()
    } else {
        let sep = if k == 1 {
            Seq::<char>::empty()
        } else {
            seq![' ', '*', ' ']
        };
        dims_text_upto(d, (k - 1) as nat) + sep + dim_symbol(k - 1) + seq!['^'] + signed_decimal(
            d[k - 1],
        )
    }
}

/// The first `k` exponents joined by `, `.
pub open spec fn dims_debug_upto(d: Seq<int>, k: nat) -> Seq<char>
    decreases k,
{
    if k == 0 {
        Seq::empty()
    } else {
        let sep = if k == 1 {
            Seq::<char>::empty()
        } else {
            seq![',', ' ']
        };
        dims_debug_upto(d, (k - 1) as nat) + sep + signed_decimal(d[k - 1])
    }
}

/// `Dimensions` text: `m^1 * kg^0 * s^-1 * A^0 * K^0 * mol^0 * cd^0`.
pub open spec fn dimensions_text(d: Seq<int>) -> Seq<char> {
    dims_text_upto(d, 7)
}

/// `Dimensions` debugging text: `Dimensions<1, 0, -1, 0, 0, 0, 0>`.
pub open spec fn dimensions_debug_text(d: Seq<int>) -> Seq<char> {
    seq!['D', 'i', 'm', 'e', 'n', 's', 'i', 'o', 'n', 's', '<'] + dims_debug_upto(d, 7) + seq!['>']
}

/// The first `k` exponents are all zero.
pub open spec fn all_zero_before(d: Seq<int>, k: int) -> bool {
    forall|j: int| 0 <= j < k ==> d[j] == 0
}

/// One factor of a unit without a name: nothing for exponent 0, the symbol
/// for exponent 1, else `symbol^exponent`; after another factor, preceded by
/// ` * `.
pub open spec fn factor_text(i: int, e: int, first: bool) -> Seq<char> {
    let sep = if first {
        Seq::<char>::empty()
    } else {
        seq![' ', '*', ' ']
    };
    if e == 0 {
        Seq::empty()
    } else if e == 1 {
        sep + dim_symbol(i)
    } else {
        sep + dim_symbol(i) + seq!['^'] + signed_decimal(e)
    }
}

/// The factors of the first `k` exponents.
pub open spec fn factors_upto(d: Seq<int>, k: nat) -> Seq<char>
    decreases k,
{
    if k == 0 {
        Seq::empty()
    } else {
        factors_upto(d, (k - 1) as nat) + factor_text(
            k - 1,
            d[k - 1],
            all_zero_before(d, k - 1),
        )
    }
}

/// A ratio other than `1/1` as `(ratio: n/d)`, after a space where factors
/// precede it.
pub open spec fn ratio_note(r: Ratio, first: bool) -> Seq<char> {
    if r.num == 1 && r.den == 1 {
        Seq::empty()
    } else if first {
        seq!['(', 'r', 'a', 't', 'i', 'o', ':', ' '] + fraction_text(r) + seq![')']
    } else {
        seq![' ', '(', 'r', 'a', 't', 'i', 'o', ':', ' '] + fraction_text(r) + seq![')']
    }
}

/// Text of a unit: its name where it has one (`kHz`, `km/h`), else its
/// factors and ratio (`m * kg^-2 * s (ratio: 1/1000)`).
pub open spec fn unit_text(u: UnitValue) -> Seq<char> {
    match unit_name(u) {
        Some(name) => name,
        None => factors_upto(u.dims, 7) + ratio_note(u.ratio, all_zero_before(u.dims, 7)),
    }
}

/// `Unit` debugging text: `Unit<Dimensions<...>, Fraction<n/d>>`.
pub open spec fn unit_debug_text(u: UnitValue) -> Seq<char> {
    seq!['U', 'n', 'i', 't', '<'] + dimensions_debug_text(u.dims) + seq![',', ' '] + fraction_debug_text(u.ratio)
        + seq!['>']
}

/// `Quantity` text: the value, a space and the unit's text (`42 kHz`).
pub open spec fn quantity_text(x: int, u: UnitValue) -> Seq<char> {
    signed_decimal(x) + seq![' '] + unit_text(u)
}

/// `Quantity` debugging text: `Quantity<_, Unit<...>>(42)`.
pub open spec fn quantity_debug_text(x: int, u: UnitValue) -> Seq<char> {
    seq!['Q', 'u', 'a', 'n', 't', 'i', 't', 'y', '<', '_', ',', ' '] + unit_debug_text(u) + seq!['>', '('] + signed_decimal(x) + seq![')']
}

/// The symbol of the coherent unit of the `i`-th base quantity.
fn dim_symbol_str(i: usize) -> (r: &'static str)
    requires
        i < 7,
    ensures
        r@ == dim_symbol(i as int),
{
    proof {
        reveal_strlit("m");
        reveal_strlit("kg");
        reveal_strlit("s");
        reveal_strlit("A");
        reveal_strlit("K");
        reveal_strlit("mol");
        reveal_strlit("cd");
    }
    if i == 0 {
        "m"
    } else if i == 1 {
        "kg"
    } else if i == 2 {
        "s"
    } else if i == 3 {
        "A"
    } else if i == 4 {
        "K"
    } else if i == 5 {
        "mol"
    } else {
        "cd"
    }
}

/// Appends `n/d`.
fn push_fraction(s: &mut String, f: &Fraction)
    ensures
        final(s)@ == old(s)@ + fraction_text(f@),
{
    proof {
        reveal_strlit("/");
    }
    push_decimal(s, f.numerator);
    s.append("/");
    push_decimal(s, f.divisor);
    assert(final(s)@ =~= old(s)@ + fraction_text(f@));
}

/// Appends the debugging text of `d`.
fn push_dimensions_debug(s: &mut String, d: &Dimensions)
    ensures
        final(s)@ == old(s)@ + dimensions_debug_text(d@),
{
    proof {
        reveal_strlit("Dimensions<");
        reveal_strlit(", ");
        reveal_strlit(">");
    }
    s.append("Dimensions<");
    let ghost start = s@;
    let mut k: usize = 0;
    while k < 7
        invariant
            k <= 7,
            s@ == start + dims_debug_upto(d@, k as nat),
        decreases 7 - k,
    {
        proof {
            reveal_strlit(", ");
        }
        let ghost before = s@;
        let ghost sep = if k == 0 {
            Seq::<char>::empty()
        } else {
            seq![',', ' ']
        };
        if k > 0 {
            s.append(", ");
        }
        assert(s@ =~= before + sep);
        let e = d.component(k);
        push_signed(s, e as i64);
        assert(s@ =~= before + (sep + signed_decimal(d@[k as int])));
        assert(dims_debug_upto(d@, (k + 1) as nat) == dims_debug_upto(d@, k as nat) + sep
            + signed_decimal(d@[k as int]));
        k = k + 1;
        assert(s@ =~= start + dims_debug_upto(d@, k as nat));
    }
    s.append(">");
    assert(s@ =~= old(s)@ + dimensions_debug_text(d@));
}

/// Appends the debugging text of `u`.
fn push_unit_debug(s: &mut String, u: &Unit)
    ensures
        final(s)@ == old(s)@ + unit_debug_text(u@),
{
    proof {
        reveal_strlit("Unit<");
        reveal_strlit(", ");
        reveal_strlit("Fraction<");
        reveal_strlit(">");
    }
    s.append("Unit<");
    push_dimensions_debug(s, &u.dimensions);
    s.append(", ");
    s.append("Fraction<");
    push_fraction(s, &u.ratio);
    s.append(">");
    s.append(">");
    assert(s@ =~= old(s)@ + unit_debug_text(u@));
}

/// Appends the text of `u`.
fn push_unit(s: &mut String, u: &Unit)
    ensures
        final(s)@ == old(s)@ + unit_text(u@),
{
    match simple_name(u) {
        Some((prefix, symbol)) => {
            s.append(prefix);
            s.append(symbol);
            assert(s@ =~= old(s)@ + unit_text(u@));
            return ;
        },
        None => {},
    }
    match coherent_name(u) {
        Some(name) => {
            s.append(name);
            return ;
        },
        None => {},
    }
    proof {
        reveal_strlit(" * ");
        reveal_strlit("^");
        reveal_strlit("(ratio: ");
        reveal_strlit(" (ratio: ");
        reveal_strlit(")");
    }
    let ghost start = s@;
    let d = &u.dimensions;
    let mut first = true;
    let mut k: usize = 0;
    while k < 7
        invariant
            k <= 7,
            s@ == start + factors_upto(d@, k as nat),
            first == all_zero_before(d@, k as int),
        decreases 7 - k,
    {
        proof {
            reveal_strlit(" * ");
            reveal_strlit("^");
        }
        let e = d.component(k);
        let ghost before = s@;
        let ghost part = factor_text(k as int, e as int, first);
        if e != 0 {
            let ghost sep = if first {
                Seq::<char>::empty()
            } else {
                seq![' ', '*', ' ']
            };
            if !first {
                s.append(" * ");
            }
            assert(s@ =~= before + sep);
            s.append(dim_symbol_str(k));
            assert(s@ =~= before + sep + dim_symbol(k as int));
            if e != 1 {
                s.append("^");
                push_signed(s, e as i64);
                assert(s@ =~= before + (sep + dim_symbol(k as int) + seq!['^'] + signed_decimal(
                    e as int,
                )));
            }
            first = false;
        }
        assert(s@ =~= before + part);
        assert(factors_upto(d@, (k + 1) as nat) == factors_upto(d@, k as nat) + part);
        k = k + 1;
        assert(s@ =~= start + factors_upto(d@, k as nat));
    }
    let ghost mid = s@;
    if u.ratio.numerator != 1 || u.ratio.divisor != 1 {
        if first {
            s.append("(ratio: ");
        } else {
            s.append(" (ratio: ");
        }
        push_fraction(s, &u.ratio);
        s.append(")");
    }
    assert(s@ =~= mid + ratio_note(u.ratio@, all_zero_before(d@, 7)));
    assert(s@ =~= old(s)@ + unit_text(u@));
}

impl Dimensions {
    /// The `i`-th exponent, in the order of the fields.
    pub fn component(&self, i: usize) -> (r: i32)
        requires
            i < 7,
        ensures
            r == self@[i as int],
    {
        if i == 0 {
            self.length
        } else if i == 1 {
            self.mass
        } else if i == 2 {
            self.time
        } else if i == 3 {
            self.electric_current
        } else if i == 4 {
            self.thermodynamic_temperature
        } else if i == 5 {
            self.amount_of_substance
        } else {
            self.luminous_intensity
        }
    }

    /// `m^1 * kg^0 * s^-1 * A^0 * K^0 * mol^0 * cd^0`
    pub fn to_string(&self) -> (r: String)
        ensures
            r@ == dimensions_text(self@),
    {
        proof {
            reveal_strlit(" * ");
            reveal_strlit("^");
        }
        let mut s = String::new();
        let mut k: usize = 0;
        while k < 7
            invariant
                k <= 7,
                s@ == dims_text_upto(self@, k as nat),
            decreases 7 - k,
        {
            proof {
                reveal_strlit(" * ");
                reveal_strlit("^");
            }
            let ghost before = s@;
            let ghost sep = if k == 0 {
                Seq::<char>::empty()
            } else {
                seq![' ', '*', ' ']
            };
            if k > 0 {
                s.append(" * ");
            }
            assert(s@ =~= before + sep);
            s.append(dim_symbol_str(k));
            s.append("^");
            assert(s@ =~= before + sep + dim_symbol(k as int) + seq!['^']);
            let e = self.component(k);
            push_signed(&mut s, e as i64);
            let ghost part = sep + dim_symbol(k as int) + seq!['^'] + signed_decimal(
                self@[k as int],
            );
            assert(s@ =~= before + part);
            assert(dims_text_upto(self@, (k + 1) as nat) == dims_text_upto(self@, k as nat) + part);
            k = k + 1;
            assert(s@ =~= dims_text_upto(self@, k as nat));
        }
        s
    }

    /// `Dimensions<1, 0, -1, 0, 0, 0, 0>`
    pub fn to_debug_string(&self) -> (r: String)
        ensures
            r@ == dimensions_debug_text(self@),
    {
        let mut s = String::new();
        push_dimensions_debug(&mut s, self);
        assert(s@ =~= dimensions_debug_text(self@));
        s
    }
}

impl Fraction {
    /// `n/d`, terms as they are: `1000/3600`.
    pub fn to_string(&self) -> (r: String)
        ensures
            r@ == fraction_text(self@),
    {
        let mut s = String::new();
        push_fraction(&mut s, self);
        assert(s@ =~= fraction_text(self@));
        s
    }

    /// The short form: `0`, `n`, `1` or `n / d`.
    pub fn to_alternate_string(&self) -> (r: String)
        ensures
            r@ == fraction_alternate_text(self@),
    {
        proof {
            reveal_strlit("0");
            reveal_strlit("1");
            reveal_strlit(" / ");
        }
        let mut s = String::new();
        if self.numerator == 0 {
            s.append("0");
        } else if self.divisor == 1 {
            push_decimal(&mut s, self.numerator);
        } else if self.divisor == self.numerator {
            s.append("1");
        } else {
            push_decimal(&mut s, self.numerator);
            s.append(" / ");
            push_decimal(&mut s, self.divisor);
        }
        assert(s@ =~= fraction_alternate_text(self@));
        s
    }

    /// `Fraction<n/d>`
    pub fn to_debug_string(&self) -> (r: String)
        ensures
            r@ == fraction_debug_text(self@),
    {
        proof {
            reveal_strlit("Fraction<");
            reveal_strlit(">");
        }
        let mut s = String::new();
        s.append("Fraction<");
        push_fraction(&mut s, self);
        s.append(">");
        assert(s@ =~= fraction_debug_text(self@));
        s
    }
}

impl Unit {
    /// The unit's name where it has one (`kHz`, `km/h`), else its factors
    /// and its ratio where that is not `1/1` (`m * kg^-2 (ratio: 1/1000)`).
    pub fn to_string(&self) -> (r: String)
        ensures
            r@ == unit_text(self@),
    {
        let mut s = String::new();
        push_unit(&mut s, self);
        assert(s@ =~= unit_text(self@));
        s
    }

    /// `Unit<Dimensions<...>, Fraction<n/d>>`
    pub fn to_debug_string(&self) -> (r: String)
        ensures
            r@ == unit_debug_text(self@),
    {
        let mut s = String::new();
        push_unit_debug(&mut s, self);
        assert(s@ =~= unit_debug_text(self@));
        s
    }
}

impl Quantity {
    /// The value and the unit's text: `42 kHz`.
    pub fn to_string(&self) -> (r: String)
        ensures
            r@ == quantity_text(self.spec_storage() as int, self.spec_unit()@),
    {
        proof {
            reveal_strlit(" ");
        }
        let mut s = String::new();
        push_signed(&mut s, self.into_inner());
        s.append(" ");
        push_unit(&mut s, &self.unit());
        assert(s@ =~= quantity_text(self.spec_storage() as int, self.spec_unit()@));
        s
    }

    /// `Quantity<_, Unit<...>>(42)`
    pub fn to_debug_string(&self) -> (r: String)
        ensures
            r@ == quantity_debug_text(self.spec_storage() as int, self.spec_unit()@),
    {
        proof {
            reveal_strlit("Quantity<_, ");
            reveal_strlit(">(");
            reveal_strlit(")");
        }
        let mut s = String::new();
        s.append("Quantity<_, ");
        push_unit_debug(&mut s, &self.unit());
        s.append(">(");
        push_signed(&mut s, self.into_inner());
        s.append(")");
        assert(s@ =~= quantity_debug_text(self.spec_storage() as int, self.spec_unit()@));
        s
    }
}

} // verus!
