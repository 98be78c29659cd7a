//! Greatest common divisor by the binary algorithm.
use vstd::prelude::*;

verus! {

/// Binary GCD:
///
/// 1. `gcd(0, v) = v`, `gcd(u, 0) = u`;
/// 2. both even: `gcd(u, v) = 2 * gcd(u / 2, v / 2)`;
/// 3. one even: halve the even one;
/// 4. both odd: `gcd(u, v) = gcd((max - min) / 2, min)`.
pub open spec fn binary_gcd(u: nat, v: nat) -> nat
    decreases u + v,
{
    if u == 0 {
        v
    } else if v == 0 {
        u
    } else if u % 2 == 0 && v % 2 == 0 {
        2 * binary_gcd(u / 2, v / 2)
    } else if u % 2 == 0 {
        binary_gcd(u / 2, v)
    } else if v % 2 == 0 {
        binary_gcd(u, v / 2)
    } else if u >= v {
        binary_gcd(((u - v) / 2) as nat, v)
    } else {
        binary_gcd(((v - u) / 2) as nat, u)
    }
}

/// The result is bounded by each non-zero argument, and is zero only when
/// both arguments are.
pub proof fn lemma_gcd_bounds(u: nat, v: nat)
    ensures
        u > 0 ==> binary_gcd(u, v) <= u,
        v > 0 ==> binary_gcd(u, v) <= v,
        (u > 0 || v > 0) ==> binary_gcd(u, v) > 0,
    decreases u + v,
{
    if u == 0 || v == 0 {
    } else if u % 2 == 0 && v % 2 == 0 {
        lemma_gcd_bounds(u / 2, v / 2);
    } else if u % 2 == 0 {
        lemma_gcd_bounds(u / 2, v);
    } else if v % 2 == 0 {
        lemma_gcd_bounds(u, v / 2);
    } else if u >= v {
        lemma_gcd_bounds(((u - v) / 2) as nat, v);
    } else {
        lemma_gcd_bounds(((v - u) / 2) as nat, u);
    }
}

/// An odd factor of an even product leaves the other factor even.
proof fn lemma_odd_factor(a: nat, c: nat)
    requires
        c % 2 == 1,
        (a * c) % 2 == 0,
    ensures
        a % 2 == 0,
{
    let q = a / 2;
    let p = c / 2;
    assert(a == 2 * q + a % 2);
    assert(c == 2 * p + 1);
    if a % 2 == 1 {
        assert(a * c == 2 * (2 * q * p + q + p) + 1) by (nonlinear_arith)
            requires
                a == 2 * q + 1,
                c == 2 * p + 1,
        ;
    }
}

/// The result divides both arguments: `u == ku * g` and `v == kv * g`.
pub proof fn lemma_gcd_divides(u: nat, v: nat) -> (k: (nat, nat))
    ensures
        u == k.0 * binary_gcd(u, v),
        v == k.1 * binary_gcd(u, v),
    decreases u + v,
{
    let g = binary_gcd(u, v);
    if u == 0 {
        assert(u == 0 * g && v == 1 * g);
        (0, 1)
    } else if v == 0 {
        assert(u == 1 * g && v == 0 * g);
        (1, 0)
    } else if u % 2 == 0 && v % 2 == 0 {
        let (a, b) = lemma_gcd_divides(u / 2, v / 2);
        let h = binary_gcd(u / 2, v / 2);
        assert(g == 2 * h);
        assert(u == a * (2 * h)) by (nonlinear_arith)
            requires
                u / 2 == a * h,
                u % 2 == 0,
        ;
        assert(v == b * (2 * h)) by (nonlinear_arith)
            requires
                v / 2 == b * h,
                v % 2 == 0,
        ;
        assert(u == a * g && v == b * g);
        (a, b)
    } else if u % 2 == 0 {
        let (a, b) = lemma_gcd_divides(u / 2, v);
        assert(g == binary_gcd(u / 2, v));
        assert(u == (2 * a) * g) by (nonlinear_arith)
            requires
                u / 2 == a * g,
                u % 2 == 0,
        ;
        ((2 * a) as nat, b)
    } else if v % 2 == 0 {
        let (a, b) = lemma_gcd_divides(u, v / 2);
        assert(g == binary_gcd(u, v / 2));
        assert(v == (2 * b) * g) by (nonlinear_arith)
            requires
                v / 2 == b * g,
                v % 2 == 0,
        ;
        (a, (2 * b) as nat)
    } else if u >= v {
        let w = ((u - v) / 2) as nat;
        let (a, b) = lemma_gcd_divides(w, v);
        assert(g == binary_gcd(w, v));
        assert(u == (2 * a + b) * g) by (nonlinear_arith)
            requires
                w == a * g,
                v == b * g,
                u - v == 2 * w,
        ;
        ((2 * a + b) as nat, b)
    } else {
        let w = ((v - u) / 2) as nat;
        let (a, b) = lemma_gcd_divides(w, u);
        assert(g == binary_gcd(w, u));
        assert(v == (2 * a + b) * g) by (nonlinear_arith)
            requires
                w == a * g,
                u == b * g,
                v - u == 2 * w,
        ;
        (b, (2 * a + b) as nat)
    }
}

/// Every common divisor `c` of `u == a * c` and `v == b * c` divides the
/// result: it is the greatest common divisor.
pub proof fn lemma_gcd_greatest(u: nat, v: nat, c: nat, a: nat, b: nat) -> (k: nat)
    requires
        c > 0,
        u == a * c,
        v == b * c,
    ensures
        binary_gcd(u, v) == k * c,
    decreases u + v,
{
    if u == 0 {
        assert(binary_gcd(u, v) == b * c);
        b
    } else if v == 0 {
        assert(binary_gcd(u, v) == a * c);
        a
    } else if u % 2 == 0 && v % 2 == 0 {
        if c % 2 == 0 {
            let c2 = c / 2;
            assert(u / 2 == a * c2 && v / 2 == b * c2) by (nonlinear_arith)
                requires
                    u == a * c,
                    v == b * c,
                    c == 2 * c2,
            ;
            let k = lemma_gcd_greatest(u / 2, v / 2, c2, a, b);
            assert(binary_gcd(u, v) == k * c) by (nonlinear_arith)
                requires
                    binary_gcd(u, v) == 2 * binary_gcd(u / 2, v / 2),
                    binary_gcd(u / 2, v / 2) == k * c2,
                    c == 2 * c2,
            ;
            k
        } else {
            lemma_odd_factor(a, c);
            lemma_odd_factor(b, c);
            let a2 = a / 2;
            let b2 = b / 2;
            assert(u / 2 == a2 * c && v / 2 == b2 * c) by (nonlinear_arith)
                requires
                    u == a * c,
                    v == b * c,
                    a == 2 * a2,
                    b == 2 * b2,
            ;
            let k = lemma_gcd_greatest(u / 2, v / 2, c, a2, b2);
            assert(binary_gcd(u, v) == (2 * k) * c) by (nonlinear_arith)
                requires
                    binary_gcd(u, v) == 2 * binary_gcd(u / 2, v / 2),
                    binary_gcd(u / 2, v / 2) == k * c,
            ;
            ((2 * k) as nat)
        }
    } else if u % 2 == 0 {
        assert(c % 2 == 1) by (nonlinear_arith)
            requires
                v == b * c,
                v % 2 == 1,
        {
            if c % 2 == 0 {
                assert(v == 2 * (b * (c / 2)));
            }
        }
        lemma_odd_factor(a, c);
        let a2 = a / 2;
        assert(u / 2 == a2 * c) by (nonlinear_arith)
            requires
                u == a * c,
                a == 2 * a2,
        ;
        let k = lemma_gcd_greatest(u / 2, v, c, a2, b);
        assert(binary_gcd(u, v) == binary_gcd(u / 2, v));
        k
    } else if v % 2 == 0 {
        assert(c % 2 == 1) by (nonlinear_arith)
            requires
                u == a * c,
                u % 2 == 1,
        {
            if c % 2 == 0 {
                assert(u == 2 * (a * (c / 2)));
            }
        }
        lemma_odd_factor(b, c);
        let b2 = b / 2;
        assert(v / 2 == b2 * c) by (nonlinear_arith)
            requires
                v == b * c,
                b == 2 * b2,
        ;
        let k = lemma_gcd_greatest(u, v / 2, c, a, b2);
        assert(binary_gcd(u, v) == binary_gcd(u, v / 2));
        k
    } else if u >= v {
        let k = lemma_gcd_greatest_odd_step(u, v, c, a, b);
        assert(binary_gcd(u, v) == binary_gcd(((u - v) / 2) as nat, v));
        k
    } else {
        let k = lemma_gcd_greatest_odd_step(v, u, c, b, a);
        assert(binary_gcd(u, v) == binary_gcd(((v - u) / 2) as nat, u));
        k
    }
}

/// The both-odd step of `lemma_gcd_greatest`, with `u >= v`.
proof fn lemma_gcd_greatest_odd_step(u: nat, v: nat, c: nat, a: nat, b: nat) -> (k: nat)
    requires
        c > 0,
        u == a * c,
        v == b * c,
        u % 2 == 1,
        v % 2 == 1,
        u >= v,
        v > 0,
    ensures
        binary_gcd(((u - v) / 2) as nat, v) == k * c,
    decreases u + v, 0nat,
{
    assert(c % 2 == 1) by (nonlinear_arith)
        requires
            u == a * c,
            u % 2 == 1,
    {
        if c % 2 == 0 {
            assert(u == 2 * (a * (c / 2)));
        }
    }
    assert(a >= b) by (nonlinear_arith)
        requires
            u == a * c,
            v == b * c,
            u >= v,
            c > 0,
    ;
    let d = (a - b) as nat;
    assert(u - v == d * c) by (nonlinear_arith)
        requires
            u == a * c,
            v == b * c,
            d == a - b,
    ;
    lemma_odd_factor(d, c);
    let d2 = d / 2;
    let w = ((u - v) / 2) as nat;
    assert(w == d2 * c) by (nonlinear_arith)
        requires
            u - v == d * c,
            d == 2 * d2,
            w == (u - v) / 2,
    ;
    lemma_gcd_greatest(w, v, c, d2, b)
}

/// Greatest common divisor of `u` and `v` (binary algorithm); `gcd(0, 0)` is 0.
pub fn gcd(u: u64, v: u64) -> (r: u64)
    ensures
        r == binary_gcd(u as nat, v as nat),
    decreases u + v,
{
    proof {
        lemma_gcd_bounds(u as nat, v as nat);
    }
    if u == 0 {
        v
    } else if v == 0 {
        u
    } else if u % 2 == 0 && v % 2 == 0 {
        proof {
            lemma_gcd_bounds((u / 2) as nat, (v / 2) as nat);
        }
        2 * gcd(u / 2, v / 2)
    } else if u % 2 == 0 {
        gcd(u / 2, v)
    } else if v % 2 == 0 {
        gcd(u, v / 2)
    } else if u >= v {
        gcd((u - v) / 2, v)
    } else {
        gcd((v - u) / 2, u)
    }
}

} // verus!
