//! A compiler for unit expressions such as `kg * m ^ 2 / s ^ 3`.
//!
//! An expression is a sequence of [`Token`]s: units, each optionally raised
//! to an integer power in `[-4, 4]`, separated by `*` or `/`. It is folded
//! left to right, from the dimensionless unit, into one [`Unit`], which is not
//! reduced.
use vstd::prelude::*;

use crate::unit::{identity_unit, unit_div, unit_fits, unit_mul, Unit, UnitValue};

verus! {

/// Largest magnitude of an exponent.
pub const MAX_EXPONENT: i64 = 4;

/// One token of a unit expression.
#[derive(Clone, Copy, Debug)]
pub enum Token {
    /// A unit operand.
    Term(Unit),
    /// An operator: `*`, `/` or `^`.
    Op(char),
    /// The integer after `^`.
    Exponent(i64),
}

/// Why an expression was refused.
#[derive(Clone, Copy, Debug, PartialEq, Eq, Structural)]
pub enum CompileError {
    /// An exponent outside `[-4, 4]`, which is named.
    ExponentOutOfRange(i64),
    /// An operator other than `*`, `/` and `^`, which is named.
    UnsupportedOperator(char),
    /// The token at this position does not fit the grammar, or the
    /// expression ends there while a unit or an exponent is expected.
    UnexpectedToken(usize),
    /// The result, or a unit on the way to it, has an exponent beyond `i32`
    /// or a ratio term beyond `u64`.
    Overflow,
}

/// One step of the fold: multiply (`true`) or divide the accumulator by a unit.
pub type Step = (bool, Unit);

/// `*`, `/` and `^`.
pub open spec fn is_operator(c: char) -> bool {
    c == '*' || c == '/' || c == '^'
}

/// The error for an out-of-place token at `i`.
pub open spec fn misplaced(toks: Seq<Token>, i: int) -> CompileError {
    match toks[i] {
        Token::Op(c) => if is_operator(c) {
            CompileError::UnexpectedToken(i as usize)
        } else {
            CompileError::UnsupportedOperator(c)
        },
        _ => CompileError::UnexpectedToken(i as usize),
    }
}

/// `|n|` copies of the step `(multiply, u)`, with the operator flipped when
/// `n` is negative.
pub open spec fn power_steps(multiply: bool, u: Unit, n: int) -> Seq<Step> {
    let m = if n < 0 { !multiply } else { multiply };
    let count = if n < 0 { -n } else { n };
    Seq::new(count as nat, |k: int| (m, u))
}

/// Where the term at `i` ends and its exponent (1 when there is no `^`), or
/// the error of a missing exponent.
pub open spec fn term_exponent(toks: Seq<Token>, i: int) -> Result<(int, int), CompileError> {
    if i + 1 < toks.len() && toks[i + 1] == Token::Op('^') {
        if i + 2 < toks.len() && toks[i + 2] is Exponent {
            Ok((i + 3, toks[i + 2]->Exponent_0 as int))
        } else {
            Err(CompileError::UnexpectedToken((i + 2) as usize))
        }
    } else {
        Ok((i + 1, 1int))
    }
}

/// The steps of the expression from the term at `i` on, the operator before
/// it being `*` when `multiply` holds and `/` otherwise.
pub open spec fn parse_from(toks: Seq<Token>, i: int, multiply: bool) -> Result<
    Seq<Step>,
    CompileError,
>
    decreases toks.len() - i,
{
    if i < 0 || i >= toks.len() {
        Err(CompileError::UnexpectedToken(i as usize))
    } else if !(toks[i] is Term) {
        Err(misplaced(toks, i))
    } else {
        let u = toks[i]->Term_0;
        match term_exponent(toks, i) {
            Err(e) => Err(e),
            Ok((j, n)) => if n < -MAX_EXPONENT || n > MAX_EXPONENT {
                Err(CompileError::ExponentOutOfRange(n as i64))
            } else if j >= toks.len() {
                Ok(power_steps(multiply, u, n))
            } else if toks[j] == Token::Op('*') || toks[j] == Token::Op('/') {
                match parse_from(toks, j + 1, toks[j] == Token::Op('*')) {
                    Ok(rest) => Ok(power_steps(multiply, u, n) + rest),
                    Err(e) => Err(e),
                }
            } else {
                Err(misplaced(toks, j))
            },
        }
    }
}

/// The steps of a whole expression; the empty expression has none.
pub open spec fn parse_spec(toks: Seq<Token>) -> Result<Seq<Step>, CompileError> {
    if toks.len() == 0 {
        Ok(Seq::empty())
    } else {
        parse_from(toks, 0, true)
    }
}

/// The steps applied in order to the dimensionless unit.
pub open spec fn fold_steps(steps: Seq<Step>) -> UnitValue
    decreases steps.len(),
{
    if steps.len() == 0 {
        identity_unit()
    } else {
        let acc = fold_steps(steps.drop_last());
        let (multiply, u) = steps.last();
        if multiply {
            unit_mul(acc, u@)
        } else {
            unit_div(acc, u@)
        }
    }
}

/// Every unit on the way, the result included, can be held by a `Unit`.
pub open spec fn fold_fits(steps: Seq<Step>) -> bool {
    forall|k: int| 0 <= k <= steps.len() ==> unit_fits(#[trigger] fold_steps(steps.take(k)))
}

/// What compiling `toks` gives.
pub open spec fn compile_spec(toks: Seq<Token>) -> Result<UnitValue, CompileError> {
    match parse_spec(toks) {
        Err(e) => Err(e),
        Ok(steps) => if fold_fits(steps) {
            Ok(fold_steps(steps))
        } else {
            Err(CompileError::Overflow)
        },
    }
}

/// Whether `t` is the operator `c`.
fn is_op(t: &Token, c: char) -> (r: bool)
    ensures
        r == (*t == Token::Op(c)),
{
    match t {
        Token::Op(d) => *d == c,
        _ => false,
    }
}

/// The error for the out-of-place token `tokens[i]`.
fn misplaced_at(tokens: &Vec<Token>, i: usize) -> (r: CompileError)
    requires
        i < tokens@.len(),
    ensures
        r == misplaced(tokens@, i as int),
{
    match tokens[i] {
        Token::Op(c) => if c == '*' || c == '/' || c == '^' {
            CompileError::UnexpectedToken(i)
        } else {
            CompileError::UnsupportedOperator(c)
        },
        _ => CompileError::UnexpectedToken(i),
    }
}

/// Reads an expression into the steps of its fold: each term `u ^ n`
/// becomes `|n|` steps by `u`, with the operator before it flipped when `n`
/// is negative (`* u ^ -2` is `/ u / u`).
pub fn parse(tokens: &Vec<Token>) -> (r: Result<Vec<Step>, CompileError>)
    ensures
        match parse_spec(tokens@) {
            Ok(steps) => r is Ok && r->Ok_0@ == steps,
            Err(e) => r is Err && r->Err_0 == e,
        },
{
    let n = tokens.len();
    let mut steps: Vec<Step> = Vec::new();
    if n == 0 {
        assert(steps@ =~= Seq::<Step>::empty());
        return Ok(steps);
    }
    let mut i: usize = 0;
    let mut multiply = true;
    loop
        invariant
            n == tokens@.len(),
            i < n,
            parse_spec(tokens@) == match parse_from(tokens@, i as int, multiply) {
                Ok(rest) => Ok(steps@ + rest),
                Err(e) => Err(e),
            },
        decreases n - i,
    {
        let ghost before = steps@;
        let u = match tokens[i] {
            Token::Term(u) => u,
            _ => {
                return Err(misplaced_at(tokens, i));
            },
        };
        let mut exp: i64 = 1;
        let mut j: usize = i + 1;
        if j < n && is_op(&tokens[j], '^') {
            if j + 1 < n {
                match tokens[j + 1] {
                    Token::Exponent(e) => {
                        exp = e;
                        j = j + 2;
                    },
                    _ => {
                        return Err(CompileError::UnexpectedToken(j + 1));
                    },
                }
            } else {
                return Err(CompileError::UnexpectedToken(j + 1));
            }
        }
        assert(term_exponent(tokens@, i as int) == Ok::<(int, int), CompileError>(
            (j as int, exp as int),
        ));
        if exp < -MAX_EXPONENT || exp > MAX_EXPONENT {
            return Err(CompileError::ExponentOutOfRange(exp));
        }
        let m = if exp < 0 {
            !multiply
        } else {
            multiply
        };
        let count: i64 = if exp < 0 {
            -exp
        } else {
            exp
        };
        let mut k: i64 = 0;
        while k < count
            invariant
                0 <= k <= count <= MAX_EXPONENT,
                steps@ == before + Seq::new(k as nat, |x: int| (m, u)),
            decreases count - k,
        {
            steps.push((m, u));
            k = k + 1;
            assert(steps@ =~= before + Seq::new(k as nat, |x: int| (m, u)));
        }
        let ghost here = power_steps(multiply, u, exp as int);
        assert(here =~= Seq::new(k as nat, |x: int| (m, u)));
        if j >= n {
            return Ok(steps);
        }
        if is_op(&tokens[j], '*') {
            multiply = true;
        } else if is_op(&tokens[j], '/') {
            multiply = false;
        } else {
            return Err(misplaced_at(tokens, j));
        }
        proof {
            match parse_from(tokens@, j + 1, multiply) {
                Ok(rest) => {
                    assert(before + (here + rest) =~= (before + here) + rest);
                },
                Err(e) => {},
            }
        }
        i = j + 1;
        if i >= n {
            return Err(CompileError::UnexpectedToken(i));
        }
    }
}

/// The fold of `steps.take(k + 1)` is one step past that of `steps.take(k)`.
proof fn lemma_fold_step(steps: Seq<Step>, k: int)
    requires
        0 <= k < steps.len(),
    ensures
        fold_steps(steps.take(k + 1)) == (if steps[k].0 {
            unit_mul(fold_steps(steps.take(k)), steps[k].1@)
        } else {
            unit_div(fold_steps(steps.take(k)), steps[k].1@)
        }),
{
    assert(steps.take(k + 1).drop_last() =~= steps.take(k));
}

/// Applies the steps, left to right, to the dimensionless unit.
pub fn fold(steps: &Vec<Step>) -> (r: Result<Unit, CompileError>)
    ensures
        fold_fits(steps@) ==> r is Ok && r->Ok_0@ == fold_steps(steps@),
        !fold_fits(steps@) ==> r == Err::<Unit, CompileError>(CompileError::Overflow),
{
    let mut acc = Unit::dimensionless();
    let mut k: usize = 0;
    assert(steps@.take(0) =~= Seq::<Step>::empty());
    while k < steps.len()
        invariant
            k <= steps@.len(),
            acc@ == fold_steps(steps@.take(k as int)),
            forall|x: int| 0 <= x <= k ==> unit_fits(#[trigger] fold_steps(steps@.take(x))),
        decreases steps@.len() - k,
    {
        proof {
            lemma_fold_step(steps@, k as int);
        }
        let (multiply, u) = steps[k];
        let next = if multiply {
            acc.checked_mul(u)
        } else {
            acc.checked_div(u)
        };
        match next {
            Some(v) => {
                acc = v;
            },
            None => {
                assert(!unit_fits(fold_steps(steps@.take(k + 1))));
                return Err(CompileError::Overflow);
            },
        }
        k = k + 1;
    }
    assert(steps@.take(steps@.len() as int) =~= steps@);
    Ok(acc)
}

/// Compiles a unit expression into one unit, not reduced. The empty
/// expression is the dimensionless unit; `[m, /, s]` is metre per second.
pub fn compile(tokens: &Vec<Token>) -> (r: Result<Unit, CompileError>)
    ensures
        match compile_spec(tokens@) {
            Ok(v) => r is Ok && r->Ok_0@ == v,
            Err(e) => r is Err && r->Err_0 == e,
        },
{
    match parse(tokens) {
        Ok(steps) => fold(&steps),
        Err(e) => Err(e),
    }
}

} // verus!
