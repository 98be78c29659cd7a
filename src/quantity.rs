//! Quantities: a storage value together with its unit.
use vstd::prelude::*;

use crate::checked::{CheckedAdd, CheckedDiv, CheckedMul, CheckedSub};
use crate::eq::{DimensionsEq, UnitEq};
use crate::fraction::{trunc_div, trunc_rem, Fraction, Ratio};
use crate::unit::{identity_unit, unit_div, unit_fits, unit_mul, unit_strict_equal, Unit};

verus! {

/// Why a quantity operation was refused.
#[derive(Clone, Copy, Debug, PartialEq, Eq, Structural)]
pub enum QuantityError {
    /// The units do not allow the operation: adding, subtracting or
    /// relabelling across units that are not strictly equal, or converting
    /// between units of different dimensions.
    IllegalOperation,
}

/// The value fits in an `i64`.
pub open spec fn fits_i64(x: int) -> bool {
    i64::MIN <= x <= i64::MAX
}

/// Rust's `/` on `i64` neither divides by zero nor overflows.
pub open spec fn can_divide(a: i64, b: i64) -> bool {
    b != 0 && !(a == i64::MIN && b == -1)
}

/// `x` of a unit with ratio `from`, expressed in a unit of the same
/// dimensions with ratio `to`: first scaled to the coherent unit
/// (`x * from.num / from.den`), then to the target (`* to.den / to.num`),
/// each step multiplying first and rounding toward zero.
pub open spec fn converted(x: int, from: Ratio, to: Ratio) -> int {
    trunc_div(trunc_div(x * from.num, from.den as int) * to.den, to.num as int)
}

/// The conversion of `converted` divides by no zero and every step fits in
/// an `i64`.
pub open spec fn can_convert(x: int, from: Ratio, to: Ratio) -> bool {
    &&& from.den != 0
    &&& to.num != 0
    &&& fits_i64(trunc_div(x * from.num, from.den as int))
    &&& fits_i64(converted(x, from, to))
}

/// Sum of the stored values.
pub open spec fn storage_sum(items: Seq<Quantity>) -> int
    decreases items.len(),
{
    if items.len() == 0 {
        0
    } else {
        storage_sum(items.drop_last()) + items.last().spec_storage()
    }
}

/// Every item's unit is strictly equal to `unit`.
pub open spec fn all_of_unit(items: Seq<Quantity>, unit: Unit) -> bool {
    forall|i: int| 0 <= i < items.len() ==> unit_strict_equal(#[trigger] items[i].spec_unit()@, unit@)
}

/// `a / b`, rounded toward zero.
fn div_i64(a: i64, b: i64) -> (r: i64)
    requires
        can_divide(a, b),
    ensures
        r == trunc_div(a as int, b as int),
{
    let ghost x = a as int;
    let ghost d = b as int;
    proof {
        let ax = if x < 0 { -x } else { x };
        let ad = if d < 0 { -d } else { d };
        assert(0 <= ax / ad <= ax) by (nonlinear_arith)
            requires
                ax >= 0,
                ad >= 1,
        ;
        if ad >= 2 {
            assert(ax / ad <= ax / 2) by (nonlinear_arith)
                requires
                    ax >= 0,
                    ad >= 2,
            ;
        }
    }
    match a.checked_div(b) {
        Some(q) => q,
        None => 0,
    }
}

/// A value of unit `unit`, stored as an `i64`.
///
/// The unit decides which operations are legal and which unit a result
/// carries; it does not change the stored value, except in a conversion,
/// which rescales the value so that it still denotes the same physical
/// quantity.
#[derive(Clone, Copy, Debug)]
pub struct Quantity {
    storage: i64,
    unit: Unit,
}

impl Quantity {
    /// The stored value.
    pub closed spec fn spec_storage(&self) -> i64 {
        self.storage
    }

    /// The unit.
    pub closed spec fn spec_unit(&self) -> Unit {
        self.unit
    }

    /// The quantity `value` of `unit`.
    pub fn new(value: i64, unit: Unit) -> (r: Quantity)
        ensures
            r.spec_storage() == value,
            r.spec_unit() == unit,
    {
        Quantity { storage: value, unit }
    }

    /// The stored value, whatever the unit.
    pub fn into_inner(self) -> (r: i64)
        ensures
            r == self.spec_storage(),
    {
        self.storage
    }

    /// The unit.
    pub fn unit(&self) -> (r: Unit)
        ensures
            r == self.spec_unit(),
    {
        self.unit
    }

    /// Applies `f` to the stored value, keeping the unit.
    pub fn map<F: FnOnce(i64) -> i64>(self, f: F) -> (r: Quantity)
        requires
            f.requires((self.spec_storage(),)),
        ensures
            f.ensures((self.spec_storage(),), r.spec_storage()),
            r.spec_unit() == self.spec_unit(),
    {
        Quantity { storage: f(self.storage), unit: self.unit }
    }

    /// The stored value of a dimensionless quantity (one whose unit is
    /// strictly equal to the dimensionless unit with ratio `1 / 1`).
    pub fn value(self) -> (r: Result<i64, QuantityError>)
        ensures
            unit_strict_equal(self.spec_unit()@, identity_unit()) ==> r == Ok::<
                i64,
                QuantityError,
            >(self.spec_storage()),
            !unit_strict_equal(self.spec_unit()@, identity_unit()) ==> r == Err::<
                i64,
                QuantityError,
            >(QuantityError::IllegalOperation),
    {
        if self.unit.strict_equal(&Unit::dimensionless()) {
            Ok(self.storage)
        } else {
            Err(QuantityError::IllegalOperation)
        }
    }

    /// The same quantity labelled with `unit`, which must be strictly equal
    /// to its own unit.
    pub fn as_unit(self, unit: Unit) -> (r: Result<Quantity, QuantityError>)
        ensures
            unit_strict_equal(self.spec_unit()@, unit@) ==> r is Ok && r->Ok_0.spec_storage()
                == self.spec_storage() && r->Ok_0.spec_unit() == unit,
            !unit_strict_equal(self.spec_unit()@, unit@) ==> r == Err::<Quantity, QuantityError>(
                QuantityError::IllegalOperation,
            ),
    {
        if self.unit.strict_equal(&unit) {
            Ok(Quantity { storage: self.storage, unit })
        } else {
            Err(QuantityError::IllegalOperation)
        }
    }

    /// Sum of two quantities of strictly equal units; the result has the
    /// unit of `self`.
    pub fn add(self, rhs: Quantity) -> (r: Result<Quantity, QuantityError>)
        requires
            unit_strict_equal(self.spec_unit()@, rhs.spec_unit()@) ==> fits_i64(
                self.spec_storage() + rhs.spec_storage(),
            ),
        ensures
            unit_strict_equal(self.spec_unit()@, rhs.spec_unit()@) ==> r is Ok
                && r->Ok_0.spec_storage() == self.spec_storage() + rhs.spec_storage()
                && r->Ok_0.spec_unit() == self.spec_unit(),
            !unit_strict_equal(self.spec_unit()@, rhs.spec_unit()@) ==> r == Err::<
                Quantity,
                QuantityError,
            >(QuantityError::IllegalOperation),
    {
        if self.unit.strict_equal(&rhs.unit) {
            Ok(Quantity { storage: self.storage + rhs.storage, unit: self.unit })
        } else {
            Err(QuantityError::IllegalOperation)
        }
    }

    /// Difference of two quantities of strictly equal units; the result has
    /// the unit of `self`.
    pub fn sub(self, rhs: Quantity) -> (r: Result<Quantity, QuantityError>)
        requires
            unit_strict_equal(self.spec_unit()@, rhs.spec_unit()@) ==> fits_i64(
                self.spec_storage() - rhs.spec_storage(),
            ),
        ensures
            unit_strict_equal(self.spec_unit()@, rhs.spec_unit()@) ==> r is Ok
                && r->Ok_0.spec_storage() == self.spec_storage() - rhs.spec_storage()
                && r->Ok_0.spec_unit() == self.spec_unit(),
            !unit_strict_equal(self.spec_unit()@, rhs.spec_unit()@) ==> r == Err::<
                Quantity,
                QuantityError,
            >(QuantityError::IllegalOperation),
    {
        if self.unit.strict_equal(&rhs.unit) {
            Ok(Quantity { storage: self.storage - rhs.storage, unit: self.unit })
        } else {
            Err(QuantityError::IllegalOperation)
        }
    }

    /// Product of two quantities of any units; the unit is the product of
    /// the units.
    pub fn mul(self, rhs: Quantity) -> (r: Quantity)
        requires
            fits_i64(self.spec_storage() * rhs.spec_storage()),
            unit_fits(unit_mul(self.spec_unit()@, rhs.spec_unit()@)),
        ensures
            r.spec_storage() == self.spec_storage() * rhs.spec_storage(),
            r.spec_unit()@ == unit_mul(self.spec_unit()@, rhs.spec_unit()@),
    {
        Quantity { storage: self.storage * rhs.storage, unit: self.unit.mul(rhs.unit) }
    }

    /// Quotient of two quantities of any units, rounded toward zero; the
    /// unit is the quotient of the units.
    pub fn div(self, rhs: Quantity) -> (r: Quantity)
        requires
            can_divide(self.spec_storage(), rhs.spec_storage()),
            unit_fits(unit_div(self.spec_unit()@, rhs.spec_unit()@)),
        ensures
            r.spec_storage() == trunc_div(self.spec_storage() as int, rhs.spec_storage() as int),
            r.spec_unit()@ == unit_div(self.spec_unit()@, rhs.spec_unit()@),
    {
        Quantity { storage: div_i64(self.storage, rhs.storage), unit: self.unit.div(rhs.unit) }
    }

    /// Remainder of the division of two quantities, with the sign of
    /// `self`; the unit is derived as for `div`.
    pub fn rem(self, rhs: Quantity) -> (r: Quantity)
        requires
            can_divide(self.spec_storage(), rhs.spec_storage()),
            unit_fits(unit_div(self.spec_unit()@, rhs.spec_unit()@)),
        ensures
            r.spec_storage() == trunc_rem(self.spec_storage() as int, rhs.spec_storage() as int),
            r.spec_unit()@ == unit_div(self.spec_unit()@, rhs.spec_unit()@),
    {
        Quantity { storage: self.storage % rhs.storage, unit: self.unit.div(rhs.unit) }
    }

    /// Product with a bare number; the unit is kept.
    pub fn mul_scalar(self, k: i64) -> (r: Quantity)
        requires
            fits_i64(self.spec_storage() * k),
        ensures
            r.spec_storage() == self.spec_storage() * k,
            r.spec_unit() == self.spec_unit(),
    {
        Quantity { storage: self.storage * k, unit: self.unit }
    }

    /// Quotient by a bare number, rounded toward zero; the unit is kept.
    pub fn div_scalar(self, k: i64) -> (r: Quantity)
        requires
            can_divide(self.spec_storage(), k),
        ensures
            r.spec_storage() == trunc_div(self.spec_storage() as int, k as int),
            r.spec_unit() == self.spec_unit(),
    {
        Quantity { storage: div_i64(self.storage, k), unit: self.unit }
    }

    /// Remainder of the division by a bare number; the unit is kept.
    pub fn rem_scalar(self, k: i64) -> (r: Quantity)
        requires
            can_divide(self.spec_storage(), k),
        ensures
            r.spec_storage() == trunc_rem(self.spec_storage() as int, k as int),
            r.spec_unit() == self.spec_unit(),
    {
        Quantity { storage: self.storage % k, unit: self.unit }
    }

    /// Negation; the unit is kept.
    pub fn neg(self) -> (r: Quantity)
        requires
            self.spec_storage() != i64::MIN,
        ensures
            r.spec_storage() == -self.spec_storage(),
            r.spec_unit() == self.spec_unit(),
    {
        Quantity { storage: -self.storage, unit: self.unit }
    }
}

impl CheckedAdd<Quantity> for Quantity {
    /// The unit mismatch is reported first, as an error; overflow of the
    /// stored value as `Ok(None)`.
    type Output = Result<Option<Quantity>, QuantityError>;

    open spec fn checked_add_result(self, rhs: Quantity, r: Self::Output) -> bool {
        if !unit_strict_equal(self.spec_unit()@, rhs.spec_unit()@) {
            r == Err::<Option<Quantity>, QuantityError>(QuantityError::IllegalOperation)
        } else if !fits_i64(self.spec_storage() + rhs.spec_storage()) {
            r == Ok::<Option<Quantity>, QuantityError>(None)
        } else {
            &&& r is Ok
            &&& r->Ok_0 is Some
            &&& r->Ok_0->0.spec_storage() == self.spec_storage() + rhs.spec_storage()
            &&& r->Ok_0->0.spec_unit() == self.spec_unit()
        }
    }

    fn checked_add(self, rhs: Quantity) -> (r: Self::Output) {
        if !self.unit.strict_equal(&rhs.unit) {
            return Err(QuantityError::IllegalOperation);
        }
        match self.storage.checked_add(rhs.storage) {
            Some(v) => Ok(Some(Quantity { storage: v, unit: self.unit })),
            None => Ok(None),
        }
    }
}

impl CheckedSub<Quantity> for Quantity {
    /// The unit mismatch is reported first, as an error; overflow of the
    /// stored value as `Ok(None)`.
    type Output = Result<Option<Quantity>, QuantityError>;

    open spec fn checked_sub_result(self, rhs: Quantity, r: Self::Output) -> bool {
        if !unit_strict_equal(self.spec_unit()@, rhs.spec_unit()@) {
            r == Err::<Option<Quantity>, QuantityError>(QuantityError::IllegalOperation)
        } else if !fits_i64(self.spec_storage() - rhs.spec_storage()) {
            r == Ok::<Option<Quantity>, QuantityError>(None)
        } else {
            &&& r is Ok
            &&& r->Ok_0 is Some
            &&& r->Ok_0->0.spec_storage() == self.spec_storage() - rhs.spec_storage()
            &&& r->Ok_0->0.spec_unit() == self.spec_unit()
        }
    }

    fn checked_sub(self, rhs: Quantity) -> (r: Self::Output) {
        if !self.unit.strict_equal(&rhs.unit) {
            return Err(QuantityError::IllegalOperation);
        }
        match self.storage.checked_sub(rhs.storage) {
            Some(v) => Ok(Some(Quantity { storage: v, unit: self.unit })),
            None => Ok(None),
        }
    }
}

impl CheckedMul<Quantity> for Quantity {
    /// `None` when the product of the values overflows, or when the product
    /// of the units cannot be held by a `Unit`.
    type Output = Option<Quantity>;

    open spec fn checked_mul_result(self, rhs: Quantity, r: Option<Quantity>) -> bool {
        if fits_i64(self.spec_storage() * rhs.spec_storage()) && unit_fits(
            unit_mul(self.spec_unit()@, rhs.spec_unit()@),
        ) {
            &&& r is Some
            &&& r->0.spec_storage() == self.spec_storage() * rhs.spec_storage()
            &&& r->0.spec_unit()@ == unit_mul(self.spec_unit()@, rhs.spec_unit()@)
        } else {
            r is None
        }
    }

    fn checked_mul(self, rhs: Quantity) -> (r: Option<Quantity>) {
        match (self.storage.checked_mul(rhs.storage), self.unit.checked_mul(rhs.unit)) {
            (Some(v), Some(u)) => Some(Quantity { storage: v, unit: u }),
            _ => None,
        }
    }
}

impl CheckedMul<i64> for Quantity {
    /// `None` when the product overflows.
    type Output = Option<Quantity>;

    open spec fn checked_mul_result(self, k: i64, r: Option<Quantity>) -> bool {
        if fits_i64(self.spec_storage() * k) {
            &&& r is Some
            &&& r->0.spec_storage() == self.spec_storage() * k
            &&& r->0.spec_unit() == self.spec_unit()
        } else {
            r is None
        }
    }

    fn checked_mul(self, k: i64) -> (r: Option<Quantity>) {
        match self.storage.checked_mul(k) {
            Some(v) => Some(Quantity { storage: v, unit: self.unit }),
            None => None,
        }
    }
}

impl CheckedDiv<Quantity> for Quantity {
    /// `None` when the divisor is zero, when the quotient overflows, or when
    /// the quotient of the units cannot be held by a `Unit`.
    type Output = Option<Quantity>;

    open spec fn checked_div_result(self, rhs: Quantity, r: Option<Quantity>) -> bool {
        if can_divide(self.spec_storage(), rhs.spec_storage()) && unit_fits(
            unit_div(self.spec_unit()@, rhs.spec_unit()@),
        ) {
            &&& r is Some
            &&& r->0.spec_storage() == trunc_div(
                self.spec_storage() as int,
                rhs.spec_storage() as int,
            )
            &&& r->0.spec_unit()@ == unit_div(self.spec_unit()@, rhs.spec_unit()@)
        } else {
            r is None
        }
    }

    fn checked_div(self, rhs: Quantity) -> (r: Option<Quantity>) {
        if rhs.storage == 0 || (self.storage == i64::MIN && rhs.storage == -1) {
            return None;
        }
        match self.unit.checked_div(rhs.unit) {
            Some(u) => Some(Quantity { storage: div_i64(self.storage, rhs.storage), unit: u }),
            None => None,
        }
    }
}

impl CheckedDiv<i64> for Quantity {
    /// `None` when the divisor is zero or the quotient overflows.
    type Output = Option<Quantity>;

    open spec fn checked_div_result(self, k: i64, r: Option<Quantity>) -> bool {
        if can_divide(self.spec_storage(), k) {
            &&& r is Some
            &&& r->0.spec_storage() == trunc_div(self.spec_storage() as int, k as int)
            &&& r->0.spec_unit() == self.spec_unit()
        } else {
            r is None
        }
    }

    fn checked_div(self, k: i64) -> (r: Option<Quantity>) {
        if k == 0 || (self.storage == i64::MIN && k == -1) {
            return None;
        }
        Some(Quantity { storage: div_i64(self.storage, k), unit: self.unit })
    }
}

impl Quantity {
    /// Converts to `unit`, which must have the same dimensions, keeping the
    /// physical quantity: `1000` metres become `1` kilometre.
    pub fn into_unit(self, unit: Unit) -> (r: Result<Quantity, QuantityError>)
        requires
            self.spec_unit()@.dims == unit@.dims ==> can_convert(
                self.spec_storage() as int,
                self.spec_unit()@.ratio,
                unit@.ratio,
            ),
        ensures
            self.spec_unit()@.dims == unit@.dims ==> r is Ok && r->Ok_0.spec_storage()
                == converted(self.spec_storage() as int, self.spec_unit()@.ratio, unit@.ratio)
                && r->Ok_0.spec_unit() == unit,
            self.spec_unit()@.dims != unit@.dims ==> r == Err::<Quantity, QuantityError>(
                QuantityError::IllegalOperation,
            ),
    {
        if !self.unit.dimensions_equal(&unit) {
            return Err(QuantityError::IllegalOperation);
        }
        let base = self.unit.ratio.mul_value(self.storage);
        Ok(Quantity { storage: unit.ratio.div_value(base), unit })
    }

    /// Converts to the unit of the same dimensions with ratio `ratio`,
    /// keeping the physical quantity.
    pub fn into_ratio(self, ratio: Fraction) -> (r: Quantity)
        requires
            can_convert(self.spec_storage() as int, self.spec_unit()@.ratio, ratio@),
        ensures
            r.spec_storage() == converted(self.spec_storage() as int, self.spec_unit()@.ratio, ratio@),
            r.spec_unit() == (Unit { dimensions: self.spec_unit().dimensions, ratio }),
    {
        let unit = Unit::new(self.unit.dimensions, ratio);
        let base = self.unit.ratio.mul_value(self.storage);
        Quantity { storage: ratio.div_value(base), unit }
    }

    /// Converts to the coherent unit of the same dimensions (ratio `1 / 1`),
    /// keeping the physical quantity: `10` kilometres become `10000` metres.
    pub fn into_base(self) -> (r: Quantity)
        requires
            can_convert(self.spec_storage() as int, self.spec_unit()@.ratio, Ratio { num: 1, den: 1 }),
        ensures
            r.spec_storage() == converted(
                self.spec_storage() as int,
                self.spec_unit()@.ratio,
                Ratio { num: 1, den: 1 },
            ),
            r.spec_unit().dimensions == self.spec_unit().dimensions,
            r.spec_unit().ratio@ == (Ratio { num: 1, den: 1 }),
    {
        self.into_ratio(Fraction::one())
    }

    /// Relabels with `unit`, which must have the same dimensions; the stored
    /// value is kept, so `1000` metres become `1000` kilometres.
    pub fn set_unit(self, unit: Unit) -> (r: Result<Quantity, QuantityError>)
        ensures
            self.spec_unit()@.dims == unit@.dims ==> r is Ok && r->Ok_0.spec_storage()
                == self.spec_storage() && r->Ok_0.spec_unit() == unit,
            self.spec_unit()@.dims != unit@.dims ==> r == Err::<Quantity, QuantityError>(
                QuantityError::IllegalOperation,
            ),
    {
        if self.unit.dimensions_equal(&unit) {
            Ok(Quantity { storage: self.storage, unit })
        } else {
            Err(QuantityError::IllegalOperation)
        }
    }

    /// Replaces the ratio of the unit; the stored value is kept.
    pub fn set_ratio(self, ratio: Fraction) -> (r: Quantity)
        ensures
            r.spec_storage() == self.spec_storage(),
            r.spec_unit() == (Unit { dimensions: self.spec_unit().dimensions, ratio }),
    {
        Quantity { storage: self.storage, unit: Unit::new(self.unit.dimensions, ratio) }
    }

    /// `self = self + rhs`, for strictly equal units; otherwise `self` is
    /// left as it was and the error returned.
    pub fn add_assign(&mut self, rhs: Quantity) -> (r: Result<(), QuantityError>)
        requires
            unit_strict_equal(old(self).spec_unit()@, rhs.spec_unit()@) ==> fits_i64(
                old(self).spec_storage() + rhs.spec_storage(),
            ),
        ensures
            unit_strict_equal(old(self).spec_unit()@, rhs.spec_unit()@) ==> r is Ok
                && final(self).spec_storage() == old(self).spec_storage() + rhs.spec_storage()
                && final(self).spec_unit() == old(self).spec_unit(),
            !unit_strict_equal(old(self).spec_unit()@, rhs.spec_unit()@) ==> r == Err::<
                (),
                QuantityError,
            >(QuantityError::IllegalOperation) && *final(self) == *old(self),
    {
        if self.unit.strict_equal(&rhs.unit) {
            self.storage = self.storage + rhs.storage;
            Ok(())
        } else {
            Err(QuantityError::IllegalOperation)
        }
    }

    /// `self = self - rhs`, for strictly equal units; otherwise `self` is
    /// left as it was and the error returned.
    pub fn sub_assign(&mut self, rhs: Quantity) -> (r: Result<(), QuantityError>)
        requires
            unit_strict_equal(old(self).spec_unit()@, rhs.spec_unit()@) ==> fits_i64(
                old(self).spec_storage() - rhs.spec_storage(),
            ),
        ensures
            unit_strict_equal(old(self).spec_unit()@, rhs.spec_unit()@) ==> r is Ok
                && final(self).spec_storage() == old(self).spec_storage() - rhs.spec_storage()
                && final(self).spec_unit() == old(self).spec_unit(),
            !unit_strict_equal(old(self).spec_unit()@, rhs.spec_unit()@) ==> r == Err::<
                (),
                QuantityError,
            >(QuantityError::IllegalOperation) && *final(self) == *old(self),
    {
        if self.unit.strict_equal(&rhs.unit) {
            self.storage = self.storage - rhs.storage;
            Ok(())
        } else {
            Err(QuantityError::IllegalOperation)
        }
    }

    /// `self = self * k`; the unit is kept.
    pub fn mul_assign(&mut self, k: i64)
        requires
            fits_i64(old(self).spec_storage() * k),
        ensures
            final(self).spec_storage() == old(self).spec_storage() * k,
            final(self).spec_unit() == old(self).spec_unit(),
    {
        self.storage = self.storage * k;
    }

    /// `self = self / k`, rounded toward zero; the unit is kept.
    pub fn div_assign(&mut self, k: i64)
        requires
            can_divide(old(self).spec_storage(), k),
        ensures
            final(self).spec_storage() == trunc_div(old(self).spec_storage() as int, k as int),
            final(self).spec_unit() == old(self).spec_unit(),
    {
        self.storage = div_i64(self.storage, k);
    }

    /// `self = self % k`; the unit is kept.
    pub fn rem_assign(&mut self, k: i64)
        requires
            can_divide(old(self).spec_storage(), k),
        ensures
            final(self).spec_storage() == trunc_rem(old(self).spec_storage() as int, k as int),
            final(self).spec_unit() == old(self).spec_unit(),
    {
        self.storage = self.storage % k;
    }

    /// Sum of quantities, all of a unit strictly equal to `unit`; the result
    /// has unit `unit` and the empty sum is zero. The units are all checked
    /// before anything is added.
    pub fn sum(unit: Unit, items: &Vec<Quantity>) -> (r: Result<Quantity, QuantityError>)
        requires
            all_of_unit(items@, unit) ==> forall|k: int|
                0 <= k <= items@.len() ==> fits_i64(#[trigger] storage_sum(items@.take(k))),
        ensures
            all_of_unit(items@, unit) ==> r is Ok && r->Ok_0.spec_storage() == storage_sum(items@)
                && r->Ok_0.spec_unit() == unit,
            !all_of_unit(items@, unit) ==> r == Err::<Quantity, QuantityError>(
                QuantityError::IllegalOperation,
            ),
    {
        let n = items.len();
        let mut i: usize = 0;
        while i < n
            invariant
                n == items@.len(),
                i <= n,
                forall|j: int| 0 <= j < i ==> unit_strict_equal(#[trigger] items@[j].spec_unit()@, unit@),
            decreases n - i,
        {
            if !items[i].unit.strict_equal(&unit) {
                assert(!unit_strict_equal(items@[i as int].spec_unit()@, unit@));
                return Err(QuantityError::IllegalOperation);
            }
            i = i + 1;
        }
        let mut total: i64 = 0;
        let mut k: usize = 0;
        assert(items@.take(0) =~= Seq::<Quantity>::empty());
        while k < n
            invariant
                n == items@.len(),
                k <= n,
                all_of_unit(items@, unit),
                forall|x: int| 0 <= x <= n ==> fits_i64(#[trigger] storage_sum(items@.take(x))),
                total == storage_sum(items@.take(k as int)),
            decreases n - k,
        {
            assert(items@.take(k + 1).drop_last() =~= items@.take(k as int));
            assert(fits_i64(storage_sum(items@.take(k + 1))));
            total = total + items[k].storage;
            k = k + 1;
        }
        assert(items@.take(n as int) =~= items@);
        Ok(Quantity { storage: total, unit })
    }
}

impl PartialEq for Quantity {
    /// Equal stored values and strictly equal units.
    fn eq(&self, other: &Quantity) -> (r: bool) {
        self.storage == other.storage && self.unit.strict_equal(&other.unit)
    }
}

impl vstd::std_specs::cmp::PartialEqSpecImpl for Quantity {
    open spec fn obeys_eq_spec() -> bool {
        true
    }

    open spec fn eq_spec(&self, other: &Quantity) -> bool {
        self.spec_storage() == other.spec_storage() && unit_strict_equal(
            self.spec_unit()@,
            other.spec_unit()@,
        )
    }
}

} // verus!
