//! Arithmetic that reports overflow, underflow and division by zero as an
//! absent result instead of wrapping or panicking.
use vstd::prelude::*;

verus! {

/// Addition that reports overflow and underflow.
pub trait CheckedAdd<Rhs>: Sized {
    type Output;

    /// Whether `r` is the result of `self.checked_add(rhs)`.
    spec fn checked_add_result(self, rhs: Rhs, r: Self::Output) -> bool;

    fn checked_add(self, rhs: Rhs) -> (r: Self::Output)
        ensures
            Self::checked_add_result(self, rhs, r),
    ;
}

/// Subtraction that reports overflow and underflow.
pub trait CheckedSub<Rhs>: Sized {
    type Output;

    /// Whether `r` is the result of `self.checked_sub(rhs)`.
    spec fn checked_sub_result(self, rhs: Rhs, r: Self::Output) -> bool;

    fn checked_sub(self, rhs: Rhs) -> (r: Self::Output)
        ensures
            Self::checked_sub_result(self, rhs, r),
    ;
}

/// Multiplication that reports overflow and underflow.
pub trait CheckedMul<Rhs>: Sized {
    type Output;

    /// Whether `r` is the result of `self.checked_mul(rhs)`.
    spec fn checked_mul_result(self, rhs: Rhs, r: Self::Output) -> bool;

    fn checked_mul(self, rhs: Rhs) -> (r: Self::Output)
        ensures
            Self::checked_mul_result(self, rhs, r),
    ;
}

/// Division that reports overflow, underflow and division by zero.
pub trait CheckedDiv<Rhs>: Sized {
    type Output;

    /// Whether `r` is the result of `self.checked_div(rhs)`.
    spec fn checked_div_result(self, rhs: Rhs, r: Self::Output) -> bool;

    fn checked_div(self, rhs: Rhs) -> (r: Self::Output)
        ensures
            Self::checked_div_result(self, rhs, r),
    ;
}

} // verus!
