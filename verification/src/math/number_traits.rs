use core::ops::{Add, Div, Mul, Neg, Sub};
use vstd::prelude::*;
use vstd::std_specs::convert::FromSpec;

verus! {

/// Types with a two.
pub trait Two: Sized {
    spec fn obeys_two() -> bool;

    spec fn spec_two() -> Self;

    fn two() -> (r: Self)
        ensures
            Self::obeys_two() ==> r == Self::spec_two(),
    ;
}

/// Types with a one.
pub trait One: Sized {
    spec fn obeys_one() -> bool;

    spec fn spec_one() -> Self;

    fn one() -> (r: Self)
        ensures
            Self::obeys_one() ==> r == Self::spec_one(),
    ;
}

/// Types with a zero.
pub trait Zero: Sized {
    spec fn obeys_zero() -> bool;

    spec fn spec_zero() -> Self;

    fn zero() -> (r: Self)
        ensures
            Self::obeys_zero() ==> r == Self::spec_zero(),
    ;
}

impl<T: From<i8>> Two for T {
    open spec fn obeys_two() -> bool {
        <T as FromSpec<i8>>::obeys_from_spec()
    }

    open spec fn spec_two() -> T {
        <T as FromSpec<i8>>::from_spec(2i8)
    }

    fn two() -> (r: T) {
        T::from(2i8)
    }
}

impl<T: From<i8>> One for T {
    open spec fn obeys_one() -> bool {
        <T as FromSpec<i8>>::obeys_from_spec()
    }

    open spec fn spec_one() -> T {
        <T as FromSpec<i8>>::from_spec(1i8)
    }

    fn one() -> (r: T) {
        T::from(1i8)
    }
}

impl<T: From<i8>> Zero for T {
    open spec fn obeys_zero() -> bool {
        <T as FromSpec<i8>>::obeys_from_spec()
    }

    open spec fn spec_zero() -> T {
        <T as FromSpec<i8>>::from_spec(0i8)
    }

    fn zero() -> (r: T) {
        T::from(0i8)
    }
}

/// Whether a value counts as zero.
pub trait IsZero {
    spec fn spec_is_zero(&self) -> bool;

    fn is_zero(&self) -> (r: bool)
        ensures
            r == self.spec_is_zero(),
    ;
}

impl IsZero for i32 {
    open spec fn spec_is_zero(&self) -> bool {
        *self == 0
    }

    fn is_zero(&self) -> (r: bool) {
        *self == 0
    }
}

/// The arithmetic operators a numeric type provides.
pub trait NumericOps: Sized + Add<Output = Self> + Sub<Output = Self> + Mul<Output = Self> + Div<
    Output = Self,
> + Neg<Output = Self> {

}

impl NumericOps for i32 {

}

} // verus!
