//! What the library asks of a component type.
//!
//! Every computation here is an expression over the component type's own
//! operators. The contracts say which expression, operator by operator and in
//! evaluation order, through the specifications that `vstd` gives to
//! `std::ops` and `std::cmp`. They bind for every type whose operators have
//! such a specification; see [`exact`].

use std::cmp::Ordering;
use std::ops::Add;
use std::ops::Div;
use std::ops::Mul;
use std::ops::Neg;
use std::ops::Sub;
use vstd::prelude::*;
use vstd::std_specs::cmp::PartialEqSpec;
use vstd::std_specs::cmp::PartialOrdSpec;
use vstd::std_specs::convert::FromSpec;
use vstd::std_specs::ops::AddSpec;
use vstd::std_specs::ops::DivSpec;
use vstd::std_specs::ops::MulSpec;
use vstd::std_specs::ops::NegSpec;
use vstd::std_specs::ops::SubSpec;

verus! {

/// A component type: copyable, closed under the four arithmetic operators
/// and negation, comparable, and able to take up a small integer.
pub trait Scalar: Copy + Add<Output = Self> + Sub<Output = Self> + Mul<Output = Self> + Div<
    Output = Self,
> + Neg<Output = Self> + PartialOrd + From<i8> {

}

impl<
    T: Copy + Add<Output = T> + Sub<Output = T> + Mul<Output = T> + Div<Output = T> + Neg<
        Output = T,
    > + PartialOrd + From<i8>,
> Scalar for T {

}

/// Whether `+`, `-`, `*`, `/` and unary `-` on `T` return what their
/// specifications say.
pub open spec fn arithmetic<T: Scalar>() -> bool {
    &&& T::obeys_add_spec()
    &&& T::obeys_sub_spec()
    &&& T::obeys_mul_spec()
    &&& T::obeys_div_spec()
    &&& T::obeys_neg_spec()
}

/// Whether `==`, `!=`, `<` and `>` on `T` return what their specifications
/// say.
pub open spec fn ordered<T: Scalar>() -> bool {
    &&& T::obeys_eq_spec()
    &&& T::obeys_partial_cmp_spec()
}

/// Whether taking up a small integer into `T` returns what its
/// specification says.
pub open spec fn lifts<T: Scalar>() -> bool {
    <T as FromSpec<i8>>::obeys_from_spec()
}

/// Whether every operation that the library performs on `T` is specified.
///
/// Where this holds, each result below is pinned down exactly. Where it
/// does not, the same operators are applied in the same order and nothing
/// more is stated.
pub open spec fn exact<T: Scalar>() -> bool {
    &&& arithmetic::<T>()
    &&& ordered::<T>()
    &&& lifts::<T>()
}

/// The small integers that the formulas need below zero.
pub const MINUS_ONE: i8 = -1;

pub const MINUS_TWO: i8 = -2;

/// The integer `n` as a `T`.
pub open spec fn lit_spec<T: Scalar>(n: i8) -> T {
    <T as FromSpec<i8>>::from_spec(n)
}

/// The integer `n` as a `T`.
pub fn lit<T: Scalar>(n: i8) -> (r: T)
    ensures
        lifts::<T>() ==> r == lit_spec::<T>(n),
{
    T::from(n)
}

/// What `a·b − c·d` needs: both products and their difference.
pub open spec fn minor_req<T: Scalar>(a: T, b: T, c: T, d: T) -> bool {
    &&& a.mul_req(b)
    &&& c.mul_req(d)
    &&& a.mul_spec(b).sub_req(c.mul_spec(d))
}

/// The 2×2 determinant `a·b − c·d`.
pub open spec fn minor_spec<T: Scalar>(a: T, b: T, c: T, d: T) -> T {
    a.mul_spec(b).sub_spec(c.mul_spec(d))
}

/// Whether `a > b`.
pub open spec fn gt_spec<T: Scalar>(a: T, b: T) -> bool {
    a.partial_cmp_spec(&b) == Some(Ordering::Greater)
}

/// Whether `a != b`.
pub open spec fn ne_spec<T: Scalar>(a: T, b: T) -> bool {
    !a.eq_spec(&b)
}

/// What [`exceeds`] needs: `x` can be negated where `x > bound` fails.
pub open spec fn exceeds_req<T: Scalar>(x: T, bound: T) -> bool {
    !gt_spec(x, bound) ==> x.neg_req()
}

/// Whether the magnitude of `x` is above `bound`: `x > bound` or
/// `-x > bound`.
pub open spec fn exceeds_spec<T: Scalar>(x: T, bound: T) -> bool {
    gt_spec(x, bound) || gt_spec(x.neg_spec(), bound)
}

/// Tells whether the magnitude of `x` is above `bound`.
///
/// It is the test that decides whether a denominator counts as nonzero.
/// A value that compares with nothing, such as a NaN, is never above.
pub fn exceeds<T: Scalar>(x: T, bound: T) -> (r: bool)
    requires
        exact::<T>(),
        exceeds_req(x, bound),
    ensures
        r == exceeds_spec(x, bound),
{
    x.gt(&bound) || x.neg().gt(&bound)
}

} // verus!
