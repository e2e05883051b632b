//! The operators of four-component vectors on borrowed operands.

use crate::scalar::Scalar;
use crate::vec4::Vec4;
use std::ops::Add;
use std::ops::AddAssign;
use std::ops::Div;
use std::ops::DivAssign;
use std::ops::Mul;
use std::ops::MulAssign;
use std::ops::Neg;
use std::ops::Sub;
use std::ops::SubAssign;
use vstd::prelude::*;
use vstd::std_specs::ops::AddSpec;
use vstd::std_specs::ops::DivSpec;
use vstd::std_specs::ops::MulSpec;
use vstd::std_specs::ops::NegSpec;
use vstd::std_specs::ops::SubSpec;

verus! {

impl<T: Scalar> vstd::std_specs::ops::AddSpecImpl<&Vec4<T>> for Vec4<T> {
    open spec fn obeys_add_spec() -> bool {
        <Vec4<T> as AddSpec<Vec4<T>>>::obeys_add_spec()
    }

    open spec fn add_req(self, rhs: &Vec4<T>) -> bool {
        <Vec4<T> as AddSpec<Vec4<T>>>::add_req(self, *rhs)
    }

    open spec fn add_spec(self, rhs: &Vec4<T>) -> Vec4<T> {
        <Vec4<T> as AddSpec<Vec4<T>>>::add_spec(self, *rhs)
    }
}

impl<T: Scalar> Add<&Vec4<T>> for Vec4<T> {
    type Output = Vec4<T>;

    /// The sum of the values, the right operand borrowed.
    fn add(self, rhs: &Vec4<T>) -> (r: Vec4<T>) {
        self + *rhs
    }
}

impl<T: Scalar> vstd::std_specs::ops::AddSpecImpl<Vec4<T>> for &Vec4<T> {
    open spec fn obeys_add_spec() -> bool {
        <Vec4<T> as AddSpec<Vec4<T>>>::obeys_add_spec()
    }

    open spec fn add_req(self, rhs: Vec4<T>) -> bool {
        <Vec4<T> as AddSpec<Vec4<T>>>::add_req(*self, rhs)
    }

    open spec fn add_spec(self, rhs: Vec4<T>) -> Vec4<T> {
        <Vec4<T> as AddSpec<Vec4<T>>>::add_spec(*self, rhs)
    }
}

impl<T: Scalar> Add<Vec4<T>> for &Vec4<T> {
    type Output = Vec4<T>;

    /// The sum of the values, the left operand borrowed.
    fn add(self, rhs: Vec4<T>) -> (r: Vec4<T>) {
        *self + rhs
    }
}

impl<T: Scalar> vstd::std_specs::ops::AddSpecImpl<&Vec4<T>> for &Vec4<T> {
    open spec fn obeys_add_spec() -> bool {
        <Vec4<T> as AddSpec<Vec4<T>>>::obeys_add_spec()
    }

    open spec fn add_req(self, rhs: &Vec4<T>) -> bool {
        <Vec4<T> as AddSpec<Vec4<T>>>::add_req(*self, *rhs)
    }

    open spec fn add_spec(self, rhs: &Vec4<T>) -> Vec4<T> {
        <Vec4<T> as AddSpec<Vec4<T>>>::add_spec(*self, *rhs)
    }
}

impl<T: Scalar> Add<&Vec4<T>> for &Vec4<T> {
    type Output = Vec4<T>;

    /// The sum of the values, both operands borrowed.
    fn add(self, rhs: &Vec4<T>) -> (r: Vec4<T>) {
        *self + *rhs
    }
}

impl<T: Scalar> AddAssign<&Vec4<T>> for Vec4<T> {
    /// Replaces `self` by its sum with the borrowed operand.
    fn add_assign(&mut self, rhs: &Vec4<T>)
        requires
            <Vec4<T> as AddSpec<Vec4<T>>>::add_req(*old(self), *rhs),
        ensures
            <Vec4<T> as AddSpec<Vec4<T>>>::obeys_add_spec() ==> *final(self) == <Vec4<T> as AddSpec<Vec4<T>>>::add_spec(*old(self), *rhs),
    {
        *self = *self + *rhs;
    }
}

impl<T: Scalar> vstd::std_specs::ops::SubSpecImpl<&Vec4<T>> for Vec4<T> {
    open spec fn obeys_sub_spec() -> bool {
        <Vec4<T> as SubSpec<Vec4<T>>>::obeys_sub_spec()
    }

    open spec fn sub_req(self, rhs: &Vec4<T>) -> bool {
        <Vec4<T> as SubSpec<Vec4<T>>>::sub_req(self, *rhs)
    }

    open spec fn sub_spec(self, rhs: &Vec4<T>) -> Vec4<T> {
        <Vec4<T> as SubSpec<Vec4<T>>>::sub_spec(self, *rhs)
    }
}

impl<T: Scalar> Sub<&Vec4<T>> for Vec4<T> {
    type Output = Vec4<T>;

    /// The difference of the values, the right operand borrowed.
    fn sub(self, rhs: &Vec4<T>) -> (r: Vec4<T>) {
        self - *rhs
    }
}

impl<T: Scalar> vstd::std_specs::ops::SubSpecImpl<Vec4<T>> for &Vec4<T> {
    open spec fn obeys_sub_spec() -> bool {
        <Vec4<T> as SubSpec<Vec4<T>>>::obeys_sub_spec()
    }

    open spec fn sub_req(self, rhs: Vec4<T>) -> bool {
        <Vec4<T> as SubSpec<Vec4<T>>>::sub_req(*self, rhs)
    }

    open spec fn sub_spec(self, rhs: Vec4<T>) -> Vec4<T> {
        <Vec4<T> as SubSpec<Vec4<T>>>::sub_spec(*self, rhs)
    }
}

impl<T: Scalar> Sub<Vec4<T>> for &Vec4<T> {
    type Output = Vec4<T>;

    /// The difference of the values, the left operand borrowed.
    fn sub(self, rhs: Vec4<T>) -> (r: Vec4<T>) {
        *self - rhs
    }
}

impl<T: Scalar> vstd::std_specs::ops::SubSpecImpl<&Vec4<T>> for &Vec4<T> {
    open spec fn obeys_sub_spec() -> bool {
        <Vec4<T> as SubSpec<Vec4<T>>>::obeys_sub_spec()
    }

    open spec fn sub_req(self, rhs: &Vec4<T>) -> bool {
        <Vec4<T> as SubSpec<Vec4<T>>>::sub_req(*self, *rhs)
    }

    open spec fn sub_spec(self, rhs: &Vec4<T>) -> Vec4<T> {
        <Vec4<T> as SubSpec<Vec4<T>>>::sub_spec(*self, *rhs)
    }
}

impl<T: Scalar> Sub<&Vec4<T>> for &Vec4<T> {
    type Output = Vec4<T>;

    /// The difference of the values, both operands borrowed.
    fn sub(self, rhs: &Vec4<T>) -> (r: Vec4<T>) {
        *self - *rhs
    }
}

impl<T: Scalar> SubAssign<&Vec4<T>> for Vec4<T> {
    /// Replaces `self` by its difference with the borrowed operand.
    fn sub_assign(&mut self, rhs: &Vec4<T>)
        requires
            <Vec4<T> as SubSpec<Vec4<T>>>::sub_req(*old(self), *rhs),
        ensures
            <Vec4<T> as SubSpec<Vec4<T>>>::obeys_sub_spec() ==> *final(self) == <Vec4<T> as SubSpec<Vec4<T>>>::sub_spec(*old(self), *rhs),
    {
        *self = *self - *rhs;
    }
}

impl<T: Scalar> vstd::std_specs::ops::MulSpecImpl<&T> for Vec4<T> {
    open spec fn obeys_mul_spec() -> bool {
        <Vec4<T> as MulSpec<T>>::obeys_mul_spec()
    }

    open spec fn mul_req(self, rhs: &T) -> bool {
        <Vec4<T> as MulSpec<T>>::mul_req(self, *rhs)
    }

    open spec fn mul_spec(self, rhs: &T) -> Vec4<T> {
        <Vec4<T> as MulSpec<T>>::mul_spec(self, *rhs)
    }
}

impl<T: Scalar> Mul<&T> for Vec4<T> {
    type Output = Vec4<T>;

    /// The product of the values, the right operand borrowed.
    fn mul(self, rhs: &T) -> (r: Vec4<T>) {
        self * *rhs
    }
}

impl<T: Scalar> vstd::std_specs::ops::MulSpecImpl<T> for &Vec4<T> {
    open spec fn obeys_mul_spec() -> bool {
        <Vec4<T> as MulSpec<T>>::obeys_mul_spec()
    }

    open spec fn mul_req(self, rhs: T) -> bool {
        <Vec4<T> as MulSpec<T>>::mul_req(*self, rhs)
    }

    open spec fn mul_spec(self, rhs: T) -> Vec4<T> {
        <Vec4<T> as MulSpec<T>>::mul_spec(*self, rhs)
    }
}

impl<T: Scalar> Mul<T> for &Vec4<T> {
    type Output = Vec4<T>;

    /// The product of the values, the left operand borrowed.
    fn mul(self, rhs: T) -> (r: Vec4<T>) {
        *self * rhs
    }
}

impl<T: Scalar> vstd::std_specs::ops::MulSpecImpl<&T> for &Vec4<T> {
    open spec fn obeys_mul_spec() -> bool {
        <Vec4<T> as MulSpec<T>>::obeys_mul_spec()
    }

    open spec fn mul_req(self, rhs: &T) -> bool {
        <Vec4<T> as MulSpec<T>>::mul_req(*self, *rhs)
    }

    open spec fn mul_spec(self, rhs: &T) -> Vec4<T> {
        <Vec4<T> as MulSpec<T>>::mul_spec(*self, *rhs)
    }
}

impl<T: Scalar> Mul<&T> for &Vec4<T> {
    type Output = Vec4<T>;

    /// The product of the values, both operands borrowed.
    fn mul(self, rhs: &T) -> (r: Vec4<T>) {
        *self * *rhs
    }
}

impl<T: Scalar> MulAssign<&T> for Vec4<T> {
    /// Replaces `self` by its product with the borrowed operand.
    fn mul_assign(&mut self, rhs: &T)
        requires
            <Vec4<T> as MulSpec<T>>::mul_req(*old(self), *rhs),
        ensures
            <Vec4<T> as MulSpec<T>>::obeys_mul_spec() ==> *final(self) == <Vec4<T> as MulSpec<T>>::mul_spec(*old(self), *rhs),
    {
        *self = *self * *rhs;
    }
}

impl<T: Scalar> vstd::std_specs::ops::DivSpecImpl<&T> for Vec4<T> {
    open spec fn obeys_div_spec() -> bool {
        <Vec4<T> as DivSpec<T>>::obeys_div_spec()
    }

    open spec fn div_req(self, rhs: &T) -> bool {
        <Vec4<T> as DivSpec<T>>::div_req(self, *rhs)
    }

    open spec fn div_spec(self, rhs: &T) -> Vec4<T> {
        <Vec4<T> as DivSpec<T>>::div_spec(self, *rhs)
    }
}

impl<T: Scalar> Div<&T> for Vec4<T> {
    type Output = Vec4<T>;

    /// The quotient of the values, the right operand borrowed.
    fn div(self, rhs: &T) -> (r: Vec4<T>) {
        self / *rhs
    }
}

impl<T: Scalar> vstd::std_specs::ops::DivSpecImpl<T> for &Vec4<T> {
    open spec fn obeys_div_spec() -> bool {
        <Vec4<T> as DivSpec<T>>::obeys_div_spec()
    }

    open spec fn div_req(self, rhs: T) -> bool {
        <Vec4<T> as DivSpec<T>>::div_req(*self, rhs)
    }

    open spec fn div_spec(self, rhs: T) -> Vec4<T> {
        <Vec4<T> as DivSpec<T>>::div_spec(*self, rhs)
    }
}

impl<T: Scalar> Div<T> for &Vec4<T> {
    type Output = Vec4<T>;

    /// The quotient of the values, the left operand borrowed.
    fn div(self, rhs: T) -> (r: Vec4<T>) {
        *self / rhs
    }
}

impl<T: Scalar> vstd::std_specs::ops::DivSpecImpl<&T> for &Vec4<T> {
    open spec fn obeys_div_spec() -> bool {
        <Vec4<T> as DivSpec<T>>::obeys_div_spec()
    }

    open spec fn div_req(self, rhs: &T) -> bool {
        <Vec4<T> as DivSpec<T>>::div_req(*self, *rhs)
    }

    open spec fn div_spec(self, rhs: &T) -> Vec4<T> {
        <Vec4<T> as DivSpec<T>>::div_spec(*self, *rhs)
    }
}

impl<T: Scalar> Div<&T> for &Vec4<T> {
    type Output = Vec4<T>;

    /// The quotient of the values, both operands borrowed.
    fn div(self, rhs: &T) -> (r: Vec4<T>) {
        *self / *rhs
    }
}

impl<T: Scalar> DivAssign<&T> for Vec4<T> {
    /// Replaces `self` by its quotient with the borrowed operand.
    fn div_assign(&mut self, rhs: &T)
        requires
            <Vec4<T> as DivSpec<T>>::div_req(*old(self), *rhs),
        ensures
            <Vec4<T> as DivSpec<T>>::obeys_div_spec() ==> *final(self) == <Vec4<T> as DivSpec<T>>::div_spec(*old(self), *rhs),
    {
        *self = *self / *rhs;
    }
}

impl<T: Scalar> vstd::std_specs::ops::NegSpecImpl for &Vec4<T> {
    open spec fn obeys_neg_spec() -> bool {
        <Vec4<T> as NegSpec>::obeys_neg_spec()
    }

    open spec fn neg_req(self) -> bool {
        <Vec4<T> as NegSpec>::neg_req(*self)
    }

    open spec fn neg_spec(self) -> Vec4<T> {
        <Vec4<T> as NegSpec>::neg_spec(*self)
    }
}

impl<T: Scalar> Neg for &Vec4<T> {
    type Output = Vec4<T>;

    /// The negation of the borrowed value.
    fn neg(self) -> (r: Vec4<T>) {
        (*self).neg()
    }
}

} // verus!
