//! The operators of 4×4 matrices on borrowed operands.

use crate::mat4::Mat4;
use crate::scalar::Scalar;
use std::ops::Add;
use std::ops::AddAssign;
use std::ops::Div;
use std::ops::DivAssign;
use std::ops::Mul;
use std::ops::MulAssign;
use std::ops::Neg;
use std::ops::Sub;
use std::ops::SubAssign;
use vstd::prelude::*;
use vstd::std_specs::ops::AddSpec;
use vstd::std_specs::ops::DivSpec;
use vstd::std_specs::ops::MulSpec;
use vstd::std_specs::ops::NegSpec;
use vstd::std_specs::ops::SubSpec;

verus! {

impl<T: Scalar> vstd::std_specs::ops::AddSpecImpl<&Mat4<T>> for Mat4<T> {
    open spec fn obeys_add_spec() -> bool {
        <Mat4<T> as AddSpec<Mat4<T>>>::obeys_add_spec()
    }

    open spec fn add_req(self, rhs: &Mat4<T>) -> bool {
        <Mat4<T> as AddSpec<Mat4<T>>>::add_req(self, *rhs)
    }

    open spec fn add_spec(self, rhs: &Mat4<T>) -> Mat4<T> {
        <Mat4<T> as AddSpec<Mat4<T>>>::add_spec(self, *rhs)
    }
}

impl<T: Scalar> Add<&Mat4<T>> for Mat4<T> {
    type Output = Mat4<T>;

    /// The sum of the values, the right operand borrowed.
    fn add(self, rhs: &Mat4<T>) -> (r: Mat4<T>) {
        self + *rhs
    }
}

impl<T: Scalar> vstd::std_specs::ops::AddSpecImpl<Mat4<T>> for &Mat4<T> {
    open spec fn obeys_add_spec() -> bool {
        <Mat4<T> as AddSpec<Mat4<T>>>::obeys_add_spec()
    }

    open spec fn add_req(self, rhs: Mat4<T>) -> bool {
        <Mat4<T> as AddSpec<Mat4<T>>>::add_req(*self, rhs)
    }

    open spec fn add_spec(self, rhs: Mat4<T>) -> Mat4<T> {
        <Mat4<T> as AddSpec<Mat4<T>>>::add_spec(*self, rhs)
    }
}

impl<T: Scalar> Add<Mat4<T>> for &Mat4<T> {
    type Output = Mat4<T>;

    /// The sum of the values, the left operand borrowed.
    fn add(self, rhs: Mat4<T>) -> (r: Mat4<T>) {
        *self + rhs
    }
}

impl<T: Scalar> vstd::std_specs::ops::AddSpecImpl<&Mat4<T>> for &Mat4<T> {
    open spec fn obeys_add_spec() -> bool {
        <Mat4<T> as AddSpec<Mat4<T>>>::obeys_add_spec()
    }

    open spec fn add_req(self, rhs: &Mat4<T>) -> bool {
        <Mat4<T> as AddSpec<Mat4<T>>>::add_req(*self, *rhs)
    }

    open spec fn add_spec(self, rhs: &Mat4<T>) -> Mat4<T> {
        <Mat4<T> as AddSpec<Mat4<T>>>::add_spec(*self, *rhs)
    }
}

impl<T: Scalar> Add<&Mat4<T>> for &Mat4<T> {
    type Output = Mat4<T>;

    /// The sum of the values, both operands borrowed.
    fn add(self, rhs: &Mat4<T>) -> (r: Mat4<T>) {
        *self + *rhs
    }
}

impl<T: Scalar> AddAssign<&Mat4<T>> for Mat4<T> {
    /// Replaces `self` by its sum with the borrowed operand.
    fn add_assign(&mut self, rhs: &Mat4<T>)
        requires
            <Mat4<T> as AddSpec<Mat4<T>>>::add_req(*old(self), *rhs),
        ensures
            <Mat4<T> as AddSpec<Mat4<T>>>::obeys_add_spec() ==> *final(self) == <Mat4<T> as AddSpec<Mat4<T>>>::add_spec(*old(self), *rhs),
    {
        *self = *self + *rhs;
    }
}

impl<T: Scalar> vstd::std_specs::ops::SubSpecImpl<&Mat4<T>> for Mat4<T> {
    open spec fn obeys_sub_spec() -> bool {
        <Mat4<T> as SubSpec<Mat4<T>>>::obeys_sub_spec()
    }

    open spec fn sub_req(self, rhs: &Mat4<T>) -> bool {
        <Mat4<T> as SubSpec<Mat4<T>>>::sub_req(self, *rhs)
    }

    open spec fn sub_spec(self, rhs: &Mat4<T>) -> Mat4<T> {
        <Mat4<T> as SubSpec<Mat4<T>>>::sub_spec(self, *rhs)
    }
}

impl<T: Scalar> Sub<&Mat4<T>> for Mat4<T> {
    type Output = Mat4<T>;

    /// The difference of the values, the right operand borrowed.
    fn sub(self, rhs: &Mat4<T>) -> (r: Mat4<T>) {
        self - *rhs
    }
}

impl<T: Scalar> vstd::std_specs::ops::SubSpecImpl<Mat4<T>> for &Mat4<T> {
    open spec fn obeys_sub_spec() -> bool {
        <Mat4<T> as SubSpec<Mat4<T>>>::obeys_sub_spec()
    }

    open spec fn sub_req(self, rhs: Mat4<T>) -> bool {
        <Mat4<T> as SubSpec<Mat4<T>>>::sub_req(*self, rhs)
    }

    open spec fn sub_spec(self, rhs: Mat4<T>) -> Mat4<T> {
        <Mat4<T> as SubSpec<Mat4<T>>>::sub_spec(*self, rhs)
    }
}

impl<T: Scalar> Sub<Mat4<T>> for &Mat4<T> {
    type Output = Mat4<T>;

    /// The difference of the values, the left operand borrowed.
    fn sub(self, rhs: Mat4<T>) -> (r: Mat4<T>) {
        *self - rhs
    }
}

impl<T: Scalar> vstd::std_specs::ops::SubSpecImpl<&Mat4<T>> for &Mat4<T> {
    open spec fn obeys_sub_spec() -> bool {
        <Mat4<T> as SubSpec<Mat4<T>>>::obeys_sub_spec()
    }

    open spec fn sub_req(self, rhs: &Mat4<T>) -> bool {
        <Mat4<T> as SubSpec<Mat4<T>>>::sub_req(*self, *rhs)
    }

    open spec fn sub_spec(self, rhs: &Mat4<T>) -> Mat4<T> {
        <Mat4<T> as SubSpec<Mat4<T>>>::sub_spec(*self, *rhs)
    }
}

impl<T: Scalar> Sub<&Mat4<T>> for &Mat4<T> {
    type Output = Mat4<T>;

    /// The difference of the values, both operands borrowed.
    fn sub(self, rhs: &Mat4<T>) -> (r: Mat4<T>) {
        *self - *rhs
    }
}

impl<T: Scalar> SubAssign<&Mat4<T>> for Mat4<T> {
    /// Replaces `self` by its difference with the borrowed operand.
    fn sub_assign(&mut self, rhs: &Mat4<T>)
        requires
            <Mat4<T> as SubSpec<Mat4<T>>>::sub_req(*old(self), *rhs),
        ensures
            <Mat4<T> as SubSpec<Mat4<T>>>::obeys_sub_spec() ==> *final(self) == <Mat4<T> as SubSpec<Mat4<T>>>::sub_spec(*old(self), *rhs),
    {
        *self = *self - *rhs;
    }
}

impl<T: Scalar> vstd::std_specs::ops::MulSpecImpl<&T> for Mat4<T> {
    open spec fn obeys_mul_spec() -> bool {
        <Mat4<T> as MulSpec<T>>::obeys_mul_spec()
    }

    open spec fn mul_req(self, rhs: &T) -> bool {
        <Mat4<T> as MulSpec<T>>::mul_req(self, *rhs)
    }

    open spec fn mul_spec(self, rhs: &T) -> Mat4<T> {
        <Mat4<T> as MulSpec<T>>::mul_spec(self, *rhs)
    }
}

impl<T: Scalar> Mul<&T> for Mat4<T> {
    type Output = Mat4<T>;

    /// The product of the values, the right operand borrowed.
    fn mul(self, rhs: &T) -> (r: Mat4<T>) {
        self * *rhs
    }
}

impl<T: Scalar> vstd::std_specs::ops::MulSpecImpl<T> for &Mat4<T> {
    open spec fn obeys_mul_spec() -> bool {
        <Mat4<T> as MulSpec<T>>::obeys_mul_spec()
    }

    open spec fn mul_req(self, rhs: T) -> bool {
        <Mat4<T> as MulSpec<T>>::mul_req(*self, rhs)
    }

    open spec fn mul_spec(self, rhs: T) -> Mat4<T> {
        <Mat4<T> as MulSpec<T>>::mul_spec(*self, rhs)
    }
}

impl<T: Scalar> Mul<T> for &Mat4<T> {
    type Output = Mat4<T>;

    /// The product of the values, the left operand borrowed.
    fn mul(self, rhs: T) -> (r: Mat4<T>) {
        *self * rhs
    }
}

impl<T: Scalar> vstd::std_specs::ops::MulSpecImpl<&T> for &Mat4<T> {
    open spec fn obeys_mul_spec() -> bool {
        <Mat4<T> as MulSpec<T>>::obeys_mul_spec()
    }

    open spec fn mul_req(self, rhs: &T) -> bool {
        <Mat4<T> as MulSpec<T>>::mul_req(*self, *rhs)
    }

    open spec fn mul_spec(self, rhs: &T) -> Mat4<T> {
        <Mat4<T> as MulSpec<T>>::mul_spec(*self, *rhs)
    }
}

impl<T: Scalar> Mul<&T> for &Mat4<T> {
    type Output = Mat4<T>;

    /// The product of the values, both operands borrowed.
    fn mul(self, rhs: &T) -> (r: Mat4<T>) {
        *self * *rhs
    }
}

impl<T: Scalar> MulAssign<&T> for Mat4<T> {
    /// Replaces `self` by its product with the borrowed operand.
    fn mul_assign(&mut self, rhs: &T)
        requires
            <Mat4<T> as MulSpec<T>>::mul_req(*old(self), *rhs),
        ensures
            <Mat4<T> as MulSpec<T>>::obeys_mul_spec() ==> *final(self) == <Mat4<T> as MulSpec<T>>::mul_spec(*old(self), *rhs),
    {
        *self = *self * *rhs;
    }
}

impl<T: Scalar> vstd::std_specs::ops::DivSpecImpl<&T> for Mat4<T> {
    open spec fn obeys_div_spec() -> bool {
        <Mat4<T> as DivSpec<T>>::obeys_div_spec()
    }

    open spec fn div_req(self, rhs: &T) -> bool {
        <Mat4<T> as DivSpec<T>>::div_req(self, *rhs)
    }

    open spec fn div_spec(self, rhs: &T) -> Mat4<T> {
        <Mat4<T> as DivSpec<T>>::div_spec(self, *rhs)
    }
}

impl<T: Scalar> Div<&T> for Mat4<T> {
    type Output = Mat4<T>;

    /// The quotient of the values, the right operand borrowed.
    fn div(self, rhs: &T) -> (r: Mat4<T>) {
        self / *rhs
    }
}

impl<T: Scalar> vstd::std_specs::ops::DivSpecImpl<T> for &Mat4<T> {
    open spec fn obeys_div_spec() -> bool {
        <Mat4<T> as DivSpec<T>>::obeys_div_spec()
    }

    open spec fn div_req(self, rhs: T) -> bool {
        <Mat4<T> as DivSpec<T>>::div_req(*self, rhs)
    }

    open spec fn div_spec(self, rhs: T) -> Mat4<T> {
        <Mat4<T> as DivSpec<T>>::div_spec(*self, rhs)
    }
}

impl<T: Scalar> Div<T> for &Mat4<T> {
    type Output = Mat4<T>;

    /// The quotient of the values, the left operand borrowed.
    fn div(self, rhs: T) -> (r: Mat4<T>) {
        *self / rhs
    }
}

impl<T: Scalar> vstd::std_specs::ops::DivSpecImpl<&T> for &Mat4<T> {
    open spec fn obeys_div_spec() -> bool {
        <Mat4<T> as DivSpec<T>>::obeys_div_spec()
    }

    open spec fn div_req(self, rhs: &T) -> bool {
        <Mat4<T> as DivSpec<T>>::div_req(*self, *rhs)
    }

    open spec fn div_spec(self, rhs: &T) -> Mat4<T> {
        <Mat4<T> as DivSpec<T>>::div_spec(*self, *rhs)
    }
}

impl<T: Scalar> Div<&T> for &Mat4<T> {
    type Output = Mat4<T>;

    /// The quotient of the values, both operands borrowed.
    fn div(self, rhs: &T) -> (r: Mat4<T>) {
        *self / *rhs
    }
}

impl<T: Scalar> DivAssign<&T> for Mat4<T> {
    /// Replaces `self` by its quotient with the borrowed operand.
    fn div_assign(&mut self, rhs: &T)
        requires
            <Mat4<T> as DivSpec<T>>::div_req(*old(self), *rhs),
        ensures
            <Mat4<T> as DivSpec<T>>::obeys_div_spec() ==> *final(self) == <Mat4<T> as DivSpec<T>>::div_spec(*old(self), *rhs),
    {
        *self = *self / *rhs;
    }
}

impl<T: Scalar> vstd::std_specs::ops::NegSpecImpl for &Mat4<T> {
    open spec fn obeys_neg_spec() -> bool {
        <Mat4<T> as NegSpec>::obeys_neg_spec()
    }

    open spec fn neg_req(self) -> bool {
        <Mat4<T> as NegSpec>::neg_req(*self)
    }

    open spec fn neg_spec(self) -> Mat4<T> {
        <Mat4<T> as NegSpec>::neg_spec(*self)
    }
}

impl<T: Scalar> Neg for &Mat4<T> {
    type Output = Mat4<T>;

    /// The negation of the borrowed value.
    fn neg(self) -> (r: Mat4<T>) {
        (*self).neg()
    }
}

impl<T: Scalar> vstd::std_specs::ops::MulSpecImpl<&Mat4<T>> for Mat4<T> {
    open spec fn obeys_mul_spec() -> bool {
        <Mat4<T> as MulSpec<Mat4<T>>>::obeys_mul_spec()
    }

    open spec fn mul_req(self, rhs: &Mat4<T>) -> bool {
        <Mat4<T> as MulSpec<Mat4<T>>>::mul_req(self, *rhs)
    }

    open spec fn mul_spec(self, rhs: &Mat4<T>) -> Mat4<T> {
        <Mat4<T> as MulSpec<Mat4<T>>>::mul_spec(self, *rhs)
    }
}

impl<T: Scalar> Mul<&Mat4<T>> for Mat4<T> {
    type Output = Mat4<T>;

    /// The product of the values, the right operand borrowed.
    fn mul(self, rhs: &Mat4<T>) -> (r: Mat4<T>) {
        self * *rhs
    }
}

impl<T: Scalar> vstd::std_specs::ops::MulSpecImpl<Mat4<T>> for &Mat4<T> {
    open spec fn obeys_mul_spec() -> bool {
        <Mat4<T> as MulSpec<Mat4<T>>>::obeys_mul_spec()
    }

    open spec fn mul_req(self, rhs: Mat4<T>) -> bool {
        <Mat4<T> as MulSpec<Mat4<T>>>::mul_req(*self, rhs)
    }

    open spec fn mul_spec(self, rhs: Mat4<T>) -> Mat4<T> {
        <Mat4<T> as MulSpec<Mat4<T>>>::mul_spec(*self, rhs)
    }
}

impl<T: Scalar> Mul<Mat4<T>> for &Mat4<T> {
    type Output = Mat4<T>;

    /// The product of the values, the left operand borrowed.
    fn mul(self, rhs: Mat4<T>) -> (r: Mat4<T>) {
        *self * rhs
    }
}

impl<T: Scalar> vstd::std_specs::ops::MulSpecImpl<&Mat4<T>> for &Mat4<T> {
    open spec fn obeys_mul_spec() -> bool {
        <Mat4<T> as MulSpec<Mat4<T>>>::obeys_mul_spec()
    }

    open spec fn mul_req(self, rhs: &Mat4<T>) -> bool {
        <Mat4<T> as MulSpec<Mat4<T>>>::mul_req(*self, *rhs)
    }

    open spec fn mul_spec(self, rhs: &Mat4<T>) -> Mat4<T> {
        <Mat4<T> as MulSpec<Mat4<T>>>::mul_spec(*self, *rhs)
    }
}

impl<T: Scalar> Mul<&Mat4<T>> for &Mat4<T> {
    type Output = Mat4<T>;

    /// The product of the values, both operands borrowed.
    fn mul(self, rhs: &Mat4<T>) -> (r: Mat4<T>) {
        *self * *rhs
    }
}

} // verus!
