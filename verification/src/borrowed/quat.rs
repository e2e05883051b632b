//! The operators of quaternions on borrowed operands.

use crate::quat::Quat;
use crate::scalar::Scalar;
use crate::vec3::Vec3;
use std::ops::Mul;
use vstd::prelude::*;
use vstd::std_specs::ops::MulSpec;

verus! {

impl<T: Scalar> vstd::std_specs::ops::MulSpecImpl<&Quat<T>> for Quat<T> {
    open spec fn obeys_mul_spec() -> bool {
        <Quat<T> as MulSpec<Quat<T>>>::obeys_mul_spec()
    }

    open spec fn mul_req(self, rhs: &Quat<T>) -> bool {
        <Quat<T> as MulSpec<Quat<T>>>::mul_req(self, *rhs)
    }

    open spec fn mul_spec(self, rhs: &Quat<T>) -> Quat<T> {
        <Quat<T> as MulSpec<Quat<T>>>::mul_spec(self, *rhs)
    }
}

impl<T: Scalar> Mul<&Quat<T>> for Quat<T> {
    type Output = Quat<T>;

    /// The product of the values, the right operand borrowed.
    fn mul(self, rhs: &Quat<T>) -> (r: Quat<T>) {
        self * *rhs
    }
}

impl<T: Scalar> vstd::std_specs::ops::MulSpecImpl<Quat<T>> for &Quat<T> {
    open spec fn obeys_mul_spec() -> bool {
        <Quat<T> as MulSpec<Quat<T>>>::obeys_mul_spec()
    }

    open spec fn mul_req(self, rhs: Quat<T>) -> bool {
        <Quat<T> as MulSpec<Quat<T>>>::mul_req(*self, rhs)
    }

    open spec fn mul_spec(self, rhs: Quat<T>) -> Quat<T> {
        <Quat<T> as MulSpec<Quat<T>>>::mul_spec(*self, rhs)
    }
}

impl<T: Scalar> Mul<Quat<T>> for &Quat<T> {
    type Output = Quat<T>;

    /// The product of the values, the left operand borrowed.
    fn mul(self, rhs: Quat<T>) -> (r: Quat<T>) {
        *self * rhs
    }
}

impl<T: Scalar> vstd::std_specs::ops::MulSpecImpl<&Quat<T>> for &Quat<T> {
    open spec fn obeys_mul_spec() -> bool {
        <Quat<T> as MulSpec<Quat<T>>>::obeys_mul_spec()
    }

    open spec fn mul_req(self, rhs: &Quat<T>) -> bool {
        <Quat<T> as MulSpec<Quat<T>>>::mul_req(*self, *rhs)
    }

    open spec fn mul_spec(self, rhs: &Quat<T>) -> Quat<T> {
        <Quat<T> as MulSpec<Quat<T>>>::mul_spec(*self, *rhs)
    }
}

impl<T: Scalar> Mul<&Quat<T>> for &Quat<T> {
    type Output = Quat<T>;

    /// The product of the values, both operands borrowed.
    fn mul(self, rhs: &Quat<T>) -> (r: Quat<T>) {
        *self * *rhs
    }
}

impl<T: Scalar> vstd::std_specs::ops::MulSpecImpl<&Quat<T>> for Vec3<T> {
    open spec fn obeys_mul_spec() -> bool {
        <Vec3<T> as MulSpec<Quat<T>>>::obeys_mul_spec()
    }

    open spec fn mul_req(self, rhs: &Quat<T>) -> bool {
        <Vec3<T> as MulSpec<Quat<T>>>::mul_req(self, *rhs)
    }

    open spec fn mul_spec(self, rhs: &Quat<T>) -> Vec3<T> {
        <Vec3<T> as MulSpec<Quat<T>>>::mul_spec(self, *rhs)
    }
}

impl<T: Scalar> Mul<&Quat<T>> for Vec3<T> {
    type Output = Vec3<T>;

    /// The product of the values, the right operand borrowed.
    fn mul(self, rhs: &Quat<T>) -> (r: Vec3<T>) {
        self * *rhs
    }
}

impl<T: Scalar> vstd::std_specs::ops::MulSpecImpl<Quat<T>> for &Vec3<T> {
    open spec fn obeys_mul_spec() -> bool {
        <Vec3<T> as MulSpec<Quat<T>>>::obeys_mul_spec()
    }

    open spec fn mul_req(self, rhs: Quat<T>) -> bool {
        <Vec3<T> as MulSpec<Quat<T>>>::mul_req(*self, rhs)
    }

    open spec fn mul_spec(self, rhs: Quat<T>) -> Vec3<T> {
        <Vec3<T> as MulSpec<Quat<T>>>::mul_spec(*self, rhs)
    }
}

impl<T: Scalar> Mul<Quat<T>> for &Vec3<T> {
    type Output = Vec3<T>;

    /// The product of the values, the left operand borrowed.
    fn mul(self, rhs: Quat<T>) -> (r: Vec3<T>) {
        *self * rhs
    }
}

impl<T: Scalar> vstd::std_specs::ops::MulSpecImpl<&Quat<T>> for &Vec3<T> {
    open spec fn obeys_mul_spec() -> bool {
        <Vec3<T> as MulSpec<Quat<T>>>::obeys_mul_spec()
    }

    open spec fn mul_req(self, rhs: &Quat<T>) -> bool {
        <Vec3<T> as MulSpec<Quat<T>>>::mul_req(*self, *rhs)
    }

    open spec fn mul_spec(self, rhs: &Quat<T>) -> Vec3<T> {
        <Vec3<T> as MulSpec<Quat<T>>>::mul_spec(*self, *rhs)
    }
}

impl<T: Scalar> Mul<&Quat<T>> for &Vec3<T> {
    type Output = Vec3<T>;

    /// The product of the values, both operands borrowed.
    fn mul(self, rhs: &Quat<T>) -> (r: Vec3<T>) {
        *self * *rhs
    }
}

} // verus!
