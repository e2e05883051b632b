//! Four-component vectors.

use crate::scalar::exact;
use crate::scalar::lifts;
use crate::scalar::lit;
use crate::scalar::lit_spec;
use crate::scalar::Scalar;
use crate::scalar::MINUS_ONE;
use crate::structure::EuclideanSpace;
use crate::structure::VecSpace;
use crate::vec3::Vec3;
use std::ops::Add;
use std::ops::AddAssign;
use std::ops::Div;
use std::ops::DivAssign;
use std::ops::Index;
use std::ops::IndexMut;
use std::ops::Mul;
use std::ops::MulAssign;
use std::ops::Neg;
use std::ops::Sub;
use std::ops::SubAssign;
use vstd::pervasive::unreached;
use vstd::prelude::*;
use vstd::std_specs::convert::FromSpecImpl;
use vstd::std_specs::ops::AddSpec;
use vstd::std_specs::ops::DivSpec;
use vstd::std_specs::ops::MulSpec;
use vstd::std_specs::ops::NegSpec;
use vstd::std_specs::ops::SubSpec;

verus! {

/// A vector with components `x`, `y`, `z` and `w`.
#[derive(Debug)]
pub struct Vec4<T> {
    pub x: T,
    pub y: T,
    pub z: T,
    pub w: T,
}

impl<T: Copy> Clone for Vec4<T> {
    fn clone(&self) -> (r: Self)
        ensures
            r == *self,
    {
        *self
    }
}

impl<T: Copy> Copy for Vec4<T> {

}

impl<T> View for Vec4<T> {
    type V = Seq<T>;

    /// The components in index order.
    open spec fn view(&self) -> Seq<T> {
        seq![self.x, self.y, self.z, self.w]
    }
}

impl<T: Copy> Vec4<T> {
    pub fn new(x: T, y: T, z: T, w: T) -> (v: Self)
        ensures
            v == (Vec4 { x, y, z, w }),
    {
        Self { x, y, z, w }
    }

    /// The first three components.
    pub open spec fn xyz_spec(self) -> Vec3<T> {
        Vec3 { x: self.x, y: self.y, z: self.z }
    }

    /// Drops the fourth component.
    pub fn xyz(&self) -> (v: Vec3<T>)
        ensures
            v == self.xyz_spec(),
            v@ == self@.take(3),
    {
        Vec3::new(self.x, self.y, self.z)
    }
}

impl<T: Scalar> Vec4<T> {
    /// The vector `(0, 0, 0, 0)`.
    pub open spec fn zero_spec() -> Self {
        Vec4 {
            x: lit_spec::<T>(0),
            y: lit_spec::<T>(0),
            z: lit_spec::<T>(0),
            w: lit_spec::<T>(0),
        }
    }

    /// The vector `(0, 0, 0, 0)`.
    pub fn zero() -> (v: Self)
        ensures
            lifts::<T>() ==> v == Self::zero_spec(),
    {
        Vec4 { x: lit(0), y: lit(0), z: lit(0), w: lit(0) }
    }

    /// The unit vector along axis `i`: `1` at index `i` and `0` elsewhere.
    pub open spec fn unit_spec(i: int) -> Self {
        Vec4 {
            x: lit_spec::<T>(if i == 0 { 1i8 } else { 0i8 }),
            y: lit_spec::<T>(if i == 1 { 1i8 } else { 0i8 }),
            z: lit_spec::<T>(if i == 2 { 1i8 } else { 0i8 }),
            w: lit_spec::<T>(if i == 3 { 1i8 } else { 0i8 }),
        }
    }

    /// The unit vector `(1, 0, 0, 0)`.
    pub fn unit_x() -> (v: Self)
        ensures
            lifts::<T>() ==> v == Self::unit_spec(0),
    {
        Vec4 { x: lit(1), y: lit(0), z: lit(0), w: lit(0) }
    }

    /// The unit vector `(0, 1, 0, 0)`.
    pub fn unit_y() -> (v: Self)
        ensures
            lifts::<T>() ==> v == Self::unit_spec(1),
    {
        Vec4 { x: lit(0), y: lit(1), z: lit(0), w: lit(0) }
    }

    /// The unit vector `(0, 0, 1, 0)`.
    pub fn unit_z() -> (v: Self)
        ensures
            lifts::<T>() ==> v == Self::unit_spec(2),
    {
        Vec4 { x: lit(0), y: lit(0), z: lit(1), w: lit(0) }
    }

    /// The unit vector `(0, 0, 0, 1)`.
    pub fn unit_w() -> (v: Self)
        ensures
            lifts::<T>() ==> v == Self::unit_spec(3),
    {
        Vec4 { x: lit(0), y: lit(0), z: lit(0), w: lit(1) }
    }
}

impl<T: Scalar> EuclideanSpace<Vec4<T>> for Vec4<T> {
    type Scalar = T;

    open spec fn dot_req(&self, other: &Vec4<T>) -> bool {
        &&& self.x.mul_req(other.x)
        &&& self.y.mul_req(other.y)
        &&& self.z.mul_req(other.z)
        &&& self.w.mul_req(other.w)
        &&& self.x.mul_spec(other.x).add_req(self.y.mul_spec(other.y))
        &&& self.x.mul_spec(other.x).add_spec(self.y.mul_spec(other.y)).add_req(
            self.z.mul_spec(other.z),
        )
        &&& self.x.mul_spec(other.x).add_spec(self.y.mul_spec(other.y)).add_spec(
            self.z.mul_spec(other.z),
        ).add_req(self.w.mul_spec(other.w))
    }

    /// `x·x' + y·y' + z·z' + w·w'`, summed from the left.
    open spec fn dot_spec(&self, other: &Vec4<T>) -> T {
        self.x.mul_spec(other.x).add_spec(self.y.mul_spec(other.y)).add_spec(
            self.z.mul_spec(other.z),
        ).add_spec(self.w.mul_spec(other.w))
    }

    fn dot(&self, other: &Vec4<T>) -> (r: T) {
        self.x * other.x + self.y * other.y + self.z * other.z + self.w * other.w
    }
}

impl<T: Scalar> VecSpace for Vec4<T> {

}

impl<T: Copy> vstd::std_specs::core::IndexSpecImpl<usize> for Vec4<T> {
    /// Only the indices below 4 name a component.
    open spec fn index_req(&self, index: &usize) -> bool {
        *index < 4
    }
}

impl<T: Copy> Index<usize> for Vec4<T> {
    type Output = T;

    fn index(&self, i: usize) -> (r: &T)
        ensures
            *r == self@[i as int],
    {
        match i {
            0 => &self.x,
            1 => &self.y,
            2 => &self.z,
            3 => &self.w,
            _ => unreached(),
        }
    }
}

impl<T: Copy> IndexMut<usize> for Vec4<T> {
    fn index_mut(&mut self, i: usize) -> (r: &mut T)
        requires
            i < 4,
        ensures
            *r == old(self)@[i as int],
            final(self)@ == old(self)@.update(i as int, *final(r)),
    {
        match i {
            0 => &mut self.x,
            1 => &mut self.y,
            2 => &mut self.z,
            3 => &mut self.w,
            _ => unreached(),
        }
    }
}

impl<T: Copy> FromSpecImpl<[T; 4]> for Vec4<T> {
    open spec fn obeys_from_spec() -> bool {
        true
    }

    open spec fn from_spec(a: [T; 4]) -> Self {
        Vec4 { x: a[0], y: a[1], z: a[2], w: a[3] }
    }
}

impl<T: Copy> From<[T; 4]> for Vec4<T> {
    fn from(a: [T; 4]) -> (v: Self)
        ensures
            v@ == a@,
    {
        Vec4::new(a[0], a[1], a[2], a[3])
    }
}

impl<'a, T: Copy> FromSpecImpl<&'a [T; 4]> for Vec4<T> {
    open spec fn obeys_from_spec() -> bool {
        true
    }

    open spec fn from_spec(a: &'a [T; 4]) -> Self {
        Vec4 { x: a[0], y: a[1], z: a[2], w: a[3] }
    }
}

impl<'a, T: Copy> From<&'a [T; 4]> for Vec4<T> {
    fn from(a: &'a [T; 4]) -> (v: Self)
        ensures
            v@ == a@,
    {
        Vec4::new(a[0], a[1], a[2], a[3])
    }
}

impl<'a, T: Copy> FromSpecImpl<&'a mut [T; 4]> for Vec4<T> {
    open spec fn obeys_from_spec() -> bool {
        true
    }

    open spec fn from_spec(a: &'a mut [T; 4]) -> Self {
        Vec4 { x: a[0], y: a[1], z: a[2], w: a[3] }
    }
}

impl<'a, T: Copy> From<&'a mut [T; 4]> for Vec4<T> {
    fn from(a: &'a mut [T; 4]) -> (v: Self)
        ensures
            v@ == old(a)@,
            *final(a) == *old(a),
    {
        Vec4::new(a[0], a[1], a[2], a[3])
    }
}

impl<T: Copy> FromSpecImpl<Vec4<T>> for [T; 4] {
    open spec fn obeys_from_spec() -> bool {
        true
    }

    open spec fn from_spec(v: Vec4<T>) -> Self {
        [v.x, v.y, v.z, v.w]
    }
}

impl<T: Copy> From<Vec4<T>> for [T; 4] {
    fn from(v: Vec4<T>) -> (a: Self)
        ensures
            a@ == v@,
    {
        [v.x, v.y, v.z, v.w]
    }
}

impl<'a, T: Copy> FromSpecImpl<&'a Vec4<T>> for [T; 4] {
    open spec fn obeys_from_spec() -> bool {
        true
    }

    open spec fn from_spec(v: &'a Vec4<T>) -> Self {
        [v.x, v.y, v.z, v.w]
    }
}

impl<'a, T: Copy> From<&'a Vec4<T>> for [T; 4] {
    fn from(v: &'a Vec4<T>) -> (a: Self)
        ensures
            a@ == v@,
    {
        [v.x, v.y, v.z, v.w]
    }
}

impl<'a, T: Copy> FromSpecImpl<&'a mut Vec4<T>> for [T; 4] {
    open spec fn obeys_from_spec() -> bool {
        true
    }

    open spec fn from_spec(v: &'a mut Vec4<T>) -> Self {
        [v.x, v.y, v.z, v.w]
    }
}

impl<'a, T: Copy> From<&'a mut Vec4<T>> for [T; 4] {
    fn from(v: &'a mut Vec4<T>) -> (a: Self)
        ensures
            a@ == old(v)@,
            *final(v) == *old(v),
    {
        [v.x, v.y, v.z, v.w]
    }
}

impl<T: Copy> FromSpecImpl<Vec4<T>> for Vec3<T> {
    open spec fn obeys_from_spec() -> bool {
        true
    }

    open spec fn from_spec(v: Vec4<T>) -> Self {
        Vec3 { x: v.x, y: v.y, z: v.z }
    }
}

impl<T: Copy> From<Vec4<T>> for Vec3<T> {
    fn from(v: Vec4<T>) -> (r: Self)
        ensures
            r == (Vec3 { x: v.x, y: v.y, z: v.z }),
    {
        Vec3::new(v.x, v.y, v.z)
    }
}

impl<'a, T: Copy> FromSpecImpl<&'a Vec4<T>> for Vec3<T> {
    open spec fn obeys_from_spec() -> bool {
        true
    }

    open spec fn from_spec(v: &'a Vec4<T>) -> Self {
        Vec3 { x: v.x, y: v.y, z: v.z }
    }
}

impl<'a, T: Copy> From<&'a Vec4<T>> for Vec3<T> {
    fn from(v: &'a Vec4<T>) -> (r: Self)
        ensures
            r == (Vec3 { x: v.x, y: v.y, z: v.z }),
    {
        Vec3::new(v.x, v.y, v.z)
    }
}

impl<'a, T: Copy> FromSpecImpl<&'a mut Vec4<T>> for Vec3<T> {
    open spec fn obeys_from_spec() -> bool {
        true
    }

    open spec fn from_spec(v: &'a mut Vec4<T>) -> Self {
        Vec3 { x: v.x, y: v.y, z: v.z }
    }
}

impl<'a, T: Copy> From<&'a mut Vec4<T>> for Vec3<T> {
    fn from(v: &'a mut Vec4<T>) -> (r: Self)
        ensures
            r == (Vec3 { x: old(v).x, y: old(v).y, z: old(v).z }),
            *final(v) == *old(v),
    {
        Vec3::new(v.x, v.y, v.z)
    }
}

impl<T: Scalar> vstd::std_specs::ops::AddSpecImpl for Vec4<T> {
    open spec fn obeys_add_spec() -> bool {
        T::obeys_add_spec()
    }

    open spec fn add_req(self, rhs: Vec4<T>) -> bool {
        &&& self.x.add_req(rhs.x)
        &&& self.y.add_req(rhs.y)
        &&& self.z.add_req(rhs.z)
        &&& self.w.add_req(rhs.w)
    }

    open spec fn add_spec(self, rhs: Vec4<T>) -> Vec4<T> {
        Vec4 {
            x: self.x.add_spec(rhs.x),
            y: self.y.add_spec(rhs.y),
            z: self.z.add_spec(rhs.z),
            w: self.w.add_spec(rhs.w),
        }
    }
}

impl<T: Scalar> Add for Vec4<T> {
    type Output = Vec4<T>;

    /// The sum, component by component.
    fn add(self, rhs: Vec4<T>) -> (r: Vec4<T>) {
        Vec4 { x: self.x + rhs.x, y: self.y + rhs.y, z: self.z + rhs.z, w: self.w + rhs.w }
    }
}

impl<T: Scalar> AddAssign for Vec4<T> {
    fn add_assign(&mut self, rhs: Vec4<T>)
        requires
            old(self).add_req(rhs),
        ensures
            T::obeys_add_spec() ==> *final(self) == old(self).add_spec(rhs),
    {
        *self = *self + rhs;
    }
}

impl<T: Scalar> vstd::std_specs::ops::SubSpecImpl for Vec4<T> {
    open spec fn obeys_sub_spec() -> bool {
        T::obeys_sub_spec()
    }

    open spec fn sub_req(self, rhs: Vec4<T>) -> bool {
        &&& self.x.sub_req(rhs.x)
        &&& self.y.sub_req(rhs.y)
        &&& self.z.sub_req(rhs.z)
        &&& self.w.sub_req(rhs.w)
    }

    open spec fn sub_spec(self, rhs: Vec4<T>) -> Vec4<T> {
        Vec4 {
            x: self.x.sub_spec(rhs.x),
            y: self.y.sub_spec(rhs.y),
            z: self.z.sub_spec(rhs.z),
            w: self.w.sub_spec(rhs.w),
        }
    }
}

impl<T: Scalar> Sub for Vec4<T> {
    type Output = Vec4<T>;

    /// The difference, component by component.
    fn sub(self, rhs: Vec4<T>) -> (r: Vec4<T>) {
        Vec4 { x: self.x - rhs.x, y: self.y - rhs.y, z: self.z - rhs.z, w: self.w - rhs.w }
    }
}

impl<T: Scalar> SubAssign for Vec4<T> {
    fn sub_assign(&mut self, rhs: Vec4<T>)
        requires
            old(self).sub_req(rhs),
        ensures
            T::obeys_sub_spec() ==> *final(self) == old(self).sub_spec(rhs),
    {
        *self = *self - rhs;
    }
}

impl<T: Scalar> vstd::std_specs::ops::MulSpecImpl<T> for Vec4<T> {
    open spec fn obeys_mul_spec() -> bool {
        T::obeys_mul_spec()
    }

    open spec fn mul_req(self, rhs: T) -> bool {
        &&& self.x.mul_req(rhs)
        &&& self.y.mul_req(rhs)
        &&& self.z.mul_req(rhs)
        &&& self.w.mul_req(rhs)
    }

    open spec fn mul_spec(self, rhs: T) -> Vec4<T> {
        Vec4 {
            x: self.x.mul_spec(rhs),
            y: self.y.mul_spec(rhs),
            z: self.z.mul_spec(rhs),
            w: self.w.mul_spec(rhs),
        }
    }
}

impl<T: Scalar> Mul<T> for Vec4<T> {
    type Output = Vec4<T>;

    /// Every component times `rhs`.
    fn mul(self, rhs: T) -> (r: Vec4<T>) {
        Vec4 { x: self.x * rhs, y: self.y * rhs, z: self.z * rhs, w: self.w * rhs }
    }
}

impl<T: Scalar> MulAssign<T> for Vec4<T> {
    fn mul_assign(&mut self, rhs: T)
        requires
            old(self).mul_req(rhs),
        ensures
            T::obeys_mul_spec() ==> *final(self) == old(self).mul_spec(rhs),
    {
        *self = *self * rhs;
    }
}

impl<T: Scalar> vstd::std_specs::ops::DivSpecImpl<T> for Vec4<T> {
    open spec fn obeys_div_spec() -> bool {
        T::obeys_mul_spec()
    }

    /// Division goes by the reciprocal, so the scalar operators must be
    /// specified for `1 / rhs` to be known before it is multiplied in.
    open spec fn div_req(self, rhs: T) -> bool {
        &&& exact::<T>()
        &&& lit_spec::<T>(1).div_req(rhs)
        &&& self.mul_req(lit_spec::<T>(1).div_spec(rhs))
    }

    open spec fn div_spec(self, rhs: T) -> Vec4<T> {
        self.mul_spec(lit_spec::<T>(1).div_spec(rhs))
    }
}

impl<T: Scalar> Div<T> for Vec4<T> {
    type Output = Vec4<T>;

    /// Every component times the reciprocal of `rhs`.
    fn div(self, rhs: T) -> (r: Vec4<T>) {
        let inv = lit::<T>(1) / rhs;
        Vec4 { x: self.x * inv, y: self.y * inv, z: self.z * inv, w: self.w * inv }
    }
}

impl<T: Scalar> DivAssign<T> for Vec4<T> {
    fn div_assign(&mut self, rhs: T)
        requires
            old(self).div_req(rhs),
        ensures
            *final(self) == old(self).div_spec(rhs),
    {
        *self = *self / rhs;
    }
}

impl<T: Scalar> vstd::std_specs::ops::NegSpecImpl for Vec4<T> {
    open spec fn obeys_neg_spec() -> bool {
        T::obeys_mul_spec()
    }

    /// Negation goes by the factor `-1`, so taking up `-1` must be
    /// specified for the factor to be known.
    open spec fn neg_req(self) -> bool {
        &&& lifts::<T>()
        &&& self.mul_req(lit_spec::<T>(MINUS_ONE))
    }

    open spec fn neg_spec(self) -> Vec4<T> {
        self.mul_spec(lit_spec::<T>(MINUS_ONE))
    }
}

impl<T: Scalar> Neg for Vec4<T> {
    type Output = Vec4<T>;

    /// Every component times `-1`.
    fn neg(self) -> (r: Vec4<T>) {
        self * lit::<T>(MINUS_ONE)
    }
}

} // verus!
