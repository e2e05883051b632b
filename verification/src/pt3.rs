//! Points in three dimensions.

use crate::scalar::exact;
use crate::scalar::lifts;
use crate::scalar::lit;
use crate::scalar::lit_spec;
use crate::scalar::Scalar;
use crate::scalar::MINUS_ONE;
use crate::structure::EuclideanSpace;
use crate::structure::VecSpace;
use crate::vec3::Vec3;
use std::ops::Add;
use std::ops::AddAssign;
use std::ops::Div;
use std::ops::DivAssign;
use std::ops::Index;
use std::ops::IndexMut;
use std::ops::Mul;
use std::ops::MulAssign;
use std::ops::Neg;
use std::ops::Sub;
use std::ops::SubAssign;
use vstd::pervasive::unreached;
use vstd::prelude::*;
use vstd::std_specs::convert::FromSpecImpl;
use vstd::std_specs::ops::AddSpec;
use vstd::std_specs::ops::DivSpec;
use vstd::std_specs::ops::MulSpec;
use vstd::std_specs::ops::NegSpec;
use vstd::std_specs::ops::SubSpec;

verus! {

/// A point with coordinates `x`, `y` and `z`.
///
/// It holds what a `Vec3` holds and differs from it by type alone: a point
/// is a place, a vector a displacement.
#[derive(Debug)]
pub struct Pt3<T> {
    pub x: T,
    pub y: T,
    pub z: T,
}

impl<T: Copy> Clone for Pt3<T> {
    fn clone(&self) -> (r: Self)
        ensures
            r == *self,
    {
        *self
    }
}

impl<T: Copy> Copy for Pt3<T> {

}

impl<T> View for Pt3<T> {
    type V = Seq<T>;

    /// The coordinates in index order.
    open spec fn view(&self) -> Seq<T> {
        seq![self.x, self.y, self.z]
    }
}

impl<T: Copy> Pt3<T> {
    pub fn new(x: T, y: T, z: T) -> (p: Self)
        ensures
            p == (Pt3 { x, y, z }),
    {
        Pt3 { x, y, z }
    }
}

impl<T: Scalar> EuclideanSpace<Pt3<T>> for Pt3<T> {
    type Scalar = T;

    open spec fn dot_req(&self, other: &Pt3<T>) -> bool {
        &&& self.x.mul_req(other.x)
        &&& self.y.mul_req(other.y)
        &&& self.z.mul_req(other.z)
        &&& self.x.mul_spec(other.x).add_req(self.y.mul_spec(other.y))
        &&& self.x.mul_spec(other.x).add_spec(self.y.mul_spec(other.y)).add_req(
            self.z.mul_spec(other.z),
        )
    }

    /// `x·x' + y·y' + z·z'`, summed from the left.
    open spec fn dot_spec(&self, other: &Pt3<T>) -> T {
        self.x.mul_spec(other.x).add_spec(self.y.mul_spec(other.y)).add_spec(
            self.z.mul_spec(other.z),
        )
    }

    fn dot(&self, other: &Pt3<T>) -> (r: T) {
        self.x * other.x + self.y * other.y + self.z * other.z
    }
}

/// Points take part in the same arithmetic as vectors. Nothing in the types
/// keeps two points from being added: to use points only where a place is
/// meant is left to the caller.
impl<T: Scalar> VecSpace for Pt3<T> {

}

impl<T: Copy> vstd::std_specs::core::IndexSpecImpl<usize> for Pt3<T> {
    /// Only the indices below 3 name a coordinate.
    open spec fn index_req(&self, index: &usize) -> bool {
        *index < 3
    }
}

impl<T: Copy> Index<usize> for Pt3<T> {
    type Output = T;

    fn index(&self, i: usize) -> (r: &T)
        ensures
            *r == self@[i as int],
    {
        match i {
            0 => &self.x,
            1 => &self.y,
            2 => &self.z,
            _ => unreached(),
        }
    }
}

impl<T: Copy> IndexMut<usize> for Pt3<T> {
    fn index_mut(&mut self, i: usize) -> (r: &mut T)
        requires
            i < 3,
        ensures
            *r == old(self)@[i as int],
            final(self)@ == old(self)@.update(i as int, *final(r)),
    {
        match i {
            0 => &mut self.x,
            1 => &mut self.y,
            2 => &mut self.z,
            _ => unreached(),
        }
    }
}

impl<T: Copy> FromSpecImpl<[T; 3]> for Pt3<T> {
    open spec fn obeys_from_spec() -> bool {
        true
    }

    open spec fn from_spec(a: [T; 3]) -> Self {
        Pt3 { x: a[0], y: a[1], z: a[2] }
    }
}

impl<T: Copy> From<[T; 3]> for Pt3<T> {
    fn from(a: [T; 3]) -> (v: Self)
        ensures
            v@ == a@,
    {
        Pt3::new(a[0], a[1], a[2])
    }
}

impl<'a, T: Copy> FromSpecImpl<&'a [T; 3]> for Pt3<T> {
    open spec fn obeys_from_spec() -> bool {
        true
    }

    open spec fn from_spec(a: &'a [T; 3]) -> Self {
        Pt3 { x: a[0], y: a[1], z: a[2] }
    }
}

impl<'a, T: Copy> From<&'a [T; 3]> for Pt3<T> {
    fn from(a: &'a [T; 3]) -> (v: Self)
        ensures
            v@ == a@,
    {
        Pt3::new(a[0], a[1], a[2])
    }
}

impl<'a, T: Copy> FromSpecImpl<&'a mut [T; 3]> for Pt3<T> {
    open spec fn obeys_from_spec() -> bool {
        true
    }

    open spec fn from_spec(a: &'a mut [T; 3]) -> Self {
        Pt3 { x: a[0], y: a[1], z: a[2] }
    }
}

impl<'a, T: Copy> From<&'a mut [T; 3]> for Pt3<T> {
    fn from(a: &'a mut [T; 3]) -> (v: Self)
        ensures
            v@ == old(a)@,
            *final(a) == *old(a),
    {
        Pt3::new(a[0], a[1], a[2])
    }
}

impl<T: Copy> FromSpecImpl<Pt3<T>> for [T; 3] {
    open spec fn obeys_from_spec() -> bool {
        true
    }

    open spec fn from_spec(v: Pt3<T>) -> Self {
        [v.x, v.y, v.z]
    }
}

impl<T: Copy> From<Pt3<T>> for [T; 3] {
    fn from(v: Pt3<T>) -> (a: Self)
        ensures
            a@ == v@,
    {
        [v.x, v.y, v.z]
    }
}

impl<'a, T: Copy> FromSpecImpl<&'a Pt3<T>> for [T; 3] {
    open spec fn obeys_from_spec() -> bool {
        true
    }

    open spec fn from_spec(v: &'a Pt3<T>) -> Self {
        [v.x, v.y, v.z]
    }
}

impl<'a, T: Copy> From<&'a Pt3<T>> for [T; 3] {
    fn from(v: &'a Pt3<T>) -> (a: Self)
        ensures
            a@ == v@,
    {
        [v.x, v.y, v.z]
    }
}

impl<'a, T: Copy> FromSpecImpl<&'a mut Pt3<T>> for [T; 3] {
    open spec fn obeys_from_spec() -> bool {
        true
    }

    open spec fn from_spec(v: &'a mut Pt3<T>) -> Self {
        [v.x, v.y, v.z]
    }
}

impl<'a, T: Copy> From<&'a mut Pt3<T>> for [T; 3] {
    fn from(v: &'a mut Pt3<T>) -> (a: Self)
        ensures
            a@ == old(v)@,
            *final(v) == *old(v),
    {
        [v.x, v.y, v.z]
    }
}

impl<T: Copy> FromSpecImpl<Pt3<T>> for Vec3<T> {
    open spec fn obeys_from_spec() -> bool {
        true
    }

    open spec fn from_spec(v: Pt3<T>) -> Self {
        Vec3 { x: v.x, y: v.y, z: v.z }
    }
}

impl<T: Copy> From<Pt3<T>> for Vec3<T> {
    fn from(v: Pt3<T>) -> (r: Self)
        ensures
            r == (Vec3 { x: v.x, y: v.y, z: v.z }),
    {
        Vec3::new(v.x, v.y, v.z)
    }
}

impl<'a, T: Copy> FromSpecImpl<&'a Pt3<T>> for Vec3<T> {
    open spec fn obeys_from_spec() -> bool {
        true
    }

    open spec fn from_spec(v: &'a Pt3<T>) -> Self {
        Vec3 { x: v.x, y: v.y, z: v.z }
    }
}

impl<'a, T: Copy> From<&'a Pt3<T>> for Vec3<T> {
    fn from(v: &'a Pt3<T>) -> (r: Self)
        ensures
            r == (Vec3 { x: v.x, y: v.y, z: v.z }),
    {
        Vec3::new(v.x, v.y, v.z)
    }
}

impl<'a, T: Copy> FromSpecImpl<&'a mut Pt3<T>> for Vec3<T> {
    open spec fn obeys_from_spec() -> bool {
        true
    }

    open spec fn from_spec(v: &'a mut Pt3<T>) -> Self {
        Vec3 { x: v.x, y: v.y, z: v.z }
    }
}

impl<'a, T: Copy> From<&'a mut Pt3<T>> for Vec3<T> {
    fn from(v: &'a mut Pt3<T>) -> (r: Self)
        ensures
            r == (Vec3 { x: old(v).x, y: old(v).y, z: old(v).z }),
            *final(v) == *old(v),
    {
        Vec3::new(v.x, v.y, v.z)
    }
}

impl<T: Copy> FromSpecImpl<Vec3<T>> for Pt3<T> {
    open spec fn obeys_from_spec() -> bool {
        true
    }

    open spec fn from_spec(v: Vec3<T>) -> Self {
        Pt3 { x: v.x, y: v.y, z: v.z }
    }
}

impl<T: Copy> From<Vec3<T>> for Pt3<T> {
    fn from(v: Vec3<T>) -> (r: Self)
        ensures
            r == (Pt3 { x: v.x, y: v.y, z: v.z }),
    {
        Pt3::new(v.x, v.y, v.z)
    }
}

impl<'a, T: Copy> FromSpecImpl<&'a Vec3<T>> for Pt3<T> {
    open spec fn obeys_from_spec() -> bool {
        true
    }

    open spec fn from_spec(v: &'a Vec3<T>) -> Self {
        Pt3 { x: v.x, y: v.y, z: v.z }
    }
}

impl<'a, T: Copy> From<&'a Vec3<T>> for Pt3<T> {
    fn from(v: &'a Vec3<T>) -> (r: Self)
        ensures
            r == (Pt3 { x: v.x, y: v.y, z: v.z }),
    {
        Pt3::new(v.x, v.y, v.z)
    }
}

impl<'a, T: Copy> FromSpecImpl<&'a mut Vec3<T>> for Pt3<T> {
    open spec fn obeys_from_spec() -> bool {
        true
    }

    open spec fn from_spec(v: &'a mut Vec3<T>) -> Self {
        Pt3 { x: v.x, y: v.y, z: v.z }
    }
}

impl<'a, T: Copy> From<&'a mut Vec3<T>> for Pt3<T> {
    fn from(v: &'a mut Vec3<T>) -> (r: Self)
        ensures
            r == (Pt3 { x: old(v).x, y: old(v).y, z: old(v).z }),
            *final(v) == *old(v),
    {
        Pt3::new(v.x, v.y, v.z)
    }
}

impl<T: Scalar> vstd::std_specs::ops::AddSpecImpl for Pt3<T> {
    open spec fn obeys_add_spec() -> bool {
        T::obeys_add_spec()
    }

    open spec fn add_req(self, rhs: Pt3<T>) -> bool {
        &&& self.x.add_req(rhs.x)
        &&& self.y.add_req(rhs.y)
        &&& self.z.add_req(rhs.z)
    }

    open spec fn add_spec(self, rhs: Pt3<T>) -> Pt3<T> {
        Pt3 { x: self.x.add_spec(rhs.x), y: self.y.add_spec(rhs.y), z: self.z.add_spec(rhs.z) }
    }
}

impl<T: Scalar> Add for Pt3<T> {
    type Output = Pt3<T>;

    /// The sum, coordinate by coordinate.
    fn add(self, rhs: Pt3<T>) -> (r: Pt3<T>) {
        Pt3 { x: self.x + rhs.x, y: self.y + rhs.y, z: self.z + rhs.z }
    }
}

impl<T: Scalar> AddAssign for Pt3<T> {
    fn add_assign(&mut self, rhs: Pt3<T>)
        requires
            old(self).add_req(rhs),
        ensures
            T::obeys_add_spec() ==> *final(self) == old(self).add_spec(rhs),
    {
        *self = *self + rhs;
    }
}

impl<T: Scalar> vstd::std_specs::ops::SubSpecImpl for Pt3<T> {
    open spec fn obeys_sub_spec() -> bool {
        T::obeys_sub_spec()
    }

    open spec fn sub_req(self, rhs: Pt3<T>) -> bool {
        &&& self.x.sub_req(rhs.x)
        &&& self.y.sub_req(rhs.y)
        &&& self.z.sub_req(rhs.z)
    }

    open spec fn sub_spec(self, rhs: Pt3<T>) -> Pt3<T> {
        Pt3 { x: self.x.sub_spec(rhs.x), y: self.y.sub_spec(rhs.y), z: self.z.sub_spec(rhs.z) }
    }
}

impl<T: Scalar> Sub for Pt3<T> {
    type Output = Pt3<T>;

    /// The difference, coordinate by coordinate.
    fn sub(self, rhs: Pt3<T>) -> (r: Pt3<T>) {
        Pt3 { x: self.x - rhs.x, y: self.y - rhs.y, z: self.z - rhs.z }
    }
}

impl<T: Scalar> SubAssign for Pt3<T> {
    fn sub_assign(&mut self, rhs: Pt3<T>)
        requires
            old(self).sub_req(rhs),
        ensures
            T::obeys_sub_spec() ==> *final(self) == old(self).sub_spec(rhs),
    {
        *self = *self - rhs;
    }
}

impl<T: Scalar> vstd::std_specs::ops::MulSpecImpl<T> for Pt3<T> {
    open spec fn obeys_mul_spec() -> bool {
        T::obeys_mul_spec()
    }

    open spec fn mul_req(self, rhs: T) -> bool {
        &&& self.x.mul_req(rhs)
        &&& self.y.mul_req(rhs)
        &&& self.z.mul_req(rhs)
    }

    open spec fn mul_spec(self, rhs: T) -> Pt3<T> {
        Pt3 { x: self.x.mul_spec(rhs), y: self.y.mul_spec(rhs), z: self.z.mul_spec(rhs) }
    }
}

impl<T: Scalar> Mul<T> for Pt3<T> {
    type Output = Pt3<T>;

    /// Every coordinate times `rhs`.
    fn mul(self, rhs: T) -> (r: Pt3<T>) {
        Pt3 { x: self.x * rhs, y: self.y * rhs, z: self.z * rhs }
    }
}

impl<T: Scalar> MulAssign<T> for Pt3<T> {
    fn mul_assign(&mut self, rhs: T)
        requires
            old(self).mul_req(rhs),
        ensures
            T::obeys_mul_spec() ==> *final(self) == old(self).mul_spec(rhs),
    {
        *self = *self * rhs;
    }
}

impl<T: Scalar> vstd::std_specs::ops::DivSpecImpl<T> for Pt3<T> {
    open spec fn obeys_div_spec() -> bool {
        T::obeys_mul_spec()
    }

    /// Division goes by the reciprocal, so the scalar operators must be
    /// specified for `1 / rhs` to be known before it is multiplied in.
    open spec fn div_req(self, rhs: T) -> bool {
        &&& exact::<T>()
        &&& lit_spec::<T>(1).div_req(rhs)
        &&& self.mul_req(lit_spec::<T>(1).div_spec(rhs))
    }

    open spec fn div_spec(self, rhs: T) -> Pt3<T> {
        self.mul_spec(lit_spec::<T>(1).div_spec(rhs))
    }
}

impl<T: Scalar> Div<T> for Pt3<T> {
    type Output = Pt3<T>;

    /// Every coordinate times the reciprocal of `rhs`.
    fn div(self, rhs: T) -> (r: Pt3<T>) {
        let inv = lit::<T>(1) / rhs;
        Pt3 { x: self.x * inv, y: self.y * inv, z: self.z * inv }
    }
}

impl<T: Scalar> DivAssign<T> for Pt3<T> {
    fn div_assign(&mut self, rhs: T)
        requires
            old(self).div_req(rhs),
        ensures
            *final(self) == old(self).div_spec(rhs),
    {
        *self = *self / rhs;
    }
}

impl<T: Scalar> vstd::std_specs::ops::NegSpecImpl for Pt3<T> {
    open spec fn obeys_neg_spec() -> bool {
        T::obeys_mul_spec()
    }

    /// Negation goes by the factor `-1`, so taking up `-1` must be
    /// specified for the factor to be known.
    open spec fn neg_req(self) -> bool {
        &&& lifts::<T>()
        &&& self.mul_req(lit_spec::<T>(MINUS_ONE))
    }

    open spec fn neg_spec(self) -> Pt3<T> {
        self.mul_spec(lit_spec::<T>(MINUS_ONE))
    }
}

impl<T: Scalar> Neg for Pt3<T> {
    type Output = Pt3<T>;

    /// Every coordinate times `-1`.
    fn neg(self) -> (r: Pt3<T>) {
        self * lit::<T>(MINUS_ONE)
    }
}

impl<T: Scalar> vstd::std_specs::ops::AddSpecImpl<Vec3<T>> for Pt3<T> {
    open spec fn obeys_add_spec() -> bool {
        T::obeys_add_spec()
    }

    open spec fn add_req(self, rhs: Vec3<T>) -> bool {
        &&& self.x.add_req(rhs.x)
        &&& self.y.add_req(rhs.y)
        &&& self.z.add_req(rhs.z)
    }

    open spec fn add_spec(self, rhs: Vec3<T>) -> Pt3<T> {
        Pt3 { x: self.x.add_spec(rhs.x), y: self.y.add_spec(rhs.y), z: self.z.add_spec(rhs.z) }
    }
}

impl<T: Scalar> Add<Vec3<T>> for Pt3<T> {
    type Output = Pt3<T>;

    /// The point moved by `rhs`.
    fn add(self, rhs: Vec3<T>) -> (r: Pt3<T>) {
        Pt3 { x: self.x + rhs.x, y: self.y + rhs.y, z: self.z + rhs.z }
    }
}

impl<T: Scalar> AddAssign<Vec3<T>> for Pt3<T> {
    fn add_assign(&mut self, rhs: Vec3<T>)
        requires
            old(self).add_req(rhs),
        ensures
            T::obeys_add_spec() ==> *final(self) == old(self).add_spec(rhs),
    {
        *self = *self + rhs;
    }
}

impl<T: Scalar> vstd::std_specs::ops::SubSpecImpl<Vec3<T>> for Pt3<T> {
    open spec fn obeys_sub_spec() -> bool {
        T::obeys_sub_spec()
    }

    open spec fn sub_req(self, rhs: Vec3<T>) -> bool {
        &&& self.x.sub_req(rhs.x)
        &&& self.y.sub_req(rhs.y)
        &&& self.z.sub_req(rhs.z)
    }

    open spec fn sub_spec(self, rhs: Vec3<T>) -> Pt3<T> {
        Pt3 { x: self.x.sub_spec(rhs.x), y: self.y.sub_spec(rhs.y), z: self.z.sub_spec(rhs.z) }
    }
}

impl<T: Scalar> Sub<Vec3<T>> for Pt3<T> {
    type Output = Pt3<T>;

    /// The point moved against `rhs`.
    fn sub(self, rhs: Vec3<T>) -> (r: Pt3<T>) {
        Pt3 { x: self.x - rhs.x, y: self.y - rhs.y, z: self.z - rhs.z }
    }
}

impl<T: Scalar> SubAssign<Vec3<T>> for Pt3<T> {
    fn sub_assign(&mut self, rhs: Vec3<T>)
        requires
            old(self).sub_req(rhs),
        ensures
            T::obeys_sub_spec() ==> *final(self) == old(self).sub_spec(rhs),
    {
        *self = *self - rhs;
    }
}

} // verus!
