//! Planes in implicit form.

use crate::pt3::Pt3;
use crate::scalar::Scalar;
use crate::structure::EuclideanSpace;
use crate::vec3::Vec3;
use vstd::prelude::*;
use vstd::std_specs::ops::AddSpec;
use vstd::std_specs::ops::MulSpec;

verus! {

/// The plane of the points `p` with `x·p.x + y·p.y + z·p.z + d = 0`:
/// the normal `(x, y, z)` and the offset `d`.
#[derive(Debug)]
pub struct Plane<T> {
    pub x: T,
    pub y: T,
    pub z: T,
    pub d: T,
}

impl<T: Copy> Clone for Plane<T> {
    fn clone(&self) -> (r: Self)
        ensures
            r == *self,
    {
        *self
    }
}

impl<T: Copy> Copy for Plane<T> {

}

impl<T> View for Plane<T> {
    type V = Seq<T>;

    /// The coefficients in the order `x`, `y`, `z`, `d`.
    open spec fn view(&self) -> Seq<T> {
        seq![self.x, self.y, self.z, self.d]
    }
}

impl<T: Copy> Plane<T> {
    pub fn new(x: T, y: T, z: T, d: T) -> (f: Plane<T>)
        ensures
            f == (Plane { x, y, z, d }),
    {
        Plane { x, y, z, d }
    }

    /// The normal `(x, y, z)`.
    pub open spec fn normal_spec(self) -> Vec3<T> {
        Vec3 { x: self.x, y: self.y, z: self.z }
    }

    /// The normal, without the offset `d`.
    pub fn normal(&self) -> (n: Vec3<T>)
        ensures
            n == self.normal_spec(),
            n@ == self@.take(3),
    {
        Vec3::new(self.x, self.y, self.z)
    }
}

/// Against a direction the plane gives the component along its normal;
/// the offset takes no part.
impl<T: Scalar> EuclideanSpace<Vec3<T>> for Plane<T> {
    type Scalar = T;

    open spec fn dot_req(&self, v: &Vec3<T>) -> bool {
        &&& self.x.mul_req(v.x)
        &&& self.y.mul_req(v.y)
        &&& self.z.mul_req(v.z)
        &&& self.x.mul_spec(v.x).add_req(self.y.mul_spec(v.y))
        &&& self.x.mul_spec(v.x).add_spec(self.y.mul_spec(v.y)).add_req(self.z.mul_spec(v.z))
    }

    /// `x·v.x + y·v.y + z·v.z`, summed from the left.
    open spec fn dot_spec(&self, v: &Vec3<T>) -> T {
        self.x.mul_spec(v.x).add_spec(self.y.mul_spec(v.y)).add_spec(self.z.mul_spec(v.z))
    }

    fn dot(&self, v: &Vec3<T>) -> (r: T) {
        self.x * v.x + self.y * v.y + self.z * v.z
    }
}

/// Against a point the plane gives the value of its implicit form there,
/// offset included: zero on the plane, and of one sign on each side.
impl<T: Scalar> EuclideanSpace<Pt3<T>> for Plane<T> {
    type Scalar = T;

    open spec fn dot_req(&self, p: &Pt3<T>) -> bool {
        &&& self.x.mul_req(p.x)
        &&& self.y.mul_req(p.y)
        &&& self.z.mul_req(p.z)
        &&& self.x.mul_spec(p.x).add_req(self.y.mul_spec(p.y))
        &&& self.x.mul_spec(p.x).add_spec(self.y.mul_spec(p.y)).add_req(self.z.mul_spec(p.z))
        &&& self.x.mul_spec(p.x).add_spec(self.y.mul_spec(p.y)).add_spec(
            self.z.mul_spec(p.z),
        ).add_req(self.d)
    }

    /// `x·p.x + y·p.y + z·p.z + d`, summed from the left.
    open spec fn dot_spec(&self, p: &Pt3<T>) -> T {
        self.x.mul_spec(p.x).add_spec(self.y.mul_spec(p.y)).add_spec(
            self.z.mul_spec(p.z),
        ).add_spec(self.d)
    }

    fn dot(&self, p: &Pt3<T>) -> (r: T) {
        self.x * p.x + self.y * p.y + self.z * p.z + self.d
    }
}

} // verus!
