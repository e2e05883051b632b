//! Quaternions.

use crate::mat3::Mat3;
use crate::scalar::exact;
use crate::scalar::gt_spec;
use crate::scalar::lit;
use crate::scalar::lit_spec;
use crate::scalar::Scalar;
use crate::structure::EuclideanSpace;
use crate::vec3::Vec3;
use std::ops::Mul;
use vstd::prelude::*;
use vstd::std_specs::convert::FromSpecImpl;
use vstd::std_specs::ops::AddSpec;
use vstd::std_specs::ops::DivSpec;
use vstd::std_specs::ops::MulSpec;
use vstd::std_specs::ops::SubSpec;

verus! {

/// A quaternion with vector part `(x, y, z)` and scalar part `w`.
#[derive(Debug)]
pub struct Quat<T> {
    pub x: T,
    pub y: T,
    pub z: T,
    pub w: T,
}

impl<T: Copy> Clone for Quat<T> {
    fn clone(&self) -> (r: Self)
        ensures
            r == *self,
    {
        *self
    }
}

impl<T: Copy> Copy for Quat<T> {

}

impl<T> View for Quat<T> {
    type V = Seq<T>;

    /// The components in the order `x`, `y`, `z`, `w`.
    open spec fn view(&self) -> Seq<T> {
        seq![self.x, self.y, self.z, self.w]
    }
}

impl<T: Copy> Quat<T> {
    pub fn new(x: T, y: T, z: T, w: T) -> (q: Quat<T>)
        ensures
            q == (Quat { x, y, z, w }),
    {
        Quat { x, y, z, w }
    }

    /// The vector part `(x, y, z)`.
    pub open spec fn vec_part_spec(self) -> Vec3<T> {
        Vec3 { x: self.x, y: self.y, z: self.z }
    }

    /// The vector part, without the scalar `w`.
    pub fn get_vec_part(&self) -> (v: Vec3<T>)
        ensures
            v == self.vec_part_spec(),
            v@ == self@.take(3),
    {
        Vec3::new(self.x, self.y, self.z)
    }
}

impl<T: Copy> FromSpecImpl<[T; 4]> for Quat<T> {
    open spec fn obeys_from_spec() -> bool {
        true
    }

    open spec fn from_spec(a: [T; 4]) -> Self {
        Quat { x: a[0], y: a[1], z: a[2], w: a[3] }
    }
}

impl<T: Copy> From<[T; 4]> for Quat<T> {
    fn from(a: [T; 4]) -> (v: Self)
        ensures
            v@ == a@,
    {
        Quat::new(a[0], a[1], a[2], a[3])
    }
}

impl<'a, T: Copy> FromSpecImpl<&'a [T; 4]> for Quat<T> {
    open spec fn obeys_from_spec() -> bool {
        true
    }

    open spec fn from_spec(a: &'a [T; 4]) -> Self {
        Quat { x: a[0], y: a[1], z: a[2], w: a[3] }
    }
}

impl<'a, T: Copy> From<&'a [T; 4]> for Quat<T> {
    fn from(a: &'a [T; 4]) -> (v: Self)
        ensures
            v@ == a@,
    {
        Quat::new(a[0], a[1], a[2], a[3])
    }
}

impl<'a, T: Copy> FromSpecImpl<&'a mut [T; 4]> for Quat<T> {
    open spec fn obeys_from_spec() -> bool {
        true
    }

    open spec fn from_spec(a: &'a mut [T; 4]) -> Self {
        Quat { x: a[0], y: a[1], z: a[2], w: a[3] }
    }
}

impl<'a, T: Copy> From<&'a mut [T; 4]> for Quat<T> {
    fn from(a: &'a mut [T; 4]) -> (v: Self)
        ensures
            v@ == old(a)@,
            *final(a) == *old(a),
    {
        Quat::new(a[0], a[1], a[2], a[3])
    }
}

impl<T: Copy> FromSpecImpl<Quat<T>> for [T; 4] {
    open spec fn obeys_from_spec() -> bool {
        true
    }

    open spec fn from_spec(v: Quat<T>) -> Self {
        [v.x, v.y, v.z, v.w]
    }
}

impl<T: Copy> From<Quat<T>> for [T; 4] {
    fn from(v: Quat<T>) -> (a: Self)
        ensures
            a@ == v@,
    {
        [v.x, v.y, v.z, v.w]
    }
}

impl<'a, T: Copy> FromSpecImpl<&'a Quat<T>> for [T; 4] {
    open spec fn obeys_from_spec() -> bool {
        true
    }

    open spec fn from_spec(v: &'a Quat<T>) -> Self {
        [v.x, v.y, v.z, v.w]
    }
}

impl<'a, T: Copy> From<&'a Quat<T>> for [T; 4] {
    fn from(v: &'a Quat<T>) -> (a: Self)
        ensures
            a@ == v@,
    {
        [v.x, v.y, v.z, v.w]
    }
}

impl<'a, T: Copy> FromSpecImpl<&'a mut Quat<T>> for [T; 4] {
    open spec fn obeys_from_spec() -> bool {
        true
    }

    open spec fn from_spec(v: &'a mut Quat<T>) -> Self {
        [v.x, v.y, v.z, v.w]
    }
}

impl<'a, T: Copy> From<&'a mut Quat<T>> for [T; 4] {
    fn from(v: &'a mut Quat<T>) -> (a: Self)
        ensures
            a@ == old(v)@,
            *final(v) == *old(v),
    {
        [v.x, v.y, v.z, v.w]
    }
}

/// The component that a rotation matrix yields first when it is turned
/// into a quaternion. The other three follow from it by division.
#[derive(Clone, Copy, Debug, PartialEq, Eq, Structural)]
pub enum Lead {
    /// The scalar part: the trace is above zero.
    W,
    /// `x`: the trace is not above zero and the first diagonal entry is
    /// above both others.
    X,
    /// `y`: neither of the former, and the second diagonal entry is above
    /// the third.
    Y,
    /// `z`: none of the former.
    Z,
}

impl<T: Scalar> vstd::std_specs::ops::MulSpecImpl for Quat<T> {
    open spec fn obeys_mul_spec() -> bool {
        true
    }

    /// Each component is a sum of four products, so the scalar operators
    /// must be specified for the partial sums to be known.
    open spec fn mul_req(self, rhs: Quat<T>) -> bool {
        let (x1, y1, z1, w1) = (self.x, self.y, self.z, self.w);
        let (x2, y2, z2, w2) = (rhs.x, rhs.y, rhs.z, rhs.w);
        &&& exact::<T>()
        &&& w1.mul_req(x2)
        &&& x1.mul_req(w2)
        &&& y1.mul_req(z2)
        &&& z1.mul_req(y2)
        &&& w1.mul_spec(x2).add_req(x1.mul_spec(w2))
        &&& w1.mul_spec(x2).add_spec(x1.mul_spec(w2)).add_req(y1.mul_spec(z2))
        &&& w1.mul_spec(x2).add_spec(x1.mul_spec(w2)).add_spec(y1.mul_spec(z2)).sub_req(
            z1.mul_spec(y2),
        )
        &&& w1.mul_req(y2)
        &&& x1.mul_req(z2)
        &&& y1.mul_req(w2)
        &&& z1.mul_req(x2)
        &&& w1.mul_spec(y2).sub_req(x1.mul_spec(z2))
        &&& w1.mul_spec(y2).sub_spec(x1.mul_spec(z2)).add_req(y1.mul_spec(w2))
        &&& w1.mul_spec(y2).sub_spec(x1.mul_spec(z2)).add_spec(y1.mul_spec(w2)).add_req(
            z1.mul_spec(x2),
        )
        &&& w1.mul_req(z2)
        &&& x1.mul_req(y2)
        &&& y1.mul_req(x2)
        &&& z1.mul_req(w2)
        &&& w1.mul_spec(z2).add_req(x1.mul_spec(y2))
        &&& w1.mul_spec(z2).add_spec(x1.mul_spec(y2)).sub_req(y1.mul_spec(x2))
        &&& w1.mul_spec(z2).add_spec(x1.mul_spec(y2)).sub_spec(y1.mul_spec(x2)).add_req(
            z1.mul_spec(w2),
        )
        &&& w1.mul_req(w2)
        &&& x1.mul_req(x2)
        &&& y1.mul_req(y2)
        &&& z1.mul_req(z2)
        &&& w1.mul_spec(w2).sub_req(x1.mul_spec(x2))
        &&& w1.mul_spec(w2).sub_spec(x1.mul_spec(x2)).sub_req(y1.mul_spec(y2))
        &&& w1.mul_spec(w2).sub_spec(x1.mul_spec(x2)).sub_spec(y1.mul_spec(y2)).sub_req(
            z1.mul_spec(z2),
        )
    }

    /// The Hamilton product, each line taken from the left:
    ///
    /// ```text
    /// x = w1·x2 + x1·w2 + y1·z2 − z1·y2
    /// y = w1·y2 − x1·z2 + y1·w2 + z1·x2
    /// z = w1·z2 + x1·y2 − y1·x2 + z1·w2
    /// w = w1·w2 − x1·x2 − y1·y2 − z1·z2
    /// ```
    open spec fn mul_spec(self, rhs: Quat<T>) -> Quat<T> {
        let (x1, y1, z1, w1) = (self.x, self.y, self.z, self.w);
        let (x2, y2, z2, w2) = (rhs.x, rhs.y, rhs.z, rhs.w);
        Quat {
            x: w1.mul_spec(x2).add_spec(x1.mul_spec(w2)).add_spec(y1.mul_spec(z2)).sub_spec(
                z1.mul_spec(y2),
            ),
            y: w1.mul_spec(y2).sub_spec(x1.mul_spec(z2)).add_spec(y1.mul_spec(w2)).add_spec(
                z1.mul_spec(x2),
            ),
            z: w1.mul_spec(z2).add_spec(x1.mul_spec(y2)).sub_spec(y1.mul_spec(x2)).add_spec(
                z1.mul_spec(w2),
            ),
            w: w1.mul_spec(w2).sub_spec(x1.mul_spec(x2)).sub_spec(y1.mul_spec(y2)).sub_spec(
                z1.mul_spec(z2),
            ),
        }
    }
}

impl<T: Scalar> Mul for Quat<T> {
    type Output = Quat<T>;

    /// The Hamilton product, which for unit quaternions composes the
    /// rotations.
    fn mul(self, rhs: Quat<T>) -> (r: Quat<T>) {
        let (x1, y1, z1, w1) = (self.x, self.y, self.z, self.w);
        let (x2, y2, z2, w2) = (rhs.x, rhs.y, rhs.z, rhs.w);
        Quat::new(
            w1 * x2 + x1 * w2 + y1 * z2 - z1 * y2,
            w1 * y2 - x1 * z2 + y1 * w2 + z1 * x2,
            w1 * z2 + x1 * y2 - y1 * x2 + z1 * w2,
            w1 * w2 - x1 * x2 - y1 * y2 - z1 * z2,
        )
    }
}

impl<T: Scalar> vstd::std_specs::ops::MulSpecImpl<Quat<T>> for Vec3<T> {
    open spec fn obeys_mul_spec() -> bool {
        true
    }

    open spec fn mul_req(self, q: Quat<T>) -> bool {
        let v = self;
        let b = q.vec_part_spec();
        let two = lit_spec::<T>(2);
        let w2 = q.w.mul_spec(q.w);
        let b2 = b.dot_spec(&b);
        let p = MulSpec::mul_spec(v, w2.sub_spec(b2));
        let k = v.dot_spec(&b).mul_spec(two);
        let l = q.w.mul_spec(two);
        &&& exact::<T>()
        &&& b.dot_req(&b)
        &&& q.w.mul_req(q.w)
        &&& w2.sub_req(b2)
        &&& MulSpec::mul_req(v, w2.sub_spec(b2))
        &&& v.dot_req(&b)
        &&& v.dot_spec(&b).mul_req(two)
        &&& MulSpec::mul_req(b, k)
        &&& p.add_req(MulSpec::mul_spec(b, k))
        &&& b.cross_req(v)
        &&& q.w.mul_req(two)
        &&& MulSpec::mul_req(b.cross_spec(v), l)
        &&& p.add_spec(MulSpec::mul_spec(b, k)).add_req(MulSpec::mul_spec(b.cross_spec(v), l))
    }

    /// With `b` the vector part of `q`:
    /// `v·(w² − b·b) + b·((v·b)·2) + (b × v)·(w·2)`, taken from the left.
    open spec fn mul_spec(self, q: Quat<T>) -> Vec3<T> {
        let v = self;
        let b = q.vec_part_spec();
        let two = lit_spec::<T>(2);
        let p = MulSpec::mul_spec(v, q.w.mul_spec(q.w).sub_spec(b.dot_spec(&b)));
        let k = v.dot_spec(&b).mul_spec(two);
        let l = q.w.mul_spec(two);
        p.add_spec(MulSpec::mul_spec(b, k)).add_spec(MulSpec::mul_spec(b.cross_spec(v), l))
    }
}

impl<T: Scalar> Mul<Quat<T>> for Vec3<T> {
    type Output = Vec3<T>;

    /// The vector turned by the rotation that the unit quaternion `q`
    /// stands for.
    ///
    /// The formula takes `q` to have length one; with another length the
    /// result is scaled as well as turned.
    fn mul(self, q: Quat<T>) -> (r: Vec3<T>) {
        let v = self;
        let b = q.get_vec_part();
        let b2 = b.x * b.x + b.y * b.y + b.z * b.z;
        v * (q.w * q.w - b2) + b * (v.dot(&b) * lit::<T>(2)) + b.cross(&v) * (q.w * lit::<T>(2))
    }
}

impl<T: Scalar> Quat<T> {
    /// The quaternion with every component times `e`.
    pub open spec fn scaled_spec(self, e: T) -> Quat<T> {
        Quat {
            x: e.mul_spec(self.x),
            y: e.mul_spec(self.y),
            z: e.mul_spec(self.z),
            w: e.mul_spec(self.w),
        }
    }

    /// The squared length `x² + y² + z² + w²`, summed from the left. A
    /// quaternion stands for a rotation where it is `1`.
    pub open spec fn norm2_spec(self) -> T {
        self.x.mul_spec(self.x).add_spec(self.y.mul_spec(self.y)).add_spec(
            self.z.mul_spec(self.z),
        ).add_spec(self.w.mul_spec(self.w))
    }

    /// What `1 − 2·(p + q)` needs.
    pub open spec fn diag_req(p: T, q: T) -> bool {
        &&& p.add_req(q)
        &&& lit_spec::<T>(2).mul_req(p.add_spec(q))
        &&& lit_spec::<T>(1).sub_req(lit_spec::<T>(2).mul_spec(p.add_spec(q)))
    }

    /// `1 − 2·(p + q)`: an entry on the diagonal of the rotation matrix.
    pub open spec fn diag_spec(p: T, q: T) -> T {
        lit_spec::<T>(1).sub_spec(lit_spec::<T>(2).mul_spec(p.add_spec(q)))
    }

    /// What [`Self::to_mat3`] needs of the quaternion.
    pub open spec fn to_mat3_req(self) -> bool {
        let (x, y, z, w) = (self.x, self.y, self.z, self.w);
        let two = lit_spec::<T>(2);
        let (xy, xz, yz) = (x.mul_spec(y), x.mul_spec(z), y.mul_spec(z));
        let (wx, wy, wz) = (w.mul_spec(x), w.mul_spec(y), w.mul_spec(z));
        &&& x.mul_req(x)
        &&& y.mul_req(y)
        &&& z.mul_req(z)
        &&& x.mul_req(y)
        &&& x.mul_req(z)
        &&& y.mul_req(z)
        &&& w.mul_req(x)
        &&& w.mul_req(y)
        &&& w.mul_req(z)
        &&& Self::diag_req(y.mul_spec(y), z.mul_spec(z))
        &&& Self::diag_req(x.mul_spec(x), z.mul_spec(z))
        &&& Self::diag_req(x.mul_spec(x), y.mul_spec(y))
        &&& xy.sub_req(wz)
        &&& two.mul_req(xy.sub_spec(wz))
        &&& xz.add_req(wy)
        &&& two.mul_req(xz.add_spec(wy))
        &&& xy.add_req(wz)
        &&& two.mul_req(xy.add_spec(wz))
        &&& yz.sub_req(wx)
        &&& two.mul_req(yz.sub_spec(wx))
        &&& xz.sub_req(wy)
        &&& two.mul_req(xz.sub_spec(wy))
        &&& yz.add_req(wx)
        &&& two.mul_req(yz.add_spec(wx))
    }

    /// The rotation matrix of a unit quaternion, column after column:
    ///
    /// ```text
    /// 1 − 2(y² + z²)   2(xy − wz)       2(xz + wy)
    /// 2(xy + wz)       1 − 2(x² + z²)   2(yz − wx)
    /// 2(xz − wy)       2(yz + wx)       1 − 2(x² + y²)
    /// ```
    pub open spec fn to_mat3_spec(self) -> Mat3<T> {
        let (x, y, z, w) = (self.x, self.y, self.z, self.w);
        let two = lit_spec::<T>(2);
        let (x2, y2, z2) = (x.mul_spec(x), y.mul_spec(y), z.mul_spec(z));
        let (xy, xz, yz) = (x.mul_spec(y), x.mul_spec(z), y.mul_spec(z));
        let (wx, wy, wz) = (w.mul_spec(x), w.mul_spec(y), w.mul_spec(z));
        Mat3 {
            a: Vec3 {
                x: Self::diag_spec(y2, z2),
                y: two.mul_spec(xy.sub_spec(wz)),
                z: two.mul_spec(xz.add_spec(wy)),
            },
            b: Vec3 {
                x: two.mul_spec(xy.add_spec(wz)),
                y: Self::diag_spec(x2, z2),
                z: two.mul_spec(yz.sub_spec(wx)),
            },
            c: Vec3 {
                x: two.mul_spec(xz.sub_spec(wy)),
                y: two.mul_spec(yz.add_spec(wx)),
                z: Self::diag_spec(x2, y2),
            },
        }
    }

    /// The matrix of the rotation that the unit quaternion stands for.
    ///
    /// The quaternion is taken to have length one; with another length the
    /// result is no rotation.
    pub fn to_mat3(&self) -> (m: Mat3<T>)
        requires
            exact::<T>(),
            self.to_mat3_req(),
        ensures
            m == self.to_mat3_spec(),
    {
        let (x, y, z, w) = (self.x, self.y, self.z, self.w);
        let x2 = x * x;
        let y2 = y * y;
        let z2 = z * z;
        let xy = x * y;
        let xz = x * z;
        let yz = y * z;
        let wx = w * x;
        let wy = w * y;
        let wz = w * z;
        let one = lit::<T>(1);
        let two = lit::<T>(2);
        Mat3::new(
            one - two * (y2 + z2), two * (xy - wz), two * (xz + wy),
            two * (xy + wz), one - two * (x2 + z2), two * (yz - wx),
            two * (xz - wy), two * (yz + wx), one - two * (x2 + y2),
        )
    }

    /// The trace of `m`: its diagonal summed from the left.
    pub open spec fn trace_spec(m: Mat3<T>) -> T {
        m.a.x.add_spec(m.b.y).add_spec(m.c.z)
    }

    /// What `p − q − r + 1` needs.
    pub open spec fn excess_req(p: T, q: T, r: T) -> bool {
        &&& p.sub_req(q)
        &&& p.sub_spec(q).sub_req(r)
        &&& p.sub_spec(q).sub_spec(r).add_req(lit_spec::<T>(1))
    }

    /// `p − q − r + 1`: by how much one diagonal entry exceeds the other
    /// two, plus one.
    pub open spec fn excess_spec(p: T, q: T, r: T) -> T {
        p.sub_spec(q).sub_spec(r).add_spec(lit_spec::<T>(1))
    }

    /// Which component leads the extraction from `m`.
    pub open spec fn lead_spec(m: Mat3<T>) -> Lead {
        let (m00, m11, m22) = (m.a.x, m.b.y, m.c.z);
        if gt_spec(Self::trace_spec(m), lit_spec::<T>(0)) {
            Lead::W
        } else if gt_spec(m00, m11) && gt_spec(m00, m22) {
            Lead::X
        } else if gt_spec(m11, m22) {
            Lead::Y
        } else {
            Lead::Z
        }
    }

    /// What [`Self::radicand`] needs of `m`.
    pub open spec fn radicand_req(m: Mat3<T>) -> bool {
        let (m00, m11, m22) = (m.a.x, m.b.y, m.c.z);
        &&& m00.add_req(m11)
        &&& m00.add_spec(m11).add_req(m22)
        &&& match Self::lead_spec(m) {
            Lead::W => Self::trace_spec(m).add_req(lit_spec::<T>(1)),
            Lead::X => Self::excess_req(m00, m11, m22),
            Lead::Y => Self::excess_req(m11, m00, m22),
            Lead::Z => Self::excess_req(m22, m00, m11),
        }
    }

    /// The value whose square root is twice the leading component:
    /// `trace + 1` where the scalar part leads, and else the leading
    /// diagonal entry less the two others plus one.
    pub open spec fn radicand_spec(m: Mat3<T>) -> T {
        let (m00, m11, m22) = (m.a.x, m.b.y, m.c.z);
        match Self::lead_spec(m) {
            Lead::W => Self::trace_spec(m).add_spec(lit_spec::<T>(1)),
            Lead::X => Self::excess_spec(m00, m11, m22),
            Lead::Y => Self::excess_spec(m11, m00, m22),
            Lead::Z => Self::excess_spec(m22, m00, m11),
        }
    }

    /// First step of turning the rotation matrix `m` into a quaternion:
    /// picks the component to extract first and returns it with the value
    /// whose square root is to be taken.
    ///
    /// The largest of the four candidates is picked, so that the division
    /// in [`Self::from_mat3`] never goes by a value near zero.
    pub fn radicand(m: &Mat3<T>) -> (r: (Lead, T))
        requires
            exact::<T>(),
            Self::radicand_req(*m),
        ensures
            r.0 == Self::lead_spec(*m),
            r.1 == Self::radicand_spec(*m),
    {
        let m00 = m[0][0];
        let m11 = m[1][1];
        let m22 = m[2][2];
        let sum = m00 + m11 + m22;

        if sum.gt(&lit::<T>(0)) {
            (Lead::W, sum + lit::<T>(1))
        } else if m00.gt(&m11) && m00.gt(&m22) {
            (Lead::X, m00 - m11 - m22 + lit::<T>(1))
        } else if m11.gt(&m22) {
            (Lead::Y, m11 - m00 - m22 + lit::<T>(1))
        } else {
            (Lead::Z, m22 - m00 - m11 + lit::<T>(1))
        }
    }

    /// The three quotients of [`Self::from_mat3`], before their division:
    /// in the order of the components that do not lead.
    pub open spec fn numerators_spec(m: Mat3<T>, lead: Lead) -> (T, T, T) {
        match lead {
            Lead::W => (m.c.y.sub_spec(m.b.z), m.a.z.sub_spec(m.c.x), m.b.x.sub_spec(m.a.y)),
            Lead::X => (m.b.x.add_spec(m.a.y), m.a.z.add_spec(m.c.x), m.c.y.sub_spec(m.b.z)),
            Lead::Y => (m.b.x.add_spec(m.a.y), m.c.y.add_spec(m.b.z), m.a.z.sub_spec(m.c.x)),
            Lead::Z => (m.a.z.add_spec(m.c.x), m.c.y.add_spec(m.b.z), m.b.x.sub_spec(m.a.y)),
        }
    }

    /// What [`Self::from_mat3`] needs of its operands.
    pub open spec fn from_mat3_req(m: Mat3<T>, lead: Lead, root: T) -> bool {
        let half = lit_spec::<T>(1).div_spec(lit_spec::<T>(2));
        let quarter = lit_spec::<T>(1).div_spec(lit_spec::<T>(4));
        let h = root.mul_spec(half);
        let f = quarter.div_spec(h);
        let n = Self::numerators_spec(m, lead);
        &&& lit_spec::<T>(1).div_req(lit_spec::<T>(2))
        &&& lit_spec::<T>(1).div_req(lit_spec::<T>(4))
        &&& root.mul_req(half)
        &&& quarter.div_req(h)
        &&& match lead {
            Lead::W => m.c.y.sub_req(m.b.z) && m.a.z.sub_req(m.c.x) && m.b.x.sub_req(m.a.y),
            Lead::X => m.b.x.add_req(m.a.y) && m.a.z.add_req(m.c.x) && m.c.y.sub_req(m.b.z),
            Lead::Y => m.b.x.add_req(m.a.y) && m.c.y.add_req(m.b.z) && m.a.z.sub_req(m.c.x),
            Lead::Z => m.a.z.add_req(m.c.x) && m.c.y.add_req(m.b.z) && m.b.x.sub_req(m.a.y),
        }
        &&& n.0.mul_req(f)
        &&& n.1.mul_req(f)
        &&& n.2.mul_req(f)
    }

    /// With `h = root·½` the leading component and `f = ¼ / h`, the other
    /// three components are the numerators times `f`:
    ///
    /// ```text
    /// lead   x             y             z             w
    /// W      (m21−m12)·f   (m02−m20)·f   (m10−m01)·f   h
    /// X      h             (m10+m01)·f   (m02+m20)·f   (m21−m12)·f
    /// Y      (m10+m01)·f   h             (m21+m12)·f   (m02−m20)·f
    /// Z      (m02+m20)·f   (m21+m12)·f   h             (m10−m01)·f
    /// ```
    ///
    /// where `mIJ` is component `J` of column `I`.
    pub open spec fn from_mat3_spec(m: Mat3<T>, lead: Lead, root: T) -> Quat<T> {
        let half = lit_spec::<T>(1).div_spec(lit_spec::<T>(2));
        let quarter = lit_spec::<T>(1).div_spec(lit_spec::<T>(4));
        let h = root.mul_spec(half);
        let f = quarter.div_spec(h);
        let n = Self::numerators_spec(m, lead);
        let (p, q, r) = (n.0.mul_spec(f), n.1.mul_spec(f), n.2.mul_spec(f));
        match lead {
            Lead::W => Quat { x: p, y: q, z: r, w: h },
            Lead::X => Quat { x: h, y: p, z: q, w: r },
            Lead::Y => Quat { x: p, y: h, z: q, w: r },
            Lead::Z => Quat { x: p, y: q, z: h, w: r },
        }
    }

    /// Second step of turning the rotation matrix `m` into a quaternion:
    /// given the leading component `lead` and the square root `root` of
    /// the value that [`Self::radicand`] returned with it, assembles the
    /// quaternion.
    pub fn from_mat3(m: &Mat3<T>, lead: Lead, root: T) -> (q: Quat<T>)
        requires
            exact::<T>(),
            Self::from_mat3_req(*m, lead, root),
        ensures
            q == Self::from_mat3_spec(*m, lead, root),
    {
        let h = root * (lit::<T>(1) / lit::<T>(2));
        let f = lit::<T>(1) / lit::<T>(4) / h;
        match lead {
            Lead::W => {
                let x = (m[2][1] - m[1][2]) * f;
                let y = (m[0][2] - m[2][0]) * f;
                let z = (m[1][0] - m[0][1]) * f;
                Quat::new(x, y, z, h)
            },
            Lead::X => {
                let y = (m[1][0] + m[0][1]) * f;
                let z = (m[0][2] + m[2][0]) * f;
                let w = (m[2][1] - m[1][2]) * f;
                Quat::new(h, y, z, w)
            },
            Lead::Y => {
                let x = (m[1][0] + m[0][1]) * f;
                let z = (m[2][1] + m[1][2]) * f;
                let w = (m[0][2] - m[2][0]) * f;
                Quat::new(x, h, z, w)
            },
            Lead::Z => {
                let x = (m[0][2] + m[2][0]) * f;
                let y = (m[2][1] + m[1][2]) * f;
                let w = (m[1][0] - m[0][1]) * f;
                Quat::new(x, y, h, w)
            },
        }
    }
}

} // verus!
