//! 3×3 matrices.

use crate::scalar::exact;
use crate::scalar::lifts;
use crate::scalar::lit;
use crate::scalar::lit_spec;
use crate::scalar::minor_req;
use crate::scalar::minor_spec;
use crate::scalar::ne_spec;
use crate::scalar::Scalar;
use crate::scalar::MINUS_ONE;
use crate::scalar::MINUS_TWO;
use crate::structure::EuclideanSpace;
use crate::structure::Mat;
use crate::structure::SquareMat;
use crate::vec3::Vec3;
use std::ops::Add;
use std::ops::AddAssign;
use std::ops::Div;
use std::ops::DivAssign;
use std::ops::Index;
use std::ops::IndexMut;
use std::ops::Mul;
use std::ops::MulAssign;
use std::ops::Neg;
use std::ops::Sub;
use std::ops::SubAssign;
use vstd::pervasive::unreached;
use vstd::prelude::*;
use vstd::std_specs::convert::FromSpecImpl;
use vstd::std_specs::ops::AddSpec;
use vstd::std_specs::ops::DivSpec;
use vstd::std_specs::ops::MulSpec;
use vstd::std_specs::ops::NegSpec;
use vstd::std_specs::ops::SubSpec;

verus! {

/// A 3×3 matrix held as the three columns `a`, `b` and `c`.
#[derive(Debug)]
pub struct Mat3<T> {
    pub a: Vec3<T>,
    pub b: Vec3<T>,
    pub c: Vec3<T>,
}

impl<T: Copy> Clone for Mat3<T> {
    fn clone(&self) -> (r: Self)
        ensures
            r == *self,
    {
        *self
    }
}

impl<T: Copy> Copy for Mat3<T> {

}

impl<T> View for Mat3<T> {
    type V = Seq<Seq<T>>;

    /// The columns in index order, each as its components in index order:
    /// `self@[i][j]` is component `j` of column `i`.
    open spec fn view(&self) -> Seq<Seq<T>> {
        seq![self.a@, self.b@, self.c@]
    }
}

impl<T: Copy> Mat3<T> {
    /// Builds the matrix from its nine entries, one column after the other:
    /// `cIrJ` becomes component `J` of column `I`.
    pub fn new(
        c0r0: T,
        c0r1: T,
        c0r2: T,
        c1r0: T,
        c1r1: T,
        c1r2: T,
        c2r0: T,
        c2r1: T,
        c2r2: T,
    ) -> (m: Self)
        ensures
            m == (Mat3 {
                a: Vec3 { x: c0r0, y: c0r1, z: c0r2 },
                b: Vec3 { x: c1r0, y: c1r1, z: c1r2 },
                c: Vec3 { x: c2r0, y: c2r1, z: c2r2 },
            }),
    {
        Self::from_columns(
            Vec3::from([c0r0, c0r1, c0r2]),
            Vec3::from([c1r0, c1r1, c1r2]),
            Vec3::from([c2r0, c2r1, c2r2]),
        )
    }

    pub fn from_columns(a: Vec3<T>, b: Vec3<T>, c: Vec3<T>) -> (m: Self)
        ensures
            m == (Mat3 { a, b, c }),
    {
        Self { a, b, c }
    }
}

impl<T: Copy> vstd::std_specs::core::IndexSpecImpl<usize> for Mat3<T> {
    /// Only the indices below 3 name a column.
    open spec fn index_req(&self, index: &usize) -> bool {
        *index < 3
    }
}

impl<T: Copy> Index<usize> for Mat3<T> {
    type Output = Vec3<T>;

    fn index(&self, i: usize) -> (r: &Vec3<T>)
        ensures
            r@ == self@[i as int],
    {
        match i {
            0 => &self.a,
            1 => &self.b,
            2 => &self.c,
            _ => unreached(),
        }
    }
}

impl<T: Copy> IndexMut<usize> for Mat3<T> {
    fn index_mut(&mut self, i: usize) -> (r: &mut Vec3<T>)
        requires
            i < 3,
        ensures
            r@ == old(self)@[i as int],
            final(self)@ == old(self)@.update(i as int, final(r)@),
    {
        match i {
            0 => &mut self.a,
            1 => &mut self.b,
            2 => &mut self.c,
            _ => unreached(),
        }
    }
}

impl<T: Copy> FromSpecImpl<[[T; 3]; 3]> for Mat3<T> {
    open spec fn obeys_from_spec() -> bool {
        true
    }

    open spec fn from_spec(a: [[T; 3]; 3]) -> Self {
        Mat3 {
            a: Vec3 { x: a[0][0], y: a[0][1], z: a[0][2] },
            b: Vec3 { x: a[1][0], y: a[1][1], z: a[1][2] },
            c: Vec3 { x: a[2][0], y: a[2][1], z: a[2][2] },
        }
    }
}

impl<T: Copy> From<[[T; 3]; 3]> for Mat3<T> {
    fn from(a: [[T; 3]; 3]) -> (m: Self)
        ensures
            forall|i: int, j: int| 0 <= i < 3 && 0 <= j < 3 ==> m@[i][j] == a[i][j],
    {
        Mat3::from_columns(Vec3::from(a[0]), Vec3::from(a[1]), Vec3::from(a[2]))
    }
}

impl<'a, T: Copy> FromSpecImpl<&'a [[T; 3]; 3]> for Mat3<T> {
    open spec fn obeys_from_spec() -> bool {
        true
    }

    open spec fn from_spec(a: &'a [[T; 3]; 3]) -> Self {
        Mat3 {
            a: Vec3 { x: a[0][0], y: a[0][1], z: a[0][2] },
            b: Vec3 { x: a[1][0], y: a[1][1], z: a[1][2] },
            c: Vec3 { x: a[2][0], y: a[2][1], z: a[2][2] },
        }
    }
}

impl<'a, T: Copy> From<&'a [[T; 3]; 3]> for Mat3<T> {
    fn from(a: &'a [[T; 3]; 3]) -> (m: Self)
        ensures
            forall|i: int, j: int| 0 <= i < 3 && 0 <= j < 3 ==> m@[i][j] == a[i][j],
    {
        Mat3::from_columns(Vec3::from(a[0]), Vec3::from(a[1]), Vec3::from(a[2]))
    }
}

impl<'a, T: Copy> FromSpecImpl<&'a mut [[T; 3]; 3]> for Mat3<T> {
    open spec fn obeys_from_spec() -> bool {
        true
    }

    open spec fn from_spec(a: &'a mut [[T; 3]; 3]) -> Self {
        Mat3 {
            a: Vec3 { x: a[0][0], y: a[0][1], z: a[0][2] },
            b: Vec3 { x: a[1][0], y: a[1][1], z: a[1][2] },
            c: Vec3 { x: a[2][0], y: a[2][1], z: a[2][2] },
        }
    }
}

impl<'a, T: Copy> From<&'a mut [[T; 3]; 3]> for Mat3<T> {
    fn from(a: &'a mut [[T; 3]; 3]) -> (m: Self)
        ensures
            forall|i: int, j: int| 0 <= i < 3 && 0 <= j < 3 ==> m@[i][j] == old(a)[i][j],
            *final(a) == *old(a),
    {
        Mat3::from_columns(Vec3::from(a[0]), Vec3::from(a[1]), Vec3::from(a[2]))
    }
}

impl<T: Copy> FromSpecImpl<Mat3<T>> for [[T; 3]; 3] {
    open spec fn obeys_from_spec() -> bool {
        true
    }

    open spec fn from_spec(m: Mat3<T>) -> Self {
        [
            [m.a.x, m.a.y, m.a.z],
            [m.b.x, m.b.y, m.b.z],
            [m.c.x, m.c.y, m.c.z],
        ]
    }
}

impl<T: Copy> From<Mat3<T>> for [[T; 3]; 3] {
    fn from(m: Mat3<T>) -> (a: Self)
        ensures
            forall|i: int, j: int| 0 <= i < 3 && 0 <= j < 3 ==> a[i][j] == m@[i][j],
    {
        [<[T; 3]>::from(m.a), <[T; 3]>::from(m.b), <[T; 3]>::from(m.c)]
    }
}

impl<'a, T: Copy> FromSpecImpl<&'a Mat3<T>> for [[T; 3]; 3] {
    open spec fn obeys_from_spec() -> bool {
        true
    }

    open spec fn from_spec(m: &'a Mat3<T>) -> Self {
        [
            [m.a.x, m.a.y, m.a.z],
            [m.b.x, m.b.y, m.b.z],
            [m.c.x, m.c.y, m.c.z],
        ]
    }
}

impl<'a, T: Copy> From<&'a Mat3<T>> for [[T; 3]; 3] {
    fn from(m: &'a Mat3<T>) -> (a: Self)
        ensures
            forall|i: int, j: int| 0 <= i < 3 && 0 <= j < 3 ==> a[i][j] == m@[i][j],
    {
        [<[T; 3]>::from(m.a), <[T; 3]>::from(m.b), <[T; 3]>::from(m.c)]
    }
}

impl<'a, T: Copy> FromSpecImpl<&'a mut Mat3<T>> for [[T; 3]; 3] {
    open spec fn obeys_from_spec() -> bool {
        true
    }

    open spec fn from_spec(m: &'a mut Mat3<T>) -> Self {
        [
            [m.a.x, m.a.y, m.a.z],
            [m.b.x, m.b.y, m.b.z],
            [m.c.x, m.c.y, m.c.z],
        ]
    }
}

impl<'a, T: Copy> From<&'a mut Mat3<T>> for [[T; 3]; 3] {
    fn from(m: &'a mut Mat3<T>) -> (a: Self)
        ensures
            forall|i: int, j: int| 0 <= i < 3 && 0 <= j < 3 ==> a[i][j] == old(m)@[i][j],
            *final(m) == *old(m),
    {
        [<[T; 3]>::from(m.a), <[T; 3]>::from(m.b), <[T; 3]>::from(m.c)]
    }
}

impl<T: Scalar> Mat3<T> {
    /// The rotation about the x axis by the angle whose sine is `s` and
    /// whose cosine is `c`.
    pub open spec fn angle_x_spec(s: T, c: T) -> Self {
        let o = lit_spec::<T>(0);
        let i = lit_spec::<T>(1);
        Mat3 {
            a: Vec3 { x: i, y: o, z: o },
            b: Vec3 { x: o, y: c, z: s.neg_spec() },
            c: Vec3 { x: o, y: s, z: c },
        }
    }

    /// The rotation about the x axis by an angle, given as its sine `s` and
    /// its cosine `c`.
    pub fn from_angle_x(s: T, c: T) -> (m: Self)
        requires
            exact::<T>(),
            s.neg_req(),
        ensures
            m == Self::angle_x_spec(s, c),
    {
        Self::new(
            lit(1), lit(0), lit(0),
            lit(0), c, s.neg(),
            lit(0), s, c,
        )
    }

    /// The rotation about the y axis by the angle whose sine is `s` and
    /// whose cosine is `c`.
    pub open spec fn angle_y_spec(s: T, c: T) -> Self {
        let o = lit_spec::<T>(0);
        let i = lit_spec::<T>(1);
        Mat3 {
            a: Vec3 { x: c, y: o, z: s },
            b: Vec3 { x: o, y: i, z: o },
            c: Vec3 { x: s.neg_spec(), y: o, z: c },
        }
    }

    /// The rotation about the y axis by an angle, given as its sine `s` and
    /// its cosine `c`.
    pub fn from_angle_y(s: T, c: T) -> (m: Self)
        requires
            exact::<T>(),
            s.neg_req(),
        ensures
            m == Self::angle_y_spec(s, c),
    {
        Self::new(
            c, lit(0), s,
            lit(0), lit(1), lit(0),
            s.neg(), lit(0), c,
        )
    }

    /// The rotation about the z axis by the angle whose sine is `s` and
    /// whose cosine is `c`.
    pub open spec fn angle_z_spec(s: T, c: T) -> Self {
        let o = lit_spec::<T>(0);
        let i = lit_spec::<T>(1);
        Mat3 {
            a: Vec3 { x: c, y: s.neg_spec(), z: o },
            b: Vec3 { x: s, y: c, z: o },
            c: Vec3 { x: o, y: o, z: i },
        }
    }

    /// The rotation about the z axis by an angle, given as its sine `s` and
    /// its cosine `c`.
    pub fn from_angle_z(s: T, c: T) -> (m: Self)
        requires
            exact::<T>(),
            s.neg_req(),
        ensures
            m == Self::angle_z_spec(s, c),
    {
        Self::new(
            c, s.neg(), lit(0),
            s, c, lit(0),
            lit(0), lit(0), lit(1),
        )
    }

    /// What [`Self::from_axis_angle`] needs of its operands.
    pub open spec fn axis_angle_req(a: Vec3<T>, s: T, c: T) -> bool {
        let k = lit_spec::<T>(1).sub_spec(c);
        let d = a.mul_spec(k);
        let dxy = d.x.mul_spec(a.y);
        let dxz = d.x.mul_spec(a.z);
        let dyz = d.y.mul_spec(a.z);
        let sx = s.mul_spec(a.x);
        let sy = s.mul_spec(a.y);
        let sz = s.mul_spec(a.z);
        &&& lit_spec::<T>(1).sub_req(c)
        &&& a.mul_req(k)
        &&& d.x.mul_req(a.y)
        &&& d.x.mul_req(a.z)
        &&& d.y.mul_req(a.z)
        &&& s.mul_req(a.x)
        &&& s.mul_req(a.y)
        &&& s.mul_req(a.z)
        &&& d.x.mul_req(a.x)
        &&& d.y.mul_req(a.y)
        &&& d.z.mul_req(a.z)
        &&& c.add_req(d.x.mul_spec(a.x))
        &&& c.add_req(d.y.mul_spec(a.y))
        &&& c.add_req(d.z.mul_spec(a.z))
        &&& dxy.sub_req(sz)
        &&& dxy.add_req(sz)
        &&& dxz.add_req(sy)
        &&& dxz.sub_req(sy)
        &&& dyz.sub_req(sx)
        &&& dyz.add_req(sx)
    }

    /// Rodrigues' rotation about the unit axis `a`, written out entry by
    /// entry: with `d = a·(1 − c)`,
    ///
    /// ```text
    /// c + d.x·a.x      d.x·a.y − s·a.z   d.x·a.z + s·a.y
    /// d.x·a.y + s·a.z  c + d.y·a.y       d.y·a.z − s·a.x
    /// d.x·a.z − s·a.y  d.y·a.z + s·a.x   c + d.z·a.z
    /// ```
    ///
    /// each line being one column of the result.
    pub open spec fn axis_angle_spec(a: Vec3<T>, s: T, c: T) -> Self {
        let k = lit_spec::<T>(1).sub_spec(c);
        let d = a.mul_spec(k);
        let dxy = d.x.mul_spec(a.y);
        let dxz = d.x.mul_spec(a.z);
        let dyz = d.y.mul_spec(a.z);
        let sx = s.mul_spec(a.x);
        let sy = s.mul_spec(a.y);
        let sz = s.mul_spec(a.z);
        Mat3 {
            a: Vec3 {
                x: c.add_spec(d.x.mul_spec(a.x)),
                y: dxy.sub_spec(sz),
                z: dxz.add_spec(sy),
            },
            b: Vec3 {
                x: dxy.add_spec(sz),
                y: c.add_spec(d.y.mul_spec(a.y)),
                z: dyz.sub_spec(sx),
            },
            c: Vec3 {
                x: dxz.sub_spec(sy),
                y: dyz.add_spec(sx),
                z: c.add_spec(d.z.mul_spec(a.z)),
            },
        }
    }

    /// The rotation about the axis `a` by an angle, given as its sine `s`
    /// and its cosine `c`.
    ///
    /// `a` is taken to have length one. It is neither checked nor
    /// normalized: with another length the result is no rotation.
    pub fn from_axis_angle(a: Vec3<T>, s: T, c: T) -> (m: Self)
        requires
            exact::<T>(),
            Self::axis_angle_req(a, s, c),
        ensures
            m == Self::axis_angle_spec(a, s, c),
    {
        let d = a * (lit::<T>(1) - c);
        let dxy = d.x * a.y;
        let dxz = d.x * a.z;
        let dyz = d.y * a.z;
        Mat3::from(
            [
                [c + d.x * a.x, dxy - s * a.z, dxz + s * a.y],
                [dxy + s * a.z, c + d.y * a.y, dyz - s * a.x],
                [dxz - s * a.y, dyz + s * a.x, c + d.z * a.z],
            ],
        )
    }

    /// What the three constructions from a scaled outer product need:
    /// the scaling `d = a·k`, its six products with the components of `a`,
    /// and on the diagonal what `on_diagonal` lists.
    pub open spec fn outer_req(a: Vec3<T>, k: T) -> bool {
        let d = a.mul_spec(k);
        &&& a.mul_req(k)
        &&& d.x.mul_req(a.x)
        &&& d.x.mul_req(a.y)
        &&& d.x.mul_req(a.z)
        &&& d.y.mul_req(a.y)
        &&& d.y.mul_req(a.z)
        &&& d.z.mul_req(a.z)
    }

    /// What [`Self::make_reflection`] needs of its operand.
    pub open spec fn reflection_req(a: Vec3<T>) -> bool {
        let i = lit_spec::<T>(1);
        let d = a.mul_spec(lit_spec::<T>(MINUS_TWO));
        &&& Self::outer_req(a, lit_spec::<T>(MINUS_TWO))
        &&& i.add_req(d.x.mul_spec(a.x))
        &&& i.add_req(d.y.mul_spec(a.y))
        &&& i.add_req(d.z.mul_spec(a.z))
    }

    /// The Householder matrix `I − 2·a·aᵗ`: with `d = a·(−2)`, the entry at
    /// `(i, j)` is `d[i]·a[j]` for `i < j`, the same across the diagonal,
    /// and `1 + d[i]·a[i]` on it.
    pub open spec fn reflection_spec(a: Vec3<T>) -> Self {
        let i = lit_spec::<T>(1);
        let d = a.mul_spec(lit_spec::<T>(MINUS_TWO));
        let dxy = d.x.mul_spec(a.y);
        let dxz = d.x.mul_spec(a.z);
        let dyz = d.y.mul_spec(a.z);
        Mat3 {
            a: Vec3 { x: i.add_spec(d.x.mul_spec(a.x)), y: dxy, z: dxz },
            b: Vec3 { x: dxy, y: i.add_spec(d.y.mul_spec(a.y)), z: dyz },
            c: Vec3 { x: dxz, y: dyz, z: i.add_spec(d.z.mul_spec(a.z)) },
        }
    }

    /// The reflection across the plane through the origin with unit normal
    /// `a`.
    ///
    /// `a` is taken to have length one and is not checked.
    pub fn make_reflection(a: Vec3<T>) -> (m: Self)
        requires
            exact::<T>(),
            Self::reflection_req(a),
        ensures
            m == Self::reflection_spec(a),
    {
        let d = a * lit::<T>(MINUS_TWO);
        let dxy = d.x * a.y;
        let dxz = d.x * a.z;
        let dyz = d.y * a.z;
        Mat3::from(
            [
                [lit::<T>(1) + d.x * a.x, dxy, dxz],
                [dxy, lit::<T>(1) + d.y * a.y, dyz],
                [dxz, dyz, lit::<T>(1) + d.z * a.z],
            ],
        )
    }

    /// What [`Self::make_involution`] needs of its operand.
    pub open spec fn involution_req(a: Vec3<T>) -> bool {
        let i = lit_spec::<T>(1);
        let d = a.mul_spec(lit_spec::<T>(2));
        &&& Self::outer_req(a, lit_spec::<T>(2))
        &&& d.x.mul_spec(a.x).sub_req(i)
        &&& d.y.mul_spec(a.y).sub_req(i)
        &&& d.z.mul_spec(a.z).sub_req(i)
    }

    /// The matrix `2·a·aᵗ − I`: with `d = a·2`, the entry at `(i, j)` is
    /// `d[i]·a[j]` for `i < j`, the same across the diagonal, and
    /// `d[i]·a[i] − 1` on it.
    pub open spec fn involution_spec(a: Vec3<T>) -> Self {
        let i = lit_spec::<T>(1);
        let d = a.mul_spec(lit_spec::<T>(2));
        let dxy = d.x.mul_spec(a.y);
        let dxz = d.x.mul_spec(a.z);
        let dyz = d.y.mul_spec(a.z);
        Mat3 {
            a: Vec3 { x: d.x.mul_spec(a.x).sub_spec(i), y: dxy, z: dxz },
            b: Vec3 { x: dxy, y: d.y.mul_spec(a.y).sub_spec(i), z: dyz },
            c: Vec3 { x: dxz, y: dyz, z: d.z.mul_spec(a.z).sub_spec(i) },
        }
    }

    /// The half turn about the unit axis `a`: the negation of the
    /// reflection across the plane with normal `a`.
    ///
    /// `a` is taken to have length one and is not checked.
    pub fn make_involution(a: Vec3<T>) -> (m: Self)
        requires
            exact::<T>(),
            Self::involution_req(a),
        ensures
            m == Self::involution_spec(a),
    {
        let d = a * lit::<T>(2);
        let dxy = d.x * a.y;
        let dxz = d.x * a.z;
        let dyz = d.y * a.z;
        Mat3::from(
            [
                [d.x * a.x - lit::<T>(1), dxy, dxz],
                [dxy, d.y * a.y - lit::<T>(1), dyz],
                [dxz, dyz, d.z * a.z - lit::<T>(1)],
            ],
        )
    }

    /// The matrix that scales each axis by the matching component of `s`:
    /// `s` along the diagonal and `0` everywhere else.
    pub fn make_scale(s: Vec3<T>) -> (m: Self)
        ensures
            lifts::<T>() ==> m == Self::diagonal(s),
    {
        Self::from_diagonal(s)
    }

    /// What [`Self::make_scale_along`] needs of its operands.
    pub open spec fn scale_along_req(s: T, a: Vec3<T>) -> bool {
        let i = lit_spec::<T>(1);
        let k = s.sub_spec(i);
        let d = a.mul_spec(k);
        &&& s.sub_req(i)
        &&& Self::outer_req(a, k)
        &&& d.x.mul_spec(a.x).add_req(i)
        &&& d.y.mul_spec(a.y).add_req(i)
        &&& d.z.mul_spec(a.z).add_req(i)
    }

    /// The matrix `I + (s − 1)·a·aᵗ`: with `d = a·(s − 1)`, the entry at
    /// `(i, j)` is `d[i]·a[j]` for `i < j`, the same across the diagonal,
    /// and `d[i]·a[i] + 1` on it.
    pub open spec fn scale_along_spec(s: T, a: Vec3<T>) -> Self {
        let i = lit_spec::<T>(1);
        let d = a.mul_spec(s.sub_spec(i));
        let dxy = d.x.mul_spec(a.y);
        let dxz = d.x.mul_spec(a.z);
        let dyz = d.y.mul_spec(a.z);
        Mat3 {
            a: Vec3 { x: d.x.mul_spec(a.x).add_spec(i), y: dxy, z: dxz },
            b: Vec3 { x: dxy, y: d.y.mul_spec(a.y).add_spec(i), z: dyz },
            c: Vec3 { x: dxz, y: dyz, z: d.z.mul_spec(a.z).add_spec(i) },
        }
    }

    /// The scaling by the factor `s` along the unit axis `a`, which leaves
    /// what is perpendicular to `a` as it is.
    ///
    /// `a` is taken to have length one and is not checked.
    pub fn make_scale_along(s: T, a: Vec3<T>) -> (m: Self)
        requires
            exact::<T>(),
            Self::scale_along_req(s, a),
        ensures
            m == Self::scale_along_spec(s, a),
    {
        let d = a * (s - lit::<T>(1));
        let dxy = d.x * a.y;
        let dxz = d.x * a.z;
        let dyz = d.y * a.z;
        Mat3::from(
            [
                [d.x * a.x + lit::<T>(1), dxy, dxz],
                [dxy, d.y * a.y + lit::<T>(1), dyz],
                [dxz, dyz, d.z * a.z + lit::<T>(1)],
            ],
        )
    }
}

impl<T: Scalar> Mat3<T> {
    /// What the determinant needs: three 2×2 minors, their products with
    /// the first components of the columns, and the sum of those.
    pub open spec fn det_req(self) -> bool {
        let m = self;
        let p = minor_spec(m.b.y, m.c.z, m.c.y, m.b.z);
        let q = minor_spec(m.c.y, m.a.z, m.a.y, m.c.z);
        let r = minor_spec(m.a.y, m.b.z, m.b.y, m.a.z);
        &&& minor_req(m.b.y, m.c.z, m.c.y, m.b.z)
        &&& minor_req(m.c.y, m.a.z, m.a.y, m.c.z)
        &&& minor_req(m.a.y, m.b.z, m.b.y, m.a.z)
        &&& m.a.x.mul_req(p)
        &&& m.b.x.mul_req(q)
        &&& m.c.x.mul_req(r)
        &&& m.a.x.mul_spec(p).add_req(m.b.x.mul_spec(q))
        &&& m.a.x.mul_spec(p).add_spec(m.b.x.mul_spec(q)).add_req(m.c.x.mul_spec(r))
    }

    /// The cofactor expansion along the first components of the columns:
    /// `a.x·(b.y·c.z − c.y·b.z) + b.x·(c.y·a.z − a.y·c.z)
    /// + c.x·(a.y·b.z − b.y·a.z)`, summed from the left.
    pub open spec fn det_spec(self) -> T {
        let m = self;
        let p = minor_spec(m.b.y, m.c.z, m.c.y, m.b.z);
        let q = minor_spec(m.c.y, m.a.z, m.a.y, m.c.z);
        let r = minor_spec(m.a.y, m.b.z, m.b.y, m.a.z);
        m.a.x.mul_spec(p).add_spec(m.b.x.mul_spec(q)).add_spec(m.c.x.mul_spec(r))
    }

    /// The determinant. It is what `SquareMat::determinant` returns.
    pub fn det(&self) -> (d: T)
        requires
            exact::<T>(),
            self.det_req(),
        ensures
            d == self.det_spec(),
    {
        let m = self;
        m[0][0] * (m[1][1] * m[2][2] - m[2][1] * m[1][2])
            + m[1][0] * (m[2][1] * m[0][2] - m[0][1] * m[2][2])
            + m[2][0] * (m[0][1] * m[1][2] - m[1][1] * m[0][2])
    }
}

impl<T: Scalar> Mat for Mat3<T> {
    type Scalar = T;

    type Row = Vec3<T>;

    type Column = Vec3<T>;

    type Transpose = Mat3<T>;

    open spec fn zero_spec() -> Mat3<T> {
        Mat3 { a: Vec3::zero_spec(), b: Vec3::zero_spec(), c: Vec3::zero_spec() }
    }

    fn zero() -> (m: Mat3<T>) {
        Mat3 { a: Vec3::zero(), b: Vec3::zero(), c: Vec3::zero() }
    }

    open spec fn transposed(&self) -> Mat3<T> {
        Mat3 {
            a: Vec3 { x: self.a.x, y: self.b.x, z: self.c.x },
            b: Vec3 { x: self.a.y, y: self.b.y, z: self.c.y },
            c: Vec3 { x: self.a.z, y: self.b.z, z: self.c.z },
        }
    }

    fn transpose(&self) -> (t: Mat3<T>)
        ensures
            forall|i: int, j: int| 0 <= i < 3 && 0 <= j < 3 ==> t@[i][j] == self@[j][i],
    {
        let m = self;
        Self::new(
            m[0][0], m[1][0], m[2][0],
            m[0][1], m[1][1], m[2][1],
            m[0][2], m[1][2], m[2][2],
        )
    }
}

impl<T: Scalar> SquareMat for Mat3<T> {
    type RowColumn = Vec3<T>;

    open spec fn identity_spec() -> Mat3<T> {
        Mat3 { a: Vec3::unit_spec(0), b: Vec3::unit_spec(1), c: Vec3::unit_spec(2) }
    }

    fn identity() -> (m: Mat3<T>) {
        Mat3 { a: Vec3::unit_x(), b: Vec3::unit_y(), c: Vec3::unit_z() }
    }

    open spec fn diagonal(d: Vec3<T>) -> Mat3<T> {
        let o = lit_spec::<T>(0);
        Mat3 {
            a: Vec3 { x: d.x, y: o, z: o },
            b: Vec3 { x: o, y: d.y, z: o },
            c: Vec3 { x: o, y: o, z: d.z },
        }
    }

    fn from_diagonal(d: Vec3<T>) -> (m: Mat3<T>)
        ensures
            forall|i: int| 0 <= i < 3 ==> m@[i][i] == d@[i],
    {
        Self::new(
            d.x, lit(0), lit(0),
            lit(0), d.y, lit(0),
            lit(0), lit(0), d.z,
        )
    }

    open spec fn determinant_req(&self) -> bool {
        self.det_req()
    }

    open spec fn determinant_spec(&self) -> T {
        self.det_spec()
    }

    fn determinant(&self) -> (d: T) {
        self.det()
    }

    open spec fn invert_req(&self) -> bool {
        let r0 = self.b.cross_spec(self.c);
        let r1 = self.c.cross_spec(self.a);
        let r2 = self.a.cross_spec(self.b);
        let det = r2.dot_spec(&self.c);
        let inv_det = lit_spec::<T>(1).div_spec(det);
        &&& self.b.cross_req(self.c)
        &&& self.c.cross_req(self.a)
        &&& self.a.cross_req(self.b)
        &&& r2.dot_req(&self.c)
        &&& ne_spec(det, lit_spec::<T>(0)) ==> {
            &&& lit_spec::<T>(1).div_req(det)
            &&& r0.mul_req(inv_det)
            &&& r1.mul_req(inv_det)
            &&& r2.mul_req(inv_det)
        }
    }

    /// With the columns `a`, `b`, `c` and `det = (a × b) · c`: nothing
    /// where `det` equals `0`, else the matrix whose columns are `b × c`,
    /// `c × a` and `a × b`, each times `1 / det`.
    open spec fn invert_spec(&self) -> Option<Mat3<T>> {
        let r0 = self.b.cross_spec(self.c);
        let r1 = self.c.cross_spec(self.a);
        let r2 = self.a.cross_spec(self.b);
        let det = r2.dot_spec(&self.c);
        let inv_det = lit_spec::<T>(1).div_spec(det);
        if ne_spec(det, lit_spec::<T>(0)) {
            Some(Mat3 { a: r0.mul_spec(inv_det), b: r1.mul_spec(inv_det), c: r2.mul_spec(inv_det) })
        } else {
            None
        }
    }

    fn invert(&self) -> (r: Option<Mat3<T>>) {
        let r0 = self.b.cross(&self.c);
        let r1 = self.c.cross(&self.a);
        let r2 = self.a.cross(&self.b);

        let det = r2.dot(&self.c);

        if det.ne(&lit::<T>(0)) {
            let inv_det = lit::<T>(1) / r2.dot(&self.c);
            Some(Self::from_columns(r0 * inv_det, r1 * inv_det, r2 * inv_det))
        } else {
            None
        }
    }

    proof fn lemma_transpose_involution(&self) {
    }
}

impl<T: Scalar> Mat3<T> {
    /// What `0 + p·u + q·v + r·w` needs: the three products and their
    /// summation onto `0`.
    pub open spec fn sum_req(p: T, u: T, q: T, v: T, r: T, w: T) -> bool {
        let o = lit_spec::<T>(0);
        &&& p.mul_req(u)
        &&& q.mul_req(v)
        &&& r.mul_req(w)
        &&& o.add_req(p.mul_spec(u))
        &&& o.add_spec(p.mul_spec(u)).add_req(q.mul_spec(v))
        &&& o.add_spec(p.mul_spec(u)).add_spec(q.mul_spec(v)).add_req(r.mul_spec(w))
    }

    /// `0 + p·u + q·v + r·w`, summed from the left.
    pub open spec fn sum_spec(p: T, u: T, q: T, v: T, r: T, w: T) -> T {
        lit_spec::<T>(0).add_spec(p.mul_spec(u)).add_spec(q.mul_spec(v)).add_spec(r.mul_spec(w))
    }

    /// What one column of a product needs: each of its three sums.
    pub open spec fn product_column_req(self, k: Vec3<T>) -> bool {
        &&& Self::sum_req(self.a.x, k.x, self.b.x, k.y, self.c.x, k.z)
        &&& Self::sum_req(self.a.y, k.x, self.b.y, k.y, self.c.y, k.z)
        &&& Self::sum_req(self.a.z, k.x, self.b.z, k.y, self.c.z, k.z)
    }

    /// The column of a product that the column `k` of the right factor
    /// gives: the columns of `self` combined with the components of `k`,
    /// `a·k.x + b·k.y + c·k.z`, each component summed from the left onto
    /// `0`.
    pub open spec fn product_column_spec(self, k: Vec3<T>) -> Vec3<T> {
        Vec3 {
            x: Self::sum_spec(self.a.x, k.x, self.b.x, k.y, self.c.x, k.z),
            y: Self::sum_spec(self.a.y, k.x, self.b.y, k.y, self.c.y, k.z),
            z: Self::sum_spec(self.a.z, k.x, self.b.z, k.y, self.c.z, k.z),
        }
    }

    fn product_column(&self, k: &Vec3<T>) -> (r: Vec3<T>)
        requires
            exact::<T>(),
            self.product_column_req(*k),
        ensures
            r == self.product_column_spec(*k),
    {
        Vec3::new(
            lit::<T>(0) + self.a.x * k.x + self.b.x * k.y + self.c.x * k.z,
            lit::<T>(0) + self.a.y * k.x + self.b.y * k.y + self.c.y * k.z,
            lit::<T>(0) + self.a.z * k.x + self.b.z * k.y + self.c.z * k.z,
        )
    }
}

impl<T: Scalar> vstd::std_specs::ops::MulSpecImpl<Mat3<T>> for Mat3<T> {
    open spec fn obeys_mul_spec() -> bool {
        true
    }

    /// Each entry is a sum of products, so the scalar operators must be
    /// specified for the partial sums to be known.
    open spec fn mul_req(self, rhs: Mat3<T>) -> bool {
        &&& exact::<T>()
        &&& self.product_column_req(rhs.a)
        &&& self.product_column_req(rhs.b)
        &&& self.product_column_req(rhs.c)
    }

    /// The matrix whose column `i` is `self.product_column_spec` of column
    /// `i` of `rhs`: component `j` of it is
    /// `0 + self[0][j]·rhs[i][0] + self[1][j]·rhs[i][1]
    /// + self[2][j]·rhs[i][2]`.
    open spec fn mul_spec(self, rhs: Mat3<T>) -> Mat3<T> {
        Mat3 {
            a: self.product_column_spec(rhs.a),
            b: self.product_column_spec(rhs.b),
            c: self.product_column_spec(rhs.c),
        }
    }
}

impl<T: Scalar> Mul<Mat3<T>> for Mat3<T> {
    type Output = Mat3<T>;

    /// The matrix product.
    fn mul(self, rhs: Mat3<T>) -> (r: Mat3<T>) {
        Mat3::from_columns(
            self.product_column(&rhs.a),
            self.product_column(&rhs.b),
            self.product_column(&rhs.c),
        )
    }
}

impl<T: Scalar> MulAssign<Mat3<T>> for Mat3<T> {
    fn mul_assign(&mut self, rhs: Mat3<T>)
        requires
            old(self).mul_req(rhs),
        ensures
            *final(self) == old(self).mul_spec(rhs),
    {
        *self = *self * rhs;
    }
}

impl<T: Scalar> vstd::std_specs::ops::MulSpecImpl<Vec3<T>> for Mat3<T> {
    open spec fn obeys_mul_spec() -> bool {
        true
    }

    open spec fn mul_req(self, rhs: Vec3<T>) -> bool {
        &&& exact::<T>()
        &&& rhs.dot_req(&self.a)
        &&& rhs.dot_req(&self.b)
        &&& rhs.dot_req(&self.c)
    }

    /// The vector of the dot products of `rhs` with each column in turn.
    open spec fn mul_spec(self, rhs: Vec3<T>) -> Vec3<T> {
        Vec3 { x: rhs.dot_spec(&self.a), y: rhs.dot_spec(&self.b), z: rhs.dot_spec(&self.c) }
    }
}

impl<T: Scalar> Mul<Vec3<T>> for Mat3<T> {
    type Output = Vec3<T>;

    /// The matrix applied to `rhs`: component `i` of the result is the dot
    /// product of `rhs` with column `i`.
    fn mul(self, rhs: Vec3<T>) -> (r: Vec3<T>) {
        Vec3::new(rhs.dot(&self.a), rhs.dot(&self.b), rhs.dot(&self.c))
    }
}

impl<T: Scalar> vstd::std_specs::ops::AddSpecImpl for Mat3<T> {
    open spec fn obeys_add_spec() -> bool {
        T::obeys_add_spec()
    }

    open spec fn add_req(self, rhs: Mat3<T>) -> bool {
        &&& AddSpec::add_req(self.a, rhs.a)
        &&& AddSpec::add_req(self.b, rhs.b)
        &&& AddSpec::add_req(self.c, rhs.c)
    }

    open spec fn add_spec(self, rhs: Mat3<T>) -> Mat3<T> {
        Mat3 {
            a: AddSpec::add_spec(self.a, rhs.a),
            b: AddSpec::add_spec(self.b, rhs.b),
            c: AddSpec::add_spec(self.c, rhs.c),
        }
    }
}

impl<T: Scalar> Add for Mat3<T> {
    type Output = Mat3<T>;

    /// The sum, column by column.
    fn add(self, rhs: Mat3<T>) -> (r: Mat3<T>) {
        Mat3 { a: self.a + rhs.a, b: self.b + rhs.b, c: self.c + rhs.c }
    }
}

impl<T: Scalar> AddAssign for Mat3<T> {
    fn add_assign(&mut self, rhs: Mat3<T>)
        requires
            old(self).add_req(rhs),
        ensures
            T::obeys_add_spec() ==> *final(self) == old(self).add_spec(rhs),
    {
        *self = *self + rhs;
    }
}

impl<T: Scalar> vstd::std_specs::ops::SubSpecImpl for Mat3<T> {
    open spec fn obeys_sub_spec() -> bool {
        T::obeys_sub_spec()
    }

    open spec fn sub_req(self, rhs: Mat3<T>) -> bool {
        &&& SubSpec::sub_req(self.a, rhs.a)
        &&& SubSpec::sub_req(self.b, rhs.b)
        &&& SubSpec::sub_req(self.c, rhs.c)
    }

    open spec fn sub_spec(self, rhs: Mat3<T>) -> Mat3<T> {
        Mat3 {
            a: SubSpec::sub_spec(self.a, rhs.a),
            b: SubSpec::sub_spec(self.b, rhs.b),
            c: SubSpec::sub_spec(self.c, rhs.c),
        }
    }
}

impl<T: Scalar> Sub for Mat3<T> {
    type Output = Mat3<T>;

    /// The difference, column by column.
    fn sub(self, rhs: Mat3<T>) -> (r: Mat3<T>) {
        Mat3 { a: self.a - rhs.a, b: self.b - rhs.b, c: self.c - rhs.c }
    }
}

impl<T: Scalar> SubAssign for Mat3<T> {
    fn sub_assign(&mut self, rhs: Mat3<T>)
        requires
            old(self).sub_req(rhs),
        ensures
            T::obeys_sub_spec() ==> *final(self) == old(self).sub_spec(rhs),
    {
        *self = *self - rhs;
    }
}

impl<T: Scalar> vstd::std_specs::ops::MulSpecImpl<T> for Mat3<T> {
    open spec fn obeys_mul_spec() -> bool {
        T::obeys_mul_spec()
    }

    open spec fn mul_req(self, rhs: T) -> bool {
        &&& MulSpec::mul_req(self.a, rhs)
        &&& MulSpec::mul_req(self.b, rhs)
        &&& MulSpec::mul_req(self.c, rhs)
    }

    open spec fn mul_spec(self, rhs: T) -> Mat3<T> {
        Mat3 {
            a: MulSpec::mul_spec(self.a, rhs),
            b: MulSpec::mul_spec(self.b, rhs),
            c: MulSpec::mul_spec(self.c, rhs),
        }
    }
}

impl<T: Scalar> Mul<T> for Mat3<T> {
    type Output = Mat3<T>;

    /// Every column times `rhs`.
    fn mul(self, rhs: T) -> (r: Mat3<T>) {
        Mat3 { a: self.a * rhs, b: self.b * rhs, c: self.c * rhs }
    }
}

impl<T: Scalar> MulAssign<T> for Mat3<T> {
    fn mul_assign(&mut self, rhs: T)
        requires
            old(self).mul_req(rhs),
        ensures
            T::obeys_mul_spec() ==> *final(self) == old(self).mul_spec(rhs),
    {
        *self = *self * rhs;
    }
}

impl<T: Scalar> vstd::std_specs::ops::DivSpecImpl<T> for Mat3<T> {
    open spec fn obeys_div_spec() -> bool {
        T::obeys_mul_spec()
    }

    /// Division goes by the reciprocal, so the scalar operators must be
    /// specified for `1 / rhs` to be known before it is multiplied in.
    open spec fn div_req(self, rhs: T) -> bool {
        &&& exact::<T>()
        &&& lit_spec::<T>(1).div_req(rhs)
        &&& MulSpec::mul_req(self, lit_spec::<T>(1).div_spec(rhs))
    }

    open spec fn div_spec(self, rhs: T) -> Mat3<T> {
        MulSpec::mul_spec(self, lit_spec::<T>(1).div_spec(rhs))
    }
}

impl<T: Scalar> Div<T> for Mat3<T> {
    type Output = Mat3<T>;

    /// Every column times the reciprocal of `rhs`.
    fn div(self, rhs: T) -> (r: Mat3<T>) {
        let inv = lit::<T>(1) / rhs;
        Mat3 { a: self.a * inv, b: self.b * inv, c: self.c * inv }
    }
}

impl<T: Scalar> DivAssign<T> for Mat3<T> {
    fn div_assign(&mut self, rhs: T)
        requires
            old(self).div_req(rhs),
        ensures
            *final(self) == old(self).div_spec(rhs),
    {
        *self = *self / rhs;
    }
}

impl<T: Scalar> vstd::std_specs::ops::NegSpecImpl for Mat3<T> {
    open spec fn obeys_neg_spec() -> bool {
        T::obeys_mul_spec()
    }

    /// Negation goes by the factor `-1`, so taking up `-1` must be
    /// specified for the factor to be known.
    open spec fn neg_req(self) -> bool {
        &&& lifts::<T>()
        &&& MulSpec::mul_req(self, lit_spec::<T>(MINUS_ONE))
    }

    open spec fn neg_spec(self) -> Mat3<T> {
        MulSpec::mul_spec(self, lit_spec::<T>(MINUS_ONE))
    }
}

impl<T: Scalar> Neg for Mat3<T> {
    type Output = Mat3<T>;

    /// Every column times `-1`.
    fn neg(self) -> (r: Mat3<T>) {
        self * lit::<T>(MINUS_ONE)
    }
}

} // verus!
