//! 4×4 matrices.

use crate::mat3::Mat3;
use crate::scalar::exact;
use crate::scalar::lifts;
use crate::scalar::lit;
use crate::scalar::lit_spec;
use crate::scalar::ne_spec;
use crate::scalar::Scalar;
use crate::scalar::MINUS_ONE;
use crate::structure::EuclideanSpace;
use crate::structure::Mat;
use crate::structure::SquareMat;
use crate::vec3::Vec3;
use crate::vec4::Vec4;
use std::ops::Add;
use std::ops::AddAssign;
use std::ops::Div;
use std::ops::DivAssign;
use std::ops::Index;
use std::ops::IndexMut;
use std::ops::Mul;
use std::ops::MulAssign;
use std::ops::Neg;
use std::ops::Sub;
use std::ops::SubAssign;
use vstd::pervasive::unreached;
use vstd::prelude::*;
use vstd::std_specs::convert::FromSpecImpl;
use vstd::std_specs::ops::AddSpec;
use vstd::std_specs::ops::DivSpec;
use vstd::std_specs::ops::MulSpec;
use vstd::std_specs::ops::NegSpec;
use vstd::std_specs::ops::SubSpec;

verus! {

/// A 4×4 matrix held as the four columns `a`, `b`, `c` and `d`.
#[derive(Debug)]
pub struct Mat4<T> {
    pub a: Vec4<T>,
    pub b: Vec4<T>,
    pub c: Vec4<T>,
    pub d: Vec4<T>,
}

impl<T: Copy> Clone for Mat4<T> {
    fn clone(&self) -> (r: Self)
        ensures
            r == *self,
    {
        *self
    }
}

impl<T: Copy> Copy for Mat4<T> {

}

impl<T> View for Mat4<T> {
    type V = Seq<Seq<T>>;

    /// The columns in index order, each as its components in index order:
    /// `self@[i][j]` is component `j` of column `i`.
    open spec fn view(&self) -> Seq<Seq<T>> {
        seq![self.a@, self.b@, self.c@, self.d@]
    }
}

impl<T: Copy> Mat4<T> {
    pub fn from_columns(a: Vec4<T>, b: Vec4<T>, c: Vec4<T>, d: Vec4<T>) -> (m: Self)
        ensures
            m == (Mat4 { a, b, c, d }),
    {
        Self { a, b, c, d }
    }
}

impl<T: Copy> vstd::std_specs::core::IndexSpecImpl<usize> for Mat4<T> {
    /// Only the indices below 4 name a column.
    open spec fn index_req(&self, index: &usize) -> bool {
        *index < 4
    }
}

impl<T: Copy> Index<usize> for Mat4<T> {
    type Output = Vec4<T>;

    fn index(&self, i: usize) -> (r: &Vec4<T>)
        ensures
            r@ == self@[i as int],
    {
        match i {
            0 => &self.a,
            1 => &self.b,
            2 => &self.c,
            3 => &self.d,
            _ => unreached(),
        }
    }
}

impl<T: Copy> IndexMut<usize> for Mat4<T> {
    fn index_mut(&mut self, i: usize) -> (r: &mut Vec4<T>)
        requires
            i < 4,
        ensures
            r@ == old(self)@[i as int],
            final(self)@ == old(self)@.update(i as int, final(r)@),
    {
        match i {
            0 => &mut self.a,
            1 => &mut self.b,
            2 => &mut self.c,
            3 => &mut self.d,
            _ => unreached(),
        }
    }
}

impl<T: Copy> FromSpecImpl<[[T; 4]; 4]> for Mat4<T> {
    open spec fn obeys_from_spec() -> bool {
        true
    }

    open spec fn from_spec(a: [[T; 4]; 4]) -> Self {
        Mat4 {
            a: Vec4 { x: a[0][0], y: a[0][1], z: a[0][2], w: a[0][3] },
            b: Vec4 { x: a[1][0], y: a[1][1], z: a[1][2], w: a[1][3] },
            c: Vec4 { x: a[2][0], y: a[2][1], z: a[2][2], w: a[2][3] },
            d: Vec4 { x: a[3][0], y: a[3][1], z: a[3][2], w: a[3][3] },
        }
    }
}

impl<T: Copy> From<[[T; 4]; 4]> for Mat4<T> {
    fn from(a: [[T; 4]; 4]) -> (m: Self)
        ensures
            forall|i: int, j: int| 0 <= i < 4 && 0 <= j < 4 ==> m@[i][j] == a[i][j],
    {
        Mat4::from_columns(Vec4::from(a[0]), Vec4::from(a[1]), Vec4::from(a[2]), Vec4::from(a[3]))
    }
}

impl<'a, T: Copy> FromSpecImpl<&'a [[T; 4]; 4]> for Mat4<T> {
    open spec fn obeys_from_spec() -> bool {
        true
    }

    open spec fn from_spec(a: &'a [[T; 4]; 4]) -> Self {
        Mat4 {
            a: Vec4 { x: a[0][0], y: a[0][1], z: a[0][2], w: a[0][3] },
            b: Vec4 { x: a[1][0], y: a[1][1], z: a[1][2], w: a[1][3] },
            c: Vec4 { x: a[2][0], y: a[2][1], z: a[2][2], w: a[2][3] },
            d: Vec4 { x: a[3][0], y: a[3][1], z: a[3][2], w: a[3][3] },
        }
    }
}

impl<'a, T: Copy> From<&'a [[T; 4]; 4]> for Mat4<T> {
    fn from(a: &'a [[T; 4]; 4]) -> (m: Self)
        ensures
            forall|i: int, j: int| 0 <= i < 4 && 0 <= j < 4 ==> m@[i][j] == a[i][j],
    {
        Mat4::from_columns(Vec4::from(a[0]), Vec4::from(a[1]), Vec4::from(a[2]), Vec4::from(a[3]))
    }
}

impl<'a, T: Copy> FromSpecImpl<&'a mut [[T; 4]; 4]> for Mat4<T> {
    open spec fn obeys_from_spec() -> bool {
        true
    }

    open spec fn from_spec(a: &'a mut [[T; 4]; 4]) -> Self {
        Mat4 {
            a: Vec4 { x: a[0][0], y: a[0][1], z: a[0][2], w: a[0][3] },
            b: Vec4 { x: a[1][0], y: a[1][1], z: a[1][2], w: a[1][3] },
            c: Vec4 { x: a[2][0], y: a[2][1], z: a[2][2], w: a[2][3] },
            d: Vec4 { x: a[3][0], y: a[3][1], z: a[3][2], w: a[3][3] },
        }
    }
}

impl<'a, T: Copy> From<&'a mut [[T; 4]; 4]> for Mat4<T> {
    fn from(a: &'a mut [[T; 4]; 4]) -> (m: Self)
        ensures
            forall|i: int, j: int| 0 <= i < 4 && 0 <= j < 4 ==> m@[i][j] == old(a)[i][j],
            *final(a) == *old(a),
    {
        Mat4::from_columns(Vec4::from(a[0]), Vec4::from(a[1]), Vec4::from(a[2]), Vec4::from(a[3]))
    }
}

impl<T: Copy> FromSpecImpl<Mat4<T>> for [[T; 4]; 4] {
    open spec fn obeys_from_spec() -> bool {
        true
    }

    open spec fn from_spec(m: Mat4<T>) -> Self {
        [
            [m.a.x, m.a.y, m.a.z, m.a.w],
            [m.b.x, m.b.y, m.b.z, m.b.w],
            [m.c.x, m.c.y, m.c.z, m.c.w],
            [m.d.x, m.d.y, m.d.z, m.d.w],
        ]
    }
}

impl<T: Copy> From<Mat4<T>> for [[T; 4]; 4] {
    fn from(m: Mat4<T>) -> (a: Self)
        ensures
            forall|i: int, j: int| 0 <= i < 4 && 0 <= j < 4 ==> a[i][j] == m@[i][j],
    {
        [<[T; 4]>::from(m.a), <[T; 4]>::from(m.b), <[T; 4]>::from(m.c), <[T; 4]>::from(m.d)]
    }
}

impl<'a, T: Copy> FromSpecImpl<&'a Mat4<T>> for [[T; 4]; 4] {
    open spec fn obeys_from_spec() -> bool {
        true
    }

    open spec fn from_spec(m: &'a Mat4<T>) -> Self {
        [
            [m.a.x, m.a.y, m.a.z, m.a.w],
            [m.b.x, m.b.y, m.b.z, m.b.w],
            [m.c.x, m.c.y, m.c.z, m.c.w],
            [m.d.x, m.d.y, m.d.z, m.d.w],
        ]
    }
}

impl<'a, T: Copy> From<&'a Mat4<T>> for [[T; 4]; 4] {
    fn from(m: &'a Mat4<T>) -> (a: Self)
        ensures
            forall|i: int, j: int| 0 <= i < 4 && 0 <= j < 4 ==> a[i][j] == m@[i][j],
    {
        [<[T; 4]>::from(m.a), <[T; 4]>::from(m.b), <[T; 4]>::from(m.c), <[T; 4]>::from(m.d)]
    }
}

impl<'a, T: Copy> FromSpecImpl<&'a mut Mat4<T>> for [[T; 4]; 4] {
    open spec fn obeys_from_spec() -> bool {
        true
    }

    open spec fn from_spec(m: &'a mut Mat4<T>) -> Self {
        [
            [m.a.x, m.a.y, m.a.z, m.a.w],
            [m.b.x, m.b.y, m.b.z, m.b.w],
            [m.c.x, m.c.y, m.c.z, m.c.w],
            [m.d.x, m.d.y, m.d.z, m.d.w],
        ]
    }
}

impl<'a, T: Copy> From<&'a mut Mat4<T>> for [[T; 4]; 4] {
    fn from(m: &'a mut Mat4<T>) -> (a: Self)
        ensures
            forall|i: int, j: int| 0 <= i < 4 && 0 <= j < 4 ==> a[i][j] == old(m)@[i][j],
            *final(m) == *old(m),
    {
        [<[T; 4]>::from(m.a), <[T; 4]>::from(m.b), <[T; 4]>::from(m.c), <[T; 4]>::from(m.d)]
    }
}

impl<T: Scalar> Mat for Mat4<T> {
    type Scalar = T;

    type Row = Vec4<T>;

    type Column = Vec4<T>;

    type Transpose = Mat4<T>;

    open spec fn zero_spec() -> Mat4<T> {
        Mat4 {
            a: Vec4::zero_spec(),
            b: Vec4::zero_spec(),
            c: Vec4::zero_spec(),
            d: Vec4::zero_spec(),
        }
    }

    fn zero() -> (m: Mat4<T>) {
        Mat4 { a: Vec4::zero(), b: Vec4::zero(), c: Vec4::zero(), d: Vec4::zero() }
    }

    open spec fn transposed(&self) -> Mat4<T> {
        Mat4 {
            a: Vec4 { x: self.a.x, y: self.b.x, z: self.c.x, w: self.d.x },
            b: Vec4 { x: self.a.y, y: self.b.y, z: self.c.y, w: self.d.y },
            c: Vec4 { x: self.a.z, y: self.b.z, z: self.c.z, w: self.d.z },
            d: Vec4 { x: self.a.w, y: self.b.w, z: self.c.w, w: self.d.w },
        }
    }

    fn transpose(&self) -> (t: Mat4<T>)
        ensures
            forall|i: int, j: int| 0 <= i < 4 && 0 <= j < 4 ==> t@[i][j] == self@[j][i],
    {
        let m = self;
        Mat4::from(
            [
                [m[0][0], m[1][0], m[2][0], m[3][0]],
                [m[0][1], m[1][1], m[2][1], m[3][1]],
                [m[0][2], m[1][2], m[2][2], m[3][2]],
                [m[0][3], m[1][3], m[2][3], m[3][3]],
            ],
        )
    }
}

impl<T: Scalar> Mat4<T> {
    /// The 3×3 matrix left of the columns `p`, `q`, `r` once their fourth
    /// components are struck out.
    pub open spec fn minor_spec(p: Vec4<T>, q: Vec4<T>, r: Vec4<T>) -> Mat3<T> {
        Mat3 { a: p.xyz_spec(), b: q.xyz_spec(), c: r.xyz_spec() }
    }

    fn minor(p: &Vec4<T>, q: &Vec4<T>, r: &Vec4<T>) -> (m: Mat3<T>)
        ensures
            m == Self::minor_spec(*p, *q, *r),
    {
        Mat3::from_columns(p.xyz(), q.xyz(), r.xyz())
    }
}

impl<T: Scalar> SquareMat for Mat4<T> {
    type RowColumn = Vec4<T>;

    open spec fn identity_spec() -> Mat4<T> {
        Mat4 {
            a: Vec4::unit_spec(0),
            b: Vec4::unit_spec(1),
            c: Vec4::unit_spec(2),
            d: Vec4::unit_spec(3),
        }
    }

    fn identity() -> (m: Mat4<T>) {
        Mat4 { a: Vec4::unit_x(), b: Vec4::unit_y(), c: Vec4::unit_z(), d: Vec4::unit_w() }
    }

    open spec fn diagonal(d: Vec4<T>) -> Mat4<T> {
        let o = lit_spec::<T>(0);
        Mat4 {
            a: Vec4 { x: d.x, y: o, z: o, w: o },
            b: Vec4 { x: o, y: d.y, z: o, w: o },
            c: Vec4 { x: o, y: o, z: d.z, w: o },
            d: Vec4 { x: o, y: o, z: o, w: d.w },
        }
    }

    fn from_diagonal(d: Vec4<T>) -> (m: Mat4<T>)
        ensures
            forall|i: int| 0 <= i < 4 ==> m@[i][i] == d@[i],
    {
        Mat4 {
            a: Vec4::from([d.x, lit(0), lit(0), lit(0)]),
            b: Vec4::from([lit(0), d.y, lit(0), lit(0)]),
            c: Vec4::from([lit(0), lit(0), d.z, lit(0)]),
            d: Vec4::from([lit(0), lit(0), lit(0), d.w]),
        }
    }

    open spec fn determinant_req(&self) -> bool {
        let m = *self;
        let dd = Self::minor_spec(m.a, m.b, m.c);
        let dc = Self::minor_spec(m.a, m.b, m.d);
        let db = Self::minor_spec(m.a, m.c, m.d);
        let da = Self::minor_spec(m.b, m.c, m.d);
        let td = m.d.w.mul_spec(dd.det_spec());
        let tc = m.c.w.mul_spec(dc.det_spec());
        let tb = m.b.w.mul_spec(db.det_spec());
        let ta = m.a.w.mul_spec(da.det_spec());
        &&& dd.det_req()
        &&& dc.det_req()
        &&& db.det_req()
        &&& da.det_req()
        &&& m.d.w.mul_req(dd.det_spec())
        &&& m.c.w.mul_req(dc.det_spec())
        &&& m.b.w.mul_req(db.det_spec())
        &&& m.a.w.mul_req(da.det_spec())
        &&& td.sub_req(tc)
        &&& td.sub_spec(tc).add_req(tb)
        &&& td.sub_spec(tc).add_spec(tb).sub_req(ta)
    }

    /// The cofactor expansion along the fourth components of the columns:
    /// `d.w·D − c.w·C + b.w·B − a.w·A`, taken from the left, where each of
    /// `A`, `B`, `C`, `D` is the 3×3 determinant of the other three
    /// columns without their fourth components.
    open spec fn determinant_spec(&self) -> T {
        let m = *self;
        let td = m.d.w.mul_spec(Self::minor_spec(m.a, m.b, m.c).det_spec());
        let tc = m.c.w.mul_spec(Self::minor_spec(m.a, m.b, m.d).det_spec());
        let tb = m.b.w.mul_spec(Self::minor_spec(m.a, m.c, m.d).det_spec());
        let ta = m.a.w.mul_spec(Self::minor_spec(m.b, m.c, m.d).det_spec());
        td.sub_spec(tc).add_spec(tb).sub_spec(ta)
    }

    fn determinant(&self) -> (d: T) {
        let m = self;
        m.d.w * Self::minor(&m.a, &m.b, &m.c).det()
            - m.c.w * Self::minor(&m.a, &m.b, &m.d).det()
            + m.b.w * Self::minor(&m.a, &m.c, &m.d).det()
            - m.a.w * Self::minor(&m.b, &m.c, &m.d).det()
    }

    open spec fn invert_req(&self) -> bool {
        let a = self.a.xyz_spec();
        let b = self.b.xyz_spec();
        let c = self.c.xyz_spec();
        let d = self.d.xyz_spec();
        let x = self.a.w;
        let y = self.b.w;
        let z = self.c.w;
        let w = self.d.w;
        let s0 = a.cross_spec(b);
        let t0 = c.cross_spec(d);
        let u0 = a.mul_spec(y).sub_spec(b.mul_spec(x));
        let v0 = c.mul_spec(w).sub_spec(d.mul_spec(z));
        let det = s0.dot_spec(&v0).add_spec(t0.dot_spec(&u0));
        let inv_det = lit_spec::<T>(1).div_spec(det);
        let s = s0.mul_spec(inv_det);
        let t = t0.mul_spec(inv_det);
        let u = u0.mul_spec(inv_det);
        let v = v0.mul_spec(inv_det);
        &&& a.cross_req(b)
        &&& c.cross_req(d)
        &&& a.mul_req(y)
        &&& b.mul_req(x)
        &&& a.mul_spec(y).sub_req(b.mul_spec(x))
        &&& c.mul_req(w)
        &&& d.mul_req(z)
        &&& c.mul_spec(w).sub_req(d.mul_spec(z))
        &&& s0.dot_req(&v0)
        &&& t0.dot_req(&u0)
        &&& s0.dot_spec(&v0).add_req(t0.dot_spec(&u0))
        &&& ne_spec(det, lit_spec::<T>(0)) ==> {
            &&& lit_spec::<T>(1).div_req(det)
            &&& s0.mul_req(inv_det)
            &&& t0.mul_req(inv_det)
            &&& u0.mul_req(inv_det)
            &&& v0.mul_req(inv_det)
            &&& b.cross_req(v)
            &&& t.mul_req(y)
            &&& b.cross_spec(v).add_req(t.mul_spec(y))
            &&& v.cross_req(a)
            &&& t.mul_req(x)
            &&& v.cross_spec(a).sub_req(t.mul_spec(x))
            &&& d.cross_req(u)
            &&& s.mul_req(w)
            &&& d.cross_spec(u).add_req(s.mul_spec(w))
            &&& u.cross_req(c)
            &&& s.mul_req(z)
            &&& u.cross_spec(c).sub_req(s.mul_spec(z))
            &&& b.dot_req(&t)
            &&& b.dot_spec(&t).neg_req()
            &&& a.dot_req(&t)
            &&& d.dot_req(&s)
            &&& d.dot_spec(&s).neg_req()
            &&& c.dot_req(&s)
        }
    }

    /// The inverse by blocks. With `a`, `b`, `c`, `d` the first three
    /// components of the columns and `x`, `y`, `z`, `w` their fourth:
    ///
    /// ```text
    /// s = a × b        t = c × d
    /// u = a·y − b·x    v = c·w − d·z
    /// det = s · v + t · u
    /// ```
    ///
    /// Nothing where `det` equals `0`. Else `s`, `t`, `u`, `v` are each
    /// scaled by `1 / det`, and the columns of the result are
    ///
    /// ```text
    /// (b × v + t·y,  −(b · t))
    /// (v × a − t·x,    a · t )
    /// (d × u + s·w,  −(d · s))
    /// (u × c − s·z,    c · s )
    /// ```
    open spec fn invert_spec(&self) -> Option<Mat4<T>> {
        let a = self.a.xyz_spec();
        let b = self.b.xyz_spec();
        let c = self.c.xyz_spec();
        let d = self.d.xyz_spec();
        let x = self.a.w;
        let y = self.b.w;
        let z = self.c.w;
        let w = self.d.w;
        let s0 = a.cross_spec(b);
        let t0 = c.cross_spec(d);
        let u0 = a.mul_spec(y).sub_spec(b.mul_spec(x));
        let v0 = c.mul_spec(w).sub_spec(d.mul_spec(z));
        let det = s0.dot_spec(&v0).add_spec(t0.dot_spec(&u0));
        let inv_det = lit_spec::<T>(1).div_spec(det);
        let s = s0.mul_spec(inv_det);
        let t = t0.mul_spec(inv_det);
        let u = u0.mul_spec(inv_det);
        let v = v0.mul_spec(inv_det);
        let r0 = b.cross_spec(v).add_spec(t.mul_spec(y));
        let r1 = v.cross_spec(a).sub_spec(t.mul_spec(x));
        let r2 = d.cross_spec(u).add_spec(s.mul_spec(w));
        let r3 = u.cross_spec(c).sub_spec(s.mul_spec(z));
        if ne_spec(det, lit_spec::<T>(0)) {
            Some(
                Mat4 {
                    a: Vec4 { x: r0.x, y: r0.y, z: r0.z, w: b.dot_spec(&t).neg_spec() },
                    b: Vec4 { x: r1.x, y: r1.y, z: r1.z, w: a.dot_spec(&t) },
                    c: Vec4 { x: r2.x, y: r2.y, z: r2.z, w: d.dot_spec(&s).neg_spec() },
                    d: Vec4 { x: r3.x, y: r3.y, z: r3.z, w: c.dot_spec(&s) },
                },
            )
        } else {
            None
        }
    }

    fn invert(&self) -> (r: Option<Mat4<T>>) {
        let a = self.a.xyz();
        let b = self.b.xyz();
        let c = self.c.xyz();
        let d = self.d.xyz();

        let x = self[0][3];
        let y = self[1][3];
        let z = self[2][3];
        let w = self[3][3];

        let s = a.cross(&b);
        let t = c.cross(&d);
        let u = a * y - b * x;
        let v = c * w - d * z;

        let det = s.dot(&v) + t.dot(&u);

        if det.ne(&lit::<T>(0)) {
            let inv_det = lit::<T>(1) / det;
            let s = s * inv_det;
            let t = t * inv_det;
            let u = u * inv_det;
            let v = v * inv_det;

            let r0 = b.cross(&v) + t * y;
            let r1 = v.cross(&a) - t * x;
            let r2 = d.cross(&u) + s * w;
            let r3 = u.cross(&c) - s * z;

            Some(
                Mat4::from_columns(
                    Vec4::from([r0.x, r0.y, r0.z, b.dot(&t).neg()]),
                    Vec4::from([r1.x, r1.y, r1.z, a.dot(&t)]),
                    Vec4::from([r2.x, r2.y, r2.z, d.dot(&s).neg()]),
                    Vec4::from([r3.x, r3.y, r3.z, c.dot(&s)]),
                ),
            )
        } else {
            None
        }
    }

    proof fn lemma_transpose_involution(&self) {
    }
}

impl<T: Scalar> Mat4<T> {
    /// What `0 + p·u + q·v + r·w + s·x` needs: the four products and their
    /// summation onto `0`.
    pub open spec fn sum_req(p: T, u: T, q: T, v: T, r: T, w: T, s: T, x: T) -> bool {
        let o = lit_spec::<T>(0);
        let s1 = o.add_spec(p.mul_spec(u));
        let s2 = s1.add_spec(q.mul_spec(v));
        let s3 = s2.add_spec(r.mul_spec(w));
        &&& p.mul_req(u)
        &&& q.mul_req(v)
        &&& r.mul_req(w)
        &&& s.mul_req(x)
        &&& o.add_req(p.mul_spec(u))
        &&& s1.add_req(q.mul_spec(v))
        &&& s2.add_req(r.mul_spec(w))
        &&& s3.add_req(s.mul_spec(x))
    }

    /// `0 + p·u + q·v + r·w + s·x`, summed from the left.
    pub open spec fn sum_spec(p: T, u: T, q: T, v: T, r: T, w: T, s: T, x: T) -> T {
        lit_spec::<T>(0).add_spec(p.mul_spec(u)).add_spec(q.mul_spec(v)).add_spec(
            r.mul_spec(w),
        ).add_spec(s.mul_spec(x))
    }

    /// What one column of a product needs: each of its four sums.
    pub open spec fn product_column_req(k: Vec4<T>, rhs: Self) -> bool {
        &&& Self::sum_req(k.x, rhs.a.x, k.y, rhs.b.x, k.z, rhs.c.x, k.w, rhs.d.x)
        &&& Self::sum_req(k.x, rhs.a.y, k.y, rhs.b.y, k.z, rhs.c.y, k.w, rhs.d.y)
        &&& Self::sum_req(k.x, rhs.a.z, k.y, rhs.b.z, k.z, rhs.c.z, k.w, rhs.d.z)
        &&& Self::sum_req(k.x, rhs.a.w, k.y, rhs.b.w, k.z, rhs.c.w, k.w, rhs.d.w)
    }

    /// The column of a product that the column `k` of the left factor
    /// gives: the columns of `rhs` combined with the components of `k`,
    /// `k.x·a + k.y·b + k.z·c + k.w·d`, each component summed from the
    /// left onto `0`.
    pub open spec fn product_column_spec(k: Vec4<T>, rhs: Self) -> Vec4<T> {
        Vec4 {
            x: Self::sum_spec(k.x, rhs.a.x, k.y, rhs.b.x, k.z, rhs.c.x, k.w, rhs.d.x),
            y: Self::sum_spec(k.x, rhs.a.y, k.y, rhs.b.y, k.z, rhs.c.y, k.w, rhs.d.y),
            z: Self::sum_spec(k.x, rhs.a.z, k.y, rhs.b.z, k.z, rhs.c.z, k.w, rhs.d.z),
            w: Self::sum_spec(k.x, rhs.a.w, k.y, rhs.b.w, k.z, rhs.c.w, k.w, rhs.d.w),
        }
    }

    fn product_column(k: &Vec4<T>, rhs: &Self) -> (r: Vec4<T>)
        requires
            exact::<T>(),
            Self::product_column_req(*k, *rhs),
        ensures
            r == Self::product_column_spec(*k, *rhs),
    {
        Vec4::new(
            lit::<T>(0) + k.x * rhs.a.x + k.y * rhs.b.x + k.z * rhs.c.x + k.w * rhs.d.x,
            lit::<T>(0) + k.x * rhs.a.y + k.y * rhs.b.y + k.z * rhs.c.y + k.w * rhs.d.y,
            lit::<T>(0) + k.x * rhs.a.z + k.y * rhs.b.z + k.z * rhs.c.z + k.w * rhs.d.z,
            lit::<T>(0) + k.x * rhs.a.w + k.y * rhs.b.w + k.z * rhs.c.w + k.w * rhs.d.w,
        )
    }
}

impl<T: Scalar> vstd::std_specs::ops::MulSpecImpl<Mat4<T>> for Mat4<T> {
    open spec fn obeys_mul_spec() -> bool {
        true
    }

    /// Each entry is a sum of products, so the scalar operators must be
    /// specified for the partial sums to be known.
    open spec fn mul_req(self, rhs: Mat4<T>) -> bool {
        &&& exact::<T>()
        &&& Self::product_column_req(self.a, rhs)
        &&& Self::product_column_req(self.b, rhs)
        &&& Self::product_column_req(self.c, rhs)
        &&& Self::product_column_req(self.d, rhs)
    }

    /// The matrix whose column `i` is `product_column_spec` of column `i`
    /// of `self`: component `j` of it is
    /// `0 + self[i][0]·rhs[0][j] + self[i][1]·rhs[1][j]
    /// + self[i][2]·rhs[2][j] + self[i][3]·rhs[3][j]`.
    open spec fn mul_spec(self, rhs: Mat4<T>) -> Mat4<T> {
        Mat4 {
            a: Self::product_column_spec(self.a, rhs),
            b: Self::product_column_spec(self.b, rhs),
            c: Self::product_column_spec(self.c, rhs),
            d: Self::product_column_spec(self.d, rhs),
        }
    }
}

impl<T: Scalar> Mul<Mat4<T>> for Mat4<T> {
    type Output = Mat4<T>;

    /// The matrix product.
    fn mul(self, rhs: Mat4<T>) -> (r: Mat4<T>) {
        Mat4::from_columns(
            Self::product_column(&self.a, &rhs),
            Self::product_column(&self.b, &rhs),
            Self::product_column(&self.c, &rhs),
            Self::product_column(&self.d, &rhs),
        )
    }
}

impl<T: Scalar> vstd::std_specs::ops::MulSpecImpl<Vec4<T>> for Mat4<T> {
    open spec fn obeys_mul_spec() -> bool {
        true
    }

    open spec fn mul_req(self, rhs: Vec4<T>) -> bool {
        &&& exact::<T>()
        &&& rhs.dot_req(&self.a)
        &&& rhs.dot_req(&self.b)
        &&& rhs.dot_req(&self.c)
        &&& rhs.dot_req(&self.d)
    }

    /// The vector of the dot products of `rhs` with each column in turn.
    open spec fn mul_spec(self, rhs: Vec4<T>) -> Vec4<T> {
        Vec4 {
            x: rhs.dot_spec(&self.a),
            y: rhs.dot_spec(&self.b),
            z: rhs.dot_spec(&self.c),
            w: rhs.dot_spec(&self.d),
        }
    }
}

impl<T: Scalar> Mul<Vec4<T>> for Mat4<T> {
    type Output = Vec4<T>;

    /// The matrix applied to `rhs`: component `i` of the result is the dot
    /// product of `rhs` with column `i`.
    fn mul(self, rhs: Vec4<T>) -> (r: Vec4<T>) {
        Vec4::new(rhs.dot(&self.a), rhs.dot(&self.b), rhs.dot(&self.c), rhs.dot(&self.d))
    }
}

impl<T: Scalar> vstd::std_specs::ops::AddSpecImpl for Mat4<T> {
    open spec fn obeys_add_spec() -> bool {
        T::obeys_add_spec()
    }

    open spec fn add_req(self, rhs: Mat4<T>) -> bool {
        &&& AddSpec::add_req(self.a, rhs.a)
        &&& AddSpec::add_req(self.b, rhs.b)
        &&& AddSpec::add_req(self.c, rhs.c)
        &&& AddSpec::add_req(self.d, rhs.d)
    }

    open spec fn add_spec(self, rhs: Mat4<T>) -> Mat4<T> {
        Mat4 {
            a: AddSpec::add_spec(self.a, rhs.a),
            b: AddSpec::add_spec(self.b, rhs.b),
            c: AddSpec::add_spec(self.c, rhs.c),
            d: AddSpec::add_spec(self.d, rhs.d),
        }
    }
}

impl<T: Scalar> Add for Mat4<T> {
    type Output = Mat4<T>;

    /// The sum, column by column.
    fn add(self, rhs: Mat4<T>) -> (r: Mat4<T>) {
        Mat4 { a: self.a + rhs.a, b: self.b + rhs.b, c: self.c + rhs.c, d: self.d + rhs.d }
    }
}

impl<T: Scalar> AddAssign for Mat4<T> {
    fn add_assign(&mut self, rhs: Mat4<T>)
        requires
            old(self).add_req(rhs),
        ensures
            T::obeys_add_spec() ==> *final(self) == old(self).add_spec(rhs),
    {
        *self = *self + rhs;
    }
}

impl<T: Scalar> vstd::std_specs::ops::SubSpecImpl for Mat4<T> {
    open spec fn obeys_sub_spec() -> bool {
        T::obeys_sub_spec()
    }

    open spec fn sub_req(self, rhs: Mat4<T>) -> bool {
        &&& SubSpec::sub_req(self.a, rhs.a)
        &&& SubSpec::sub_req(self.b, rhs.b)
        &&& SubSpec::sub_req(self.c, rhs.c)
        &&& SubSpec::sub_req(self.d, rhs.d)
    }

    open spec fn sub_spec(self, rhs: Mat4<T>) -> Mat4<T> {
        Mat4 {
            a: SubSpec::sub_spec(self.a, rhs.a),
            b: SubSpec::sub_spec(self.b, rhs.b),
            c: SubSpec::sub_spec(self.c, rhs.c),
            d: SubSpec::sub_spec(self.d, rhs.d),
        }
    }
}

impl<T: Scalar> Sub for Mat4<T> {
    type Output = Mat4<T>;

    /// The difference, column by column.
    fn sub(self, rhs: Mat4<T>) -> (r: Mat4<T>) {
        Mat4 { a: self.a - rhs.a, b: self.b - rhs.b, c: self.c - rhs.c, d: self.d - rhs.d }
    }
}

impl<T: Scalar> SubAssign for Mat4<T> {
    fn sub_assign(&mut self, rhs: Mat4<T>)
        requires
            old(self).sub_req(rhs),
        ensures
            T::obeys_sub_spec() ==> *final(self) == old(self).sub_spec(rhs),
    {
        *self = *self - rhs;
    }
}

impl<T: Scalar> vstd::std_specs::ops::MulSpecImpl<T> for Mat4<T> {
    open spec fn obeys_mul_spec() -> bool {
        T::obeys_mul_spec()
    }

    open spec fn mul_req(self, rhs: T) -> bool {
        &&& MulSpec::mul_req(self.a, rhs)
        &&& MulSpec::mul_req(self.b, rhs)
        &&& MulSpec::mul_req(self.c, rhs)
        &&& MulSpec::mul_req(self.d, rhs)
    }

    open spec fn mul_spec(self, rhs: T) -> Mat4<T> {
        Mat4 {
            a: MulSpec::mul_spec(self.a, rhs),
            b: MulSpec::mul_spec(self.b, rhs),
            c: MulSpec::mul_spec(self.c, rhs),
            d: MulSpec::mul_spec(self.d, rhs),
        }
    }
}

impl<T: Scalar> Mul<T> for Mat4<T> {
    type Output = Mat4<T>;

    /// Every column times `rhs`.
    fn mul(self, rhs: T) -> (r: Mat4<T>) {
        Mat4 { a: self.a * rhs, b: self.b * rhs, c: self.c * rhs, d: self.d * rhs }
    }
}

impl<T: Scalar> MulAssign<T> for Mat4<T> {
    fn mul_assign(&mut self, rhs: T)
        requires
            old(self).mul_req(rhs),
        ensures
            T::obeys_mul_spec() ==> *final(self) == old(self).mul_spec(rhs),
    {
        *self = *self * rhs;
    }
}

impl<T: Scalar> vstd::std_specs::ops::DivSpecImpl<T> for Mat4<T> {
    open spec fn obeys_div_spec() -> bool {
        T::obeys_mul_spec()
    }

    /// Division goes by the reciprocal, so the scalar operators must be
    /// specified for `1 / rhs` to be known before it is multiplied in.
    open spec fn div_req(self, rhs: T) -> bool {
        &&& exact::<T>()
        &&& lit_spec::<T>(1).div_req(rhs)
        &&& MulSpec::mul_req(self, lit_spec::<T>(1).div_spec(rhs))
    }

    open spec fn div_spec(self, rhs: T) -> Mat4<T> {
        MulSpec::mul_spec(self, lit_spec::<T>(1).div_spec(rhs))
    }
}

impl<T: Scalar> Div<T> for Mat4<T> {
    type Output = Mat4<T>;

    /// Every column times the reciprocal of `rhs`.
    fn div(self, rhs: T) -> (r: Mat4<T>) {
        let inv = lit::<T>(1) / rhs;
        Mat4 { a: self.a * inv, b: self.b * inv, c: self.c * inv, d: self.d * inv }
    }
}

impl<T: Scalar> DivAssign<T> for Mat4<T> {
    fn div_assign(&mut self, rhs: T)
        requires
            old(self).div_req(rhs),
        ensures
            *final(self) == old(self).div_spec(rhs),
    {
        *self = *self / rhs;
    }
}

impl<T: Scalar> vstd::std_specs::ops::NegSpecImpl for Mat4<T> {
    open spec fn obeys_neg_spec() -> bool {
        T::obeys_mul_spec()
    }

    /// Negation goes by the factor `-1`, so taking up `-1` must be
    /// specified for the factor to be known.
    open spec fn neg_req(self) -> bool {
        &&& lifts::<T>()
        &&& MulSpec::mul_req(self, lit_spec::<T>(MINUS_ONE))
    }

    open spec fn neg_spec(self) -> Mat4<T> {
        MulSpec::mul_spec(self, lit_spec::<T>(MINUS_ONE))
    }
}

impl<T: Scalar> Neg for Mat4<T> {
    type Output = Mat4<T>;

    /// Every column times `-1`.
    fn neg(self) -> (r: Mat4<T>) {
        self * lit::<T>(MINUS_ONE)
    }
}

} // verus!
