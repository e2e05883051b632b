//! Affine transforms: a 3×3 linear part together with a translation.

use crate::mat4::Mat4;
use crate::plane::Plane;
use crate::scalar::exact;
use crate::scalar::lifts;
use crate::scalar::lit;
use crate::scalar::lit_spec;
use crate::scalar::ne_spec;
use crate::scalar::Scalar;
use crate::scalar::MINUS_TWO;
use crate::structure::EuclideanSpace;
use crate::vec3::Vec3;
use crate::vec4::Vec4;
use std::ops::Neg;
use vstd::prelude::*;
use vstd::std_specs::ops::AddSpec;
use vstd::std_specs::ops::DivSpec;
use vstd::std_specs::ops::MulSpec;
use vstd::std_specs::ops::NegSpec;

verus! {

impl<T> Mat4<T> {
    /// Whether the fourth components of the columns are `zero, zero, zero,
    /// one`, as the constructors of a transform leave them.
    pub open spec fn is_affine(&self, zero: T, one: T) -> bool {
        &&& self.a.w == zero
        &&& self.b.w == zero
        &&& self.c.w == zero
        &&& self.d.w == one
    }
}

/// An affine map of 3D space, kept as a 4×4 matrix of which one line is
/// fixed at `0, 0, 0, 1`.
///
/// Only twelve entries carry information: the columns `a`, `b`, `c` of a
/// linear part and the translation `d`. The constructors, the inversion
/// and the composition set the four remaining entries; the setter of the
/// translation leaves them alone. No method reads them.
///
/// The transform takes a point `p` to `a·p.x + b·p.y + c·p.z + d`.
pub trait Transform4: Sized + Clone {
    type Scalar: Scalar;

    /// The 4×4 matrix that stands for the transform.
    spec fn matrix(&self) -> Mat4<Self::Scalar>;

    /// Builds the transform from twelve entries, four to a line: `cIrJ`
    /// becomes component `J` of column `I`. The fourth components are
    /// `0, 0, 0, 1`.
    fn new(
        c0r0: Self::Scalar,
        c1r0: Self::Scalar,
        c2r0: Self::Scalar,
        c3r0: Self::Scalar,
        c0r1: Self::Scalar,
        c1r1: Self::Scalar,
        c2r1: Self::Scalar,
        c3r1: Self::Scalar,
        c0r2: Self::Scalar,
        c1r2: Self::Scalar,
        c2r2: Self::Scalar,
        c3r2: Self::Scalar,
    ) -> (m: Self)
        ensures
            m.matrix().a.xyz_spec() == (Vec3 { x: c0r0, y: c0r1, z: c0r2 }),
            m.matrix().b.xyz_spec() == (Vec3 { x: c1r0, y: c1r1, z: c1r2 }),
            m.matrix().c.xyz_spec() == (Vec3 { x: c2r0, y: c2r1, z: c2r2 }),
            m.matrix().d.xyz_spec() == (Vec3 { x: c3r0, y: c3r1, z: c3r2 }),
            lifts::<Self::Scalar>() ==> m.matrix().is_affine(
                lit_spec::<Self::Scalar>(0),
                lit_spec::<Self::Scalar>(1),
            ),
    ;

    /// Builds the transform from the columns `a`, `b`, `c` of its linear
    /// part and its translation `p`. The fourth components are
    /// `0, 0, 0, 1`.
    fn from_columns(
        a: Vec3<Self::Scalar>,
        b: Vec3<Self::Scalar>,
        c: Vec3<Self::Scalar>,
        p: Vec3<Self::Scalar>,
    ) -> (m: Self)
        ensures
            m.matrix().a.xyz_spec() == a,
            m.matrix().b.xyz_spec() == b,
            m.matrix().c.xyz_spec() == c,
            m.matrix().d.xyz_spec() == p,
            lifts::<Self::Scalar>() ==> m.matrix().is_affine(
                lit_spec::<Self::Scalar>(0),
                lit_spec::<Self::Scalar>(1),
            ),
    ;

    /// The translation: the first three components of the last column.
    fn get_translation(&self) -> (t: Vec3<Self::Scalar>)
        ensures
            t == self.matrix().d.xyz_spec(),
    ;

    /// Replaces the translation and leaves everything else as it is.
    fn set_translation(&mut self, t: Vec3<Self::Scalar>)
        ensures
            final(self).matrix() == (Mat4 {
                d: Vec4 { x: t.x, y: t.y, z: t.z, w: old(self).matrix().d.w },
                ..old(self).matrix()
            }),
    ;

    /// Whether every operation of the inversion accepts its operands.
    spec fn affine_invert_req(&self) -> bool;

    /// What [`Self::invert`] returns: nothing where the determinant of the
    /// linear part equals `0`, and the transform built from it where it
    /// does not.
    spec fn affine_invert_spec(&self) -> Option<Self>;

    /// Inverts the transform, unless the determinant of its linear part is
    /// `0`. The test is exact: no tolerance is applied. The result is a
    /// transform again: its fourth components are `0, 0, 0, 1`, whatever
    /// those of `self` were. Composed with `self` it gives the identity.
    fn invert(&self) -> (r: Option<Self>)
        requires
            exact::<Self::Scalar>(),
            self.affine_invert_req(),
        ensures
            r == self.affine_invert_spec(),
            r is Some ==> r.unwrap().matrix().is_affine(
                lit_spec::<Self::Scalar>(0),
                lit_spec::<Self::Scalar>(1),
            ),
    ;

    /// Whether every operation of the reflection accepts its operands.
    spec fn plane_reflection_req(plane: &Plane<Self::Scalar>) -> bool;

    /// The reflection across `plane`, as the expression that
    /// [`Self::make_reflection`] evaluates.
    spec fn plane_reflection_spec(plane: &Plane<Self::Scalar>) -> Self;

    /// The reflection across `plane`, whose normal is taken to have length
    /// one and is not checked.
    fn make_reflection(plane: &Plane<Self::Scalar>) -> (m: Self)
        requires
            exact::<Self::Scalar>(),
            Self::plane_reflection_req(plane),
        ensures
            m == Self::plane_reflection_spec(plane),
    ;
}

/// A transform applied to a value of type `Rhs`. The fourth components of
/// the transform are taken to be `0, 0, 0, 1` and are never read.
pub trait T4Mul<Rhs = Self>: Transform4 {
    /// Whether every operation of the application accepts its operands.
    spec fn apply_req(&self, rhs: &Rhs) -> bool;

    /// The transform applied to `rhs`, as the expression that
    /// [`Self::mul`] evaluates.
    spec fn apply_spec(&self, rhs: &Rhs) -> Rhs;

    fn mul(&self, rhs: &Rhs) -> (r: Rhs)
        requires
            exact::<Self::Scalar>(),
            self.apply_req(rhs),
        ensures
            r == self.apply_spec(rhs),
    ;
}

impl<T: Scalar> Transform4 for Mat4<T> {
    type Scalar = T;

    /// A 4×4 matrix stands for itself.
    open spec fn matrix(&self) -> Mat4<T> {
        *self
    }

    fn new(
        c0r0: T,
        c1r0: T,
        c2r0: T,
        c3r0: T,
        c0r1: T,
        c1r1: T,
        c2r1: T,
        c3r1: T,
        c0r2: T,
        c1r2: T,
        c2r2: T,
        c3r2: T,
    ) -> (m: Mat4<T>) {
        Mat4::from_columns(
            Vec4::from([c0r0, c0r1, c0r2, lit(0)]),
            Vec4::from([c1r0, c1r1, c1r2, lit(0)]),
            Vec4::from([c2r0, c2r1, c2r2, lit(0)]),
            Vec4::from([c3r0, c3r1, c3r2, lit(1)]),
        )
    }

    fn from_columns(a: Vec3<T>, b: Vec3<T>, c: Vec3<T>, p: Vec3<T>) -> (m: Mat4<T>) {
        Mat4::from_columns(a.extend(lit(0)), b.extend(lit(0)), c.extend(lit(0)), p.extend(lit(1)))
    }

    fn get_translation(&self) -> (t: Vec3<T>) {
        self.d.xyz()
    }

    fn set_translation(&mut self, t: Vec3<T>) {
        self.d.x = t.x;
        self.d.y = t.y;
        self.d.z = t.z;
    }

    open spec fn affine_invert_req(&self) -> bool {
        let a = self.a.xyz_spec();
        let b = self.b.xyz_spec();
        let c = self.c.xyz_spec();
        let d = self.d.xyz_spec();
        let s0 = a.cross_spec(b);
        let t0 = c.cross_spec(d);
        let det = s0.dot_spec(&c);
        let inv_det = lit_spec::<T>(1).div_spec(det);
        let s = s0.mul_spec(inv_det);
        let t = t0.mul_spec(inv_det);
        let v = c.mul_spec(inv_det);
        &&& a.cross_req(b)
        &&& c.cross_req(d)
        &&& s0.dot_req(&c)
        &&& ne_spec(det, lit_spec::<T>(0)) ==> {
            &&& lit_spec::<T>(1).div_req(det)
            &&& s0.mul_req(inv_det)
            &&& t0.mul_req(inv_det)
            &&& c.mul_req(inv_det)
            &&& b.cross_req(v)
            &&& v.cross_req(a)
            &&& b.dot_req(&t)
            &&& b.dot_spec(&t).neg_req()
            &&& a.dot_req(&t)
            &&& d.dot_req(&s)
            &&& d.dot_spec(&s).neg_req()
        }
    }

    /// With `a`, `b`, `c`, `d` the first three components of the columns:
    ///
    /// ```text
    /// s = a × b        t = c × d        det = s · c
    /// ```
    ///
    /// Nothing where `det` equals `0`. Else `s`, `t` and `v = c` are each
    /// scaled by `1 / det`. The lines of the result's linear part are
    /// `b × v`, `v × a` and `s`, so that line `i` has dot product `1` with
    /// column `i` of `self` and `0` with the other two. Its translation is
    /// `(−(b · t), a · t, −(d · s))`, which is the linear part of the
    /// result applied to `−d`. The fourth components are `0, 0, 0, 1`.
    open spec fn affine_invert_spec(&self) -> Option<Mat4<T>> {
        let a = self.a.xyz_spec();
        let b = self.b.xyz_spec();
        let c = self.c.xyz_spec();
        let d = self.d.xyz_spec();
        let det = a.cross_spec(b).dot_spec(&c);
        let inv_det = lit_spec::<T>(1).div_spec(det);
        let s = a.cross_spec(b).mul_spec(inv_det);
        let t = c.cross_spec(d).mul_spec(inv_det);
        let v = c.mul_spec(inv_det);
        let r0 = b.cross_spec(v);
        let r1 = v.cross_spec(a);
        if ne_spec(det, lit_spec::<T>(0)) {
            Some(
                Mat4 {
                    a: Vec4 { x: r0.x, y: r1.x, z: s.x, w: lit_spec::<T>(0) },
                    b: Vec4 { x: r0.y, y: r1.y, z: s.y, w: lit_spec::<T>(0) },
                    c: Vec4 { x: r0.z, y: r1.z, z: s.z, w: lit_spec::<T>(0) },
                    d: Vec4 {
                        x: b.dot_spec(&t).neg_spec(),
                        y: a.dot_spec(&t),
                        z: d.dot_spec(&s).neg_spec(),
                        w: lit_spec::<T>(1),
                    },
                },
            )
        } else {
            None
        }
    }

    fn invert(&self) -> (r: Option<Mat4<T>>) {
        let a = self.a.xyz();
        let b = self.b.xyz();
        let c = self.c.xyz();
        let d = self.d.xyz();

        let s = a.cross(&b);
        let t = c.cross(&d);

        let det = s.dot(&c);

        if det.ne(&lit::<T>(0)) {
            let inv_det = lit::<T>(1) / det;
            let s = s * inv_det;
            let t = t * inv_det;

            let v = c * inv_det;

            let r0 = b.cross(&v);
            let r1 = v.cross(&a);

            Some(
                Self::new(
                    r0.x,
                    r0.y,
                    r0.z,
                    b.dot(&t).neg(),
                    r1.x,
                    r1.y,
                    r1.z,
                    a.dot(&t),
                    s.x,
                    s.y,
                    s.z,
                    d.dot(&s).neg(),
                ),
            )
        } else {
            None
        }
    }

    open spec fn plane_reflection_req(plane: &Plane<T>) -> bool {
        let k = lit_spec::<T>(MINUS_TWO);
        let i = lit_spec::<T>(1);
        let x = plane.x.mul_spec(k);
        let y = plane.y.mul_spec(k);
        let z = plane.z.mul_spec(k);
        &&& plane.x.mul_req(k)
        &&& plane.y.mul_req(k)
        &&& plane.z.mul_req(k)
        &&& x.mul_req(plane.y)
        &&& x.mul_req(plane.z)
        &&& y.mul_req(plane.z)
        &&& x.mul_req(plane.x)
        &&& y.mul_req(plane.y)
        &&& z.mul_req(plane.z)
        &&& x.mul_spec(plane.x).add_req(i)
        &&& y.mul_spec(plane.y).add_req(i)
        &&& z.mul_spec(plane.z).add_req(i)
        &&& x.mul_req(plane.d)
        &&& y.mul_req(plane.d)
        &&& z.mul_req(plane.d)
    }

    /// The Householder reflection with a translation along the normal.
    /// With `n` the normal of the plane, `e = n·(−2)` and `p` the offset,
    /// the columns are
    ///
    /// ```text
    /// (e.x·n.x + 1,  e.x·n.y,      e.x·n.z,      0)
    /// (e.x·n.y,      e.y·n.y + 1,  e.y·n.z,      0)
    /// (e.x·n.z,      e.y·n.z,      e.z·n.z + 1,  0)
    /// (e.x·p,        e.y·p,        e.z·p,        1)
    /// ```
    open spec fn plane_reflection_spec(plane: &Plane<T>) -> Mat4<T> {
        let k = lit_spec::<T>(MINUS_TWO);
        let i = lit_spec::<T>(1);
        let o = lit_spec::<T>(0);
        let x = plane.x.mul_spec(k);
        let y = plane.y.mul_spec(k);
        let z = plane.z.mul_spec(k);
        let xy = x.mul_spec(plane.y);
        let xz = x.mul_spec(plane.z);
        let yz = y.mul_spec(plane.z);
        Mat4 {
            a: Vec4 { x: x.mul_spec(plane.x).add_spec(i), y: xy, z: xz, w: o },
            b: Vec4 { x: xy, y: y.mul_spec(plane.y).add_spec(i), z: yz, w: o },
            c: Vec4 { x: xz, y: yz, z: z.mul_spec(plane.z).add_spec(i), w: o },
            d: Vec4 {
                x: x.mul_spec(plane.d),
                y: y.mul_spec(plane.d),
                z: z.mul_spec(plane.d),
                w: i,
            },
        }
    }

    fn make_reflection(plane: &Plane<T>) -> (m: Mat4<T>) {
        let x = plane.x * lit::<T>(MINUS_TWO);
        let y = plane.y * lit::<T>(MINUS_TWO);
        let z = plane.z * lit::<T>(MINUS_TWO);
        let xy = x * plane.y;
        let xz = x * plane.z;
        let yz = y * plane.z;
        Self::new(
            x * plane.x + lit::<T>(1),
            xy,
            xz,
            x * plane.d,
            xy,
            y * plane.y + lit::<T>(1),
            yz,
            y * plane.d,
            xz,
            yz,
            z * plane.z + lit::<T>(1),
            z * plane.d,
        )
    }
}

impl<T: Scalar> Mat4<T> {
    /// What the sum of three products `p·a + q·b + r·c` needs.
    pub open spec fn sum3_req(p: T, a: T, q: T, b: T, r: T, c: T) -> bool {
        &&& p.mul_req(a)
        &&& q.mul_req(b)
        &&& r.mul_req(c)
        &&& p.mul_spec(a).add_req(q.mul_spec(b))
        &&& p.mul_spec(a).add_spec(q.mul_spec(b)).add_req(r.mul_spec(c))
    }

    /// The sum of three products `p·a + q·b + r·c`, taken from the left.
    pub open spec fn sum3_spec(p: T, a: T, q: T, b: T, r: T, c: T) -> T {
        p.mul_spec(a).add_spec(q.mul_spec(b)).add_spec(r.mul_spec(c))
    }

    /// What applying the linear part to `v` needs: its three sums.
    pub open spec fn carry_req(self, v: Vec3<T>) -> bool {
        &&& Self::sum3_req(self.a.x, v.x, self.b.x, v.y, self.c.x, v.z)
        &&& Self::sum3_req(self.a.y, v.x, self.b.y, v.y, self.c.y, v.z)
        &&& Self::sum3_req(self.a.z, v.x, self.b.z, v.y, self.c.z, v.z)
    }

    /// The linear part applied to the vector `v`: the columns combined
    /// with the components of `v`, `a·v.x + b·v.y + c·v.z`. The
    /// translation and the fourth components take no part.
    pub open spec fn carry_spec(self, v: Vec3<T>) -> Vec3<T> {
        Vec3 {
            x: Self::sum3_spec(self.a.x, v.x, self.b.x, v.y, self.c.x, v.z),
            y: Self::sum3_spec(self.a.y, v.x, self.b.y, v.y, self.c.y, v.z),
            z: Self::sum3_spec(self.a.z, v.x, self.b.z, v.y, self.c.z, v.z),
        }
    }

    /// What applying the transform to the point `p` needs: the linear part
    /// applied to it, and the addition of the translation.
    pub open spec fn place_req(self, p: Vec3<T>) -> bool {
        let q = self.carry_spec(p);
        &&& self.carry_req(p)
        &&& q.x.add_req(self.d.x)
        &&& q.y.add_req(self.d.y)
        &&& q.z.add_req(self.d.z)
    }

    /// The transform applied to the point `p`: the linear part applied to
    /// `p`, plus the translation.
    pub open spec fn place_spec(self, p: Vec3<T>) -> Vec3<T> {
        let q = self.carry_spec(p);
        Vec3 { x: q.x.add_spec(self.d.x), y: q.y.add_spec(self.d.y), z: q.z.add_spec(self.d.z) }
    }
}

impl<T: Scalar> T4Mul for Mat4<T> {
    open spec fn apply_req(&self, b: &Mat4<T>) -> bool {
        &&& self.carry_req(b.a.xyz_spec())
        &&& self.carry_req(b.b.xyz_spec())
        &&& self.carry_req(b.c.xyz_spec())
        &&& self.place_req(b.d.xyz_spec())
    }

    /// The composition of two transforms, `b` first and `self` after it.
    /// Each column of its linear part is the linear part of `self` applied
    /// to that column of `b`, its translation is `self` applied to the
    /// translation of `b`, and its fourth components are `0, 0, 0, 1`.
    open spec fn apply_spec(&self, b: &Mat4<T>) -> Mat4<T> {
        let p = self.carry_spec(b.a.xyz_spec());
        let q = self.carry_spec(b.b.xyz_spec());
        let r = self.carry_spec(b.c.xyz_spec());
        let t = self.place_spec(b.d.xyz_spec());
        Mat4 {
            a: Vec4 { x: p.x, y: p.y, z: p.z, w: lit_spec::<T>(0) },
            b: Vec4 { x: q.x, y: q.y, z: q.z, w: lit_spec::<T>(0) },
            c: Vec4 { x: r.x, y: r.y, z: r.z, w: lit_spec::<T>(0) },
            d: Vec4 { x: t.x, y: t.y, z: t.z, w: lit_spec::<T>(1) },
        }
    }

    fn mul(&self, b: &Mat4<T>) -> (r: Mat4<T>) {
        let a = self;
        Transform4::new(
            a[0][0] * b[0][0] + a[1][0] * b[0][1] + a[2][0] * b[0][2],
            a[0][0] * b[1][0] + a[1][0] * b[1][1] + a[2][0] * b[1][2],
            a[0][0] * b[2][0] + a[1][0] * b[2][1] + a[2][0] * b[2][2],
            a[0][0] * b[3][0] + a[1][0] * b[3][1] + a[2][0] * b[3][2] + a[3][0],
            a[0][1] * b[0][0] + a[1][1] * b[0][1] + a[2][1] * b[0][2],
            a[0][1] * b[1][0] + a[1][1] * b[1][1] + a[2][1] * b[1][2],
            a[0][1] * b[2][0] + a[1][1] * b[2][1] + a[2][1] * b[2][2],
            a[0][1] * b[3][0] + a[1][1] * b[3][1] + a[2][1] * b[3][2] + a[3][1],
            a[0][2] * b[0][0] + a[1][2] * b[0][1] + a[2][2] * b[0][2],
            a[0][2] * b[1][0] + a[1][2] * b[1][1] + a[2][2] * b[1][2],
            a[0][2] * b[2][0] + a[1][2] * b[2][1] + a[2][2] * b[2][2],
            a[0][2] * b[3][0] + a[1][2] * b[3][1] + a[2][2] * b[3][2] + a[3][2],
        )
    }
}

impl<T: Scalar> T4Mul<Plane<T>> for Mat4<T> {
    open spec fn apply_req(&self, f: &Plane<T>) -> bool {
        let n = f.normal_spec();
        &&& n.dot_req(&self.a.xyz_spec())
        &&& n.dot_req(&self.b.xyz_spec())
        &&& n.dot_req(&self.c.xyz_spec())
        &&& n.dot_req(&self.d.xyz_spec())
        &&& n.dot_spec(&self.d.xyz_spec()).add_req(f.d)
    }

    /// The plane whose points the transform carries onto `f`. With `n` the
    /// normal of `f`, coefficient `j` of the result is the dot product of
    /// `n` with column `j` of the linear part, and the offset is the dot
    /// product of `n` with the translation, plus the offset of `f`. The
    /// fourth components take no part.
    open spec fn apply_spec(&self, f: &Plane<T>) -> Plane<T> {
        let n = f.normal_spec();
        Plane {
            x: n.dot_spec(&self.a.xyz_spec()),
            y: n.dot_spec(&self.b.xyz_spec()),
            z: n.dot_spec(&self.c.xyz_spec()),
            d: n.dot_spec(&self.d.xyz_spec()).add_spec(f.d),
        }
    }

    fn mul(&self, f: &Plane<T>) -> (r: Plane<T>) {
        let h = self;
        Plane::new(
            f.x * h[0][0] + f.y * h[0][1] + f.z * h[0][2],
            f.x * h[1][0] + f.y * h[1][1] + f.z * h[1][2],
            f.x * h[2][0] + f.y * h[2][1] + f.z * h[2][2],
            f.x * h[3][0] + f.y * h[3][1] + f.z * h[3][2] + f.d,
        )
    }
}

} // verus!
