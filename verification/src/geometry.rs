//! Distances and intersections between points, lines and planes.
//!
//! A line is given by a point on it and a direction. Each function that
//! divides first tests its denominator with [`exceeds`] against a bound
//! `tiny` that the caller supplies. The bound meant is the smallest
//! positive normal value of the scalar type: a razor-thin threshold, which
//! tells an exact zero from the rest and gives no shelter from inputs that
//! are merely close to degenerate.
//!
//! The two distances are returned squared; the caller takes the root.

use crate::plane::Plane;
use crate::pt3::Pt3;
use crate::scalar::exact;
use crate::scalar::exceeds;
use crate::scalar::exceeds_req;
use crate::scalar::exceeds_spec;
use crate::scalar::lit;
use crate::scalar::lit_spec;
use crate::scalar::Scalar;
use crate::structure::norm2_spec;
use crate::structure::EuclideanSpace;
use crate::structure::VecSpace;
use crate::vec3::Vec3;
use vstd::prelude::*;
use vstd::std_specs::ops::AddSpec;
use vstd::std_specs::ops::DivSpec;
use vstd::std_specs::ops::MulSpec;
use vstd::std_specs::ops::SubSpec;

verus! {

/// The vector from `p` to `q`.
pub open spec fn between_spec<T: Scalar>(p: Pt3<T>, q: Pt3<T>) -> Vec3<T> {
    let d = q.sub_spec(p);
    Vec3 { x: d.x, y: d.y, z: d.z }
}

/// What [`sqr_dst_pt_line`] needs of its operands.
pub open spec fn sqr_dst_pt_line_req<T: Scalar>(q: Pt3<T>, p: Pt3<T>, v: Vec3<T>) -> bool {
    let a = between_spec(p, q).cross_spec(v);
    &&& q.sub_req(p)
    &&& between_spec(p, q).cross_req(v)
    &&& a.dot_req(&a)
    &&& v.dot_req(&v)
    &&& a.dot_spec(&a).div_req(norm2_spec(v))
}

/// `|(q − p) × v|² / |v|²`.
pub open spec fn sqr_dst_pt_line_spec<T: Scalar>(q: Pt3<T>, p: Pt3<T>, v: Vec3<T>) -> T {
    let a = between_spec(p, q).cross_spec(v);
    a.dot_spec(&a).div_spec(norm2_spec(v))
}

/// The squared distance of the point `q` from the line through `p` along
/// `v`.
///
/// Nothing guards a `v` of length zero: the division is left to the
/// scalar type.
pub fn sqr_dst_pt_line<T: Scalar>(q: &Pt3<T>, p: &Pt3<T>, v: &Vec3<T>) -> (r: T)
    requires
        exact::<T>(),
        sqr_dst_pt_line_req(*q, *p, *v),
    ensures
        r == sqr_dst_pt_line_spec(*q, *p, *v),
{
    let a = Vec3::from(*q - *p).cross(v);
    a.dot(&a) / v.norm2()
}

/// The determinant that tells whether two directions are parallel:
/// `(v1 · v2)² − |v1|²·|v2|²`.
pub open spec fn gram_spec<T: Scalar>(v1: Vec3<T>, v2: Vec3<T>) -> T {
    let v1v2 = v1.dot_spec(&v2);
    v1v2.mul_spec(v1v2).sub_spec(norm2_spec(v1).mul_spec(norm2_spec(v2)))
}

/// What [`sqr_dst_line_line`] needs of its operands.
pub open spec fn sqr_dst_line_line_req<T: Scalar>(
    p1: Pt3<T>,
    v1: Vec3<T>,
    p2: Pt3<T>,
    v2: Vec3<T>,
    tiny: T,
) -> bool {
    let dp = between_spec(p1, p2);
    let v12 = norm2_spec(v1);
    let v22 = norm2_spec(v2);
    let v1v2 = v1.dot_spec(&v2);
    let det = gram_spec(v1, v2);
    &&& p2.sub_req(p1)
    &&& v1.dot_req(&v1)
    &&& v2.dot_req(&v2)
    &&& v1.dot_req(&v2)
    &&& v1v2.mul_req(v1v2)
    &&& v12.mul_req(v22)
    &&& v1v2.mul_spec(v1v2).sub_req(v12.mul_spec(v22))
    &&& exceeds_req(det, tiny)
    &&& if exceeds_spec(det, tiny) {
        let inv = lit_spec::<T>(1).div_spec(det);
        let dpv1 = dp.dot_spec(&v1);
        let dpv2 = dp.dot_spec(&v2);
        let t1 = v1v2.mul_spec(dpv2).sub_spec(v22.mul_spec(dpv1)).mul_spec(inv);
        let t2 = v12.mul_spec(dpv2).sub_spec(v1v2.mul_spec(dpv1)).mul_spec(inv);
        let w = dp.add_spec(v2.mul_spec(t2)).sub_spec(v1.mul_spec(t1));
        &&& lit_spec::<T>(1).div_req(det)
        &&& dp.dot_req(&v1)
        &&& dp.dot_req(&v2)
        &&& v1v2.mul_req(dpv2)
        &&& v22.mul_req(dpv1)
        &&& v1v2.mul_spec(dpv2).sub_req(v22.mul_spec(dpv1))
        &&& v1v2.mul_spec(dpv2).sub_spec(v22.mul_spec(dpv1)).mul_req(inv)
        &&& v12.mul_req(dpv2)
        &&& v1v2.mul_req(dpv1)
        &&& v12.mul_spec(dpv2).sub_req(v1v2.mul_spec(dpv1))
        &&& v12.mul_spec(dpv2).sub_spec(v1v2.mul_spec(dpv1)).mul_req(inv)
        &&& v2.mul_req(t2)
        &&& v1.mul_req(t1)
        &&& dp.add_req(v2.mul_spec(t2))
        &&& dp.add_spec(v2.mul_spec(t2)).sub_req(v1.mul_spec(t1))
        &&& w.dot_req(&w)
    } else {
        let a = dp.cross_spec(v1);
        &&& dp.cross_req(v1)
        &&& a.dot_req(&a)
        &&& a.dot_spec(&a).div_req(v12)
    }
}

/// With `dp = p2 − p1` and `det` the determinant of [`gram_spec`]:
///
/// - where the magnitude of `det` is above `tiny`, the lines are not
///   parallel, and the result is `|dp + v2·t2 − v1·t1|²` with
///   `t1 = ((v1·v2)(dp·v2) − |v2|²(dp·v1)) / det` and
///   `t2 = (|v1|²(dp·v2) − (v1·v2)(dp·v1)) / det`,
///   each division being a product with `1 / det`;
/// - else the lines count as parallel, and the result is
///   `|dp × v1|² / |v1|²`.
pub open spec fn sqr_dst_line_line_spec<T: Scalar>(
    p1: Pt3<T>,
    v1: Vec3<T>,
    p2: Pt3<T>,
    v2: Vec3<T>,
    tiny: T,
) -> T {
    let dp = between_spec(p1, p2);
    let v12 = norm2_spec(v1);
    let v22 = norm2_spec(v2);
    let v1v2 = v1.dot_spec(&v2);
    let det = gram_spec(v1, v2);
    if exceeds_spec(det, tiny) {
        let inv = lit_spec::<T>(1).div_spec(det);
        let dpv1 = dp.dot_spec(&v1);
        let dpv2 = dp.dot_spec(&v2);
        let t1 = v1v2.mul_spec(dpv2).sub_spec(v22.mul_spec(dpv1)).mul_spec(inv);
        let t2 = v12.mul_spec(dpv2).sub_spec(v1v2.mul_spec(dpv1)).mul_spec(inv);
        norm2_spec(dp.add_spec(v2.mul_spec(t2)).sub_spec(v1.mul_spec(t1)))
    } else {
        let a = dp.cross_spec(v1);
        a.dot_spec(&a).div_spec(v12)
    }
}

/// The squared distance between the line through `p1` along `v1` and the
/// line through `p2` along `v2`.
pub fn sqr_dst_line_line<T: Scalar>(
    p1: &Pt3<T>,
    v1: &Vec3<T>,
    p2: &Pt3<T>,
    v2: &Vec3<T>,
    tiny: T,
) -> (r: T)
    requires
        exact::<T>(),
        sqr_dst_line_line_req(*p1, *v1, *p2, *v2, tiny),
    ensures
        r == sqr_dst_line_line_spec(*p1, *v1, *p2, *v2, tiny),
{
    let dp = Vec3::from(*p2 - *p1);
    let v12 = v1.norm2();
    let v22 = v2.norm2();
    let v1v2 = v1.dot(v2);
    let det = v1v2 * v1v2 - v12 * v22;
    if exceeds(det, tiny) {
        let det = lit::<T>(1) / det;
        let dpv1 = dp.dot(v1);
        let dpv2 = dp.dot(v2);
        let t1 = (v1v2 * dpv2 - v22 * dpv1) * det;
        let t2 = (v12 * dpv2 - v1v2 * dpv1) * det;
        (dp + *v2 * t2 - *v1 * t1).norm2()
    } else {
        let a = dp.cross(v1);
        a.dot(&a) / v12
    }
}

/// What [`intersect_line_plane`] needs of its operands.
pub open spec fn intersect_line_plane_req<T: Scalar>(
    p: Pt3<T>,
    v: Vec3<T>,
    f: Plane<T>,
    tiny: T,
) -> bool {
    let fv = f.dot_spec(&v);
    let fp = f.dot_spec(&p);
    &&& f.dot_req(&v)
    &&& exceeds_req(fv, tiny)
    &&& exceeds_spec(fv, tiny) ==> {
        &&& f.dot_req(&p)
        &&& fp.div_req(fv)
        &&& v.mul_req(fp.div_spec(fv))
        &&& p.sub_req(v.mul_spec(fp.div_spec(fv)))
    }
}

/// Nothing where the magnitude of `f · v` is not above `tiny`: the line
/// counts as parallel to the plane. Else the point
/// `p − v·((f · p) / (f · v))`.
pub open spec fn intersect_line_plane_spec<T: Scalar>(
    p: Pt3<T>,
    v: Vec3<T>,
    f: Plane<T>,
    tiny: T,
) -> Option<Pt3<T>> {
    let fv = f.dot_spec(&v);
    let fp = f.dot_spec(&p);
    if exceeds_spec(fv, tiny) {
        Some(p.sub_spec(v.mul_spec(fp.div_spec(fv))))
    } else {
        None
    }
}

/// The point where the line through `p` along `v` meets the plane `f`, if
/// there is one such point.
pub fn intersect_line_plane<T: Scalar>(
    p: &Pt3<T>,
    v: &Vec3<T>,
    f: &Plane<T>,
    tiny: T,
) -> (r: Option<Pt3<T>>)
    requires
        exact::<T>(),
        intersect_line_plane_req(*p, *v, *f, tiny),
    ensures
        r == intersect_line_plane_spec(*p, *v, *f, tiny),
{
    let fv = f.dot(v);
    if exceeds(fv, tiny) {
        let q = *p - *v * (f.dot(p) / fv);
        Some(q)
    } else {
        None
    }
}

/// The point that stands at the components of `v`.
pub open spec fn at_spec<T>(v: Vec3<T>) -> Pt3<T> {
    Pt3 { x: v.x, y: v.y, z: v.z }
}

/// What [`intersect_three_planes`] needs of its operands.
pub open spec fn intersect_three_planes_req<T: Scalar>(
    f1: Plane<T>,
    f2: Plane<T>,
    f3: Plane<T>,
    tiny: T,
) -> bool {
    let n1 = f1.normal_spec();
    let n2 = f2.normal_spec();
    let n3 = f3.normal_spec();
    let n1xn2 = n1.cross_spec(n2);
    let det = n1xn2.dot_spec(&n3);
    &&& n1.cross_req(n2)
    &&& n1xn2.dot_req(&n3)
    &&& exceeds_req(det, tiny)
    &&& exceeds_spec(det, tiny) ==> {
        let n3xn2 = n3.cross_spec(n2);
        let n1xn3 = n1.cross_spec(n3);
        let s = n3xn2.mul_spec(f1.d).add_spec(n1xn3.mul_spec(f2.d));
        &&& n3.cross_req(n2)
        &&& n1.cross_req(n3)
        &&& n3xn2.mul_req(f1.d)
        &&& n1xn3.mul_req(f2.d)
        &&& n1xn2.mul_req(f3.d)
        &&& n3xn2.mul_spec(f1.d).add_req(n1xn3.mul_spec(f2.d))
        &&& s.sub_req(n1xn2.mul_spec(f3.d))
        &&& s.sub_spec(n1xn2.mul_spec(f3.d)).div_req(det)
    }
}

/// With `n1`, `n2`, `n3` the normals and `det = (n1 × n2) · n3`: nothing
/// where the magnitude of `det` is not above `tiny`, the normals then
/// counting as lying in one plane. Else the point at
/// `((n3 × n2)·d1 + (n1 × n3)·d2 − (n1 × n2)·d3) / det`.
pub open spec fn intersect_three_planes_spec<T: Scalar>(
    f1: Plane<T>,
    f2: Plane<T>,
    f3: Plane<T>,
    tiny: T,
) -> Option<Pt3<T>> {
    let n1 = f1.normal_spec();
    let n2 = f2.normal_spec();
    let n3 = f3.normal_spec();
    let n1xn2 = n1.cross_spec(n2);
    let det = n1xn2.dot_spec(&n3);
    if exceeds_spec(det, tiny) {
        let n3xn2 = n3.cross_spec(n2);
        let n1xn3 = n1.cross_spec(n3);
        let p = n3xn2.mul_spec(f1.d).add_spec(n1xn3.mul_spec(f2.d)).sub_spec(
            n1xn2.mul_spec(f3.d),
        ).div_spec(det);
        Some(at_spec(p))
    } else {
        None
    }
}

/// The one point that lies on all three planes, if there is one such
/// point.
pub fn intersect_three_planes<T: Scalar>(
    f1: &Plane<T>,
    f2: &Plane<T>,
    f3: &Plane<T>,
    tiny: T,
) -> (r: Option<Pt3<T>>)
    requires
        exact::<T>(),
        intersect_three_planes_req(*f1, *f2, *f3, tiny),
    ensures
        r == intersect_three_planes_spec(*f1, *f2, *f3, tiny),
{
    let n1 = f1.normal();
    let n2 = f2.normal();
    let n3 = f3.normal();
    let n1xn2 = n1.cross(&n2);
    let det = n1xn2.dot(&n3);
    if exceeds(det, tiny) {
        let n3xn2 = n3.cross(&n2);
        let n1xn3 = n1.cross(&n3);
        let p = (n3xn2 * f1.d + n1xn3 * f2.d - n1xn2 * f3.d) / det;
        Some(Pt3::from(p))
    } else {
        None
    }
}

/// What [`intersect_two_planes`] needs of its operands.
pub open spec fn intersect_two_planes_req<T: Scalar>(f1: Plane<T>, f2: Plane<T>, tiny: T) -> bool {
    let n1 = f1.normal_spec();
    let n2 = f2.normal_spec();
    let v = n1.cross_spec(n2);
    let det = norm2_spec(v);
    &&& n1.cross_req(n2)
    &&& v.dot_req(&v)
    &&& exceeds_req(det, tiny)
    &&& exceeds_spec(det, tiny) ==> {
        let vxn2 = v.cross_spec(n2);
        let n1xv = n1.cross_spec(v);
        &&& v.cross_req(n2)
        &&& n1.cross_req(v)
        &&& vxn2.mul_req(f1.d)
        &&& n1xv.mul_req(f2.d)
        &&& vxn2.mul_spec(f1.d).add_req(n1xv.mul_spec(f2.d))
        &&& vxn2.mul_spec(f1.d).add_spec(n1xv.mul_spec(f2.d)).div_req(det)
    }
}

/// With `v = n1 × n2` and `det = |v|²`: nothing where the magnitude of
/// `det` is not above `tiny`, the planes then counting as parallel. Else
/// the line through the point at `((v × n2)·d1 + (n1 × v)·d2) / det`
/// along `v`.
pub open spec fn intersect_two_planes_spec<T: Scalar>(
    f1: Plane<T>,
    f2: Plane<T>,
    tiny: T,
) -> Option<(Pt3<T>, Vec3<T>)> {
    let n1 = f1.normal_spec();
    let n2 = f2.normal_spec();
    let v = n1.cross_spec(n2);
    let det = norm2_spec(v);
    if exceeds_spec(det, tiny) {
        let vxn2 = v.cross_spec(n2);
        let n1xv = n1.cross_spec(v);
        let p = vxn2.mul_spec(f1.d).add_spec(n1xv.mul_spec(f2.d)).div_spec(det);
        Some((at_spec(p), v))
    } else {
        None
    }
}

/// The line in which the two planes meet, as a point on it and its
/// direction, if they meet in a line.
pub fn intersect_two_planes<T: Scalar>(f1: &Plane<T>, f2: &Plane<T>, tiny: T) -> (r: Option<
    (Pt3<T>, Vec3<T>),
>)
    requires
        exact::<T>(),
        intersect_two_planes_req(*f1, *f2, tiny),
    ensures
        r == intersect_two_planes_spec(*f1, *f2, tiny),
{
    let n1 = f1.normal();
    let n2 = f2.normal();
    let v = n1.cross(&n2);
    let det = v.norm2();
    if exceeds(det, tiny) {
        let vxn2 = v.cross(&n2);
        let n1xv = n1.cross(&v);
        let p = (vxn2 * f1.d + n1xv * f2.d) / det;
        Some((Pt3::from(p), v))
    } else {
        None
    }
}

} // verus!
