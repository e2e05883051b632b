//! What the intersections return lies where it should, over a field.

use crate::field::ax_add_comm;
use crate::field::ax_add_neg;
use crate::field::ax_add_zero;
use crate::field::ax_div;
use crate::field::ax_mul_assoc;
use crate::field::ax_mul_comm;
use crate::field::ax_mul_one;
use crate::field::is_field;
use crate::field::lemma_add_to_minuend;
use crate::field::lemma_factor_out;
use crate::field::lemma_mul_sub;
use crate::field::lemma_neg_mul;
use crate::field::lemma_sub_add;
use crate::field::lemma_sub_self;
use crate::field::lemma_sub_zero;
use crate::field::lemma_zero_add;
use crate::field::lemma_zero_mul;
use crate::field::lemma_zero_sub;
use crate::geometry::intersect_line_plane_spec;
use crate::geometry::intersect_three_planes_spec;
use crate::geometry::intersect_two_planes_spec;
use crate::linear::lemma_cross_orthogonal_first;
use crate::linear::lemma_cross_orthogonal_second;
use crate::linear::lemma_dot_add_right;
use crate::linear::lemma_dot_comm;
use crate::linear::lemma_dot_scale_right;
use crate::linear::lemma_dot_sub_right;
use crate::linear::lemma_triple_rotate;
use crate::linear::lemma_triple_swap;
use crate::plane::Plane;
use crate::pt3::Pt3;
use crate::scalar::lit_spec;
use crate::scalar::Scalar;
use crate::structure::EuclideanSpace;
use crate::structure::norm2_spec;
use crate::vec3::Vec3;
use vstd::prelude::*;
use vstd::std_specs::ops::AddSpec;
use vstd::std_specs::ops::DivSpec;
use vstd::std_specs::ops::MulSpec;
use vstd::std_specs::ops::NegSpec;
use vstd::std_specs::ops::SubSpec;

verus! {

/// The point where a line meets a plane lies on the plane.
///
/// This holds over a field, for every line that is not parallel to the
/// plane: `f · v` is not `0`.
pub proof fn lemma_line_meets_plane<T: Scalar>(p: Pt3<T>, v: Vec3<T>, f: Plane<T>, tiny: T)
    requires
        is_field::<T>(),
        f.dot_spec(&v) != lit_spec::<T>(0),
        intersect_line_plane_spec(p, v, f, tiny) is Some,
    ensures
        f.dot_spec(&intersect_line_plane_spec(p, v, f, tiny).unwrap()) == lit_spec::<T>(0),
{
    let fv = f.dot_spec(&v);
    let fp = f.dot_spec(&p);
    let k = fp.div_spec(fv);
    let (a1, a2, a3) = (f.x.mul_spec(p.x), f.y.mul_spec(p.y), f.z.mul_spec(p.z));
    let (b1, b2, b3) = (f.x.mul_spec(v.x), f.y.mul_spec(v.y), f.z.mul_spec(v.z));
    lemma_mul_sub(f.x, p.x, v.x.mul_spec(k));
    lemma_mul_sub(f.y, p.y, v.y.mul_spec(k));
    lemma_mul_sub(f.z, p.z, v.z.mul_spec(k));
    ax_mul_assoc(f.x, v.x, k);
    ax_mul_assoc(f.y, v.y, k);
    ax_mul_assoc(f.z, v.z, k);
    lemma_sub_add(a1, b1.mul_spec(k), a2, b2.mul_spec(k));
    lemma_sub_add(a1.add_spec(a2), b1.mul_spec(k).add_spec(b2.mul_spec(k)), a3, b3.mul_spec(k));
    lemma_factor_out(k, b1, b2, b3);
    lemma_add_to_minuend(
        a1.add_spec(a2).add_spec(a3),
        b1.mul_spec(k).add_spec(b2.mul_spec(k)).add_spec(b3.mul_spec(k)),
        f.d,
    );
    ax_div(fp, fv);
    lemma_sub_self(fp);
}

/// A point `w·(1/det)` lies on the plane with normal `n` and offset `d`
/// where `n · w = −(det·d)`.
proof fn lemma_on_plane<T: Scalar>(n: Vec3<T>, w: Vec3<T>, det: T, d: T)
    requires
        is_field::<T>(),
        det != lit_spec::<T>(0),
        n.dot_spec(&w) == det.mul_spec(d).neg_spec(),
    ensures
        n.dot_spec(&w.div_spec(det)).add_spec(d) == lit_spec::<T>(0),
{
    let i = lit_spec::<T>(1).div_spec(det);
    lemma_dot_scale_right(n, w, i);
    lemma_neg_mul(det.mul_spec(d), i);
    ax_mul_comm(det, d);
    ax_mul_assoc(d, det, i);
    ax_div(lit_spec::<T>(1), det);
    ax_mul_comm(i, det);
    ax_mul_one(d);
    ax_add_comm(d.neg_spec(), d);
    ax_add_neg(d);
}

/// `n · (a·d1 + b·d2 − c·d3)` in the three dot products of `n`.
proof fn lemma_combination3<T: Scalar>(
    n: Vec3<T>,
    a: Vec3<T>,
    d1: T,
    b: Vec3<T>,
    d2: T,
    c: Vec3<T>,
    d3: T,
)
    requires
        is_field::<T>(),
    ensures
        n.dot_spec(&a.mul_spec(d1).add_spec(b.mul_spec(d2)).sub_spec(c.mul_spec(d3)))
            == n.dot_spec(&a).mul_spec(d1).add_spec(n.dot_spec(&b).mul_spec(d2)).sub_spec(
            n.dot_spec(&c).mul_spec(d3),
        ),
{
    lemma_dot_sub_right(n, a.mul_spec(d1).add_spec(b.mul_spec(d2)), c.mul_spec(d3));
    lemma_dot_add_right(n, a.mul_spec(d1), b.mul_spec(d2));
    lemma_dot_scale_right(n, a, d1);
    lemma_dot_scale_right(n, b, d2);
    lemma_dot_scale_right(n, c, d3);
}

/// `((−t)·d + 0·e) − 0·g = −(t·d)`.
proof fn lemma_first_only<T: Scalar>(t: T, d: T, e: T, g: T)
    requires
        is_field::<T>(),
    ensures
        ({
            let o = lit_spec::<T>(0);
            t.neg_spec().mul_spec(d).add_spec(o.mul_spec(e)).sub_spec(o.mul_spec(g))
        }) == t.mul_spec(d).neg_spec(),
{
    lemma_neg_mul(t, d);
    lemma_zero_mul(e);
    lemma_zero_mul(g);
    ax_add_zero(t.mul_spec(d).neg_spec());
    lemma_sub_zero(t.mul_spec(d).neg_spec());
}

/// `(0·e + (−t)·d) − 0·g = −(t·d)`.
proof fn lemma_second_only<T: Scalar>(t: T, d: T, e: T, g: T)
    requires
        is_field::<T>(),
    ensures
        ({
            let o = lit_spec::<T>(0);
            o.mul_spec(e).add_spec(t.neg_spec().mul_spec(d)).sub_spec(o.mul_spec(g))
        }) == t.mul_spec(d).neg_spec(),
{
    lemma_neg_mul(t, d);
    lemma_zero_mul(e);
    lemma_zero_mul(g);
    lemma_zero_add(t.mul_spec(d).neg_spec());
    lemma_sub_zero(t.mul_spec(d).neg_spec());
}

/// `(0·e + 0·g) − t·d = −(t·d)`.
proof fn lemma_third_only<T: Scalar>(t: T, d: T, e: T, g: T)
    requires
        is_field::<T>(),
    ensures
        ({
            let o = lit_spec::<T>(0);
            o.mul_spec(e).add_spec(o.mul_spec(g)).sub_spec(t.mul_spec(d))
        }) == t.mul_spec(d).neg_spec(),
{
    lemma_zero_mul(e);
    lemma_zero_mul(g);
    ax_add_zero(lit_spec::<T>(0));
    lemma_zero_sub(t.mul_spec(d));
}

/// The point where three planes meet lies on each of them.
///
/// This holds over a field, for every three planes whose normals do not
/// lie in one plane: `(n1 × n2) · n3` is not `0`.
pub proof fn lemma_three_planes_meet<T: Scalar>(f1: Plane<T>, f2: Plane<T>, f3: Plane<T>, tiny: T)
    requires
        is_field::<T>(),
        f1.normal_spec().cross_spec(f2.normal_spec()).dot_spec(&f3.normal_spec())
            != lit_spec::<T>(0),
        intersect_three_planes_spec(f1, f2, f3, tiny) is Some,
    ensures
        ({
            let p = intersect_three_planes_spec(f1, f2, f3, tiny).unwrap();
            &&& f1.dot_spec(&p) == lit_spec::<T>(0)
            &&& f2.dot_spec(&p) == lit_spec::<T>(0)
            &&& f3.dot_spec(&p) == lit_spec::<T>(0)
        }),
{
    let (n1, n2, n3) = (f1.normal_spec(), f2.normal_spec(), f3.normal_spec());
    let (a, b, c) = (n3.cross_spec(n2), n1.cross_spec(n3), n1.cross_spec(n2));
    let det = c.dot_spec(&n3);
    let w = a.mul_spec(f1.d).add_spec(b.mul_spec(f2.d)).sub_spec(c.mul_spec(f3.d));
    // against the first plane
    lemma_combination3(n1, a, f1.d, b, f2.d, c, f3.d);
    lemma_dot_comm(n1, a);
    lemma_triple_swap(n2, n3, n1);
    lemma_triple_rotate(n1, n2, n3);
    lemma_dot_comm(n1, b);
    lemma_cross_orthogonal_first(n1, n3);
    lemma_dot_comm(n1, c);
    lemma_cross_orthogonal_first(n1, n2);
    lemma_first_only(det, f1.d, f2.d, f3.d);
    lemma_on_plane(n1, w, det, f1.d);
    // against the second plane
    lemma_combination3(n2, a, f1.d, b, f2.d, c, f3.d);
    lemma_dot_comm(n2, a);
    lemma_cross_orthogonal_second(n3, n2);
    lemma_dot_comm(n2, b);
    lemma_triple_swap(n3, n1, n2);
    lemma_triple_rotate(n3, n1, n2);
    lemma_dot_comm(n2, c);
    lemma_cross_orthogonal_second(n1, n2);
    lemma_second_only(det, f2.d, f1.d, f3.d);
    lemma_on_plane(n2, w, det, f2.d);
    // against the third plane
    lemma_combination3(n3, a, f1.d, b, f2.d, c, f3.d);
    lemma_dot_comm(n3, a);
    lemma_cross_orthogonal_first(n3, n2);
    lemma_dot_comm(n3, b);
    lemma_cross_orthogonal_second(n1, n3);
    lemma_dot_comm(n3, c);
    lemma_third_only(det, f3.d, f1.d, f2.d);
    lemma_on_plane(n3, w, det, f3.d);
}

/// The line in which two planes meet lies in both: its point lies on
/// each plane and its direction is orthogonal to each normal.
///
/// This holds over a field, for every two planes that are not parallel:
/// the squared length of `n1 × n2` is not `0`.
pub proof fn lemma_two_planes_meet<T: Scalar>(f1: Plane<T>, f2: Plane<T>, tiny: T)
    requires
        is_field::<T>(),
        norm2_spec(f1.normal_spec().cross_spec(f2.normal_spec())) != lit_spec::<T>(0),
        intersect_two_planes_spec(f1, f2, tiny) is Some,
    ensures
        ({
            let (p, v) = intersect_two_planes_spec(f1, f2, tiny).unwrap();
            &&& f1.dot_spec(&p) == lit_spec::<T>(0)
            &&& f2.dot_spec(&p) == lit_spec::<T>(0)
            &&& f1.dot_spec(&v) == lit_spec::<T>(0)
            &&& f2.dot_spec(&v) == lit_spec::<T>(0)
        }),
{
    let o = lit_spec::<T>(0);
    let (n1, n2) = (f1.normal_spec(), f2.normal_spec());
    let v = n1.cross_spec(n2);
    let det = norm2_spec(v);
    let (a, b) = (v.cross_spec(n2), n1.cross_spec(v));
    let w = a.mul_spec(f1.d).add_spec(b.mul_spec(f2.d));
    // the direction
    lemma_dot_comm(n1, v);
    lemma_cross_orthogonal_first(n1, n2);
    lemma_dot_comm(n2, v);
    lemma_cross_orthogonal_second(n1, n2);
    // (v × n2) · n1 = (n1 × v) · n2 = −(v · v)
    lemma_triple_rotate(v, n2, n1);
    lemma_triple_swap(n1, n2, v);
    lemma_triple_rotate(n1, v, n2);
    // against the first plane
    lemma_dot_add_right(n1, a.mul_spec(f1.d), b.mul_spec(f2.d));
    lemma_dot_scale_right(n1, a, f1.d);
    lemma_dot_scale_right(n1, b, f2.d);
    lemma_dot_comm(n1, a);
    lemma_dot_comm(n1, b);
    lemma_cross_orthogonal_first(n1, v);
    lemma_neg_mul(det, f1.d);
    lemma_zero_mul(f2.d);
    ax_add_zero(det.mul_spec(f1.d).neg_spec());
    lemma_on_plane(n1, w, det, f1.d);
    // against the second plane
    lemma_dot_add_right(n2, a.mul_spec(f1.d), b.mul_spec(f2.d));
    lemma_dot_scale_right(n2, a, f1.d);
    lemma_dot_scale_right(n2, b, f2.d);
    lemma_dot_comm(n2, a);
    lemma_cross_orthogonal_second(v, n2);
    lemma_dot_comm(n2, b);
    lemma_neg_mul(det, f2.d);
    lemma_zero_mul(f1.d);
    lemma_zero_add(det.mul_spec(f2.d).neg_spec());
    lemma_on_plane(n2, w, det, f2.d);
}

} // verus!
