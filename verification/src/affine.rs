//! Laws of affine transforms over a field: what composing them means, that
//! the identity is neutral, that the inverse undoes the transform, and what
//! a plane carried by a transform holds.

use crate::field::ax_add_assoc;
use crate::field::ax_add_comm;
use crate::field::ax_add_neg;
use crate::field::ax_add_zero;
use crate::field::ax_div;
use crate::field::ax_eq;
use crate::field::ax_mul_comm;
use crate::field::ax_mul_one;
use crate::field::is_field;
use crate::field::lemma_mul_zero;
use crate::field::lemma_neg_mul;
use crate::field::lemma_one_mul;
use crate::field::lemma_zero_add;
use crate::field::lemma_zero_mul;
use crate::linear::lemma_cross_orthogonal_first;
use crate::linear::lemma_cross_orthogonal_second;
use crate::linear::lemma_cross_scale_left;
use crate::linear::lemma_cross_scale_right;
use crate::linear::lemma_dot_add_right;
use crate::linear::lemma_dot_comm;
use crate::linear::lemma_dot_scale_left;
use crate::linear::lemma_dot_scale_right;
use crate::linear::lemma_triple_rotate;
use crate::linear::lemma_triple_transposed;
use crate::linear::lemma_triple_swap;
use crate::mat4::Mat4;
use crate::plane::Plane;
use crate::pt3::Pt3;
use crate::scalar::lit_spec;
use crate::scalar::Scalar;
use crate::structure::EuclideanSpace;
use crate::structure::SquareMat;
use crate::transform4::T4Mul;
use crate::transform4::Transform4;
use crate::vec3::Vec3;
use vstd::prelude::*;
use vstd::std_specs::ops::AddSpec;
use vstd::std_specs::ops::DivSpec;
use vstd::std_specs::ops::MulSpec;
use vstd::std_specs::ops::NegSpec;

verus! {

/// The linear part of the identity leaves every vector as it is.
proof fn lemma_identity_carries<T: Scalar>(v: Vec3<T>)
    requires
        is_field::<T>(),
    ensures
        Mat4::<T>::identity_spec().carry_spec(v) == v,
{
    let o = lit_spec::<T>(0);
    lemma_one_mul(v.x);
    lemma_one_mul(v.y);
    lemma_one_mul(v.z);
    lemma_zero_mul(v.x);
    lemma_zero_mul(v.y);
    lemma_zero_mul(v.z);
    ax_add_zero(v.x);
    ax_add_zero(v.y);
    ax_add_zero(o);
    lemma_zero_add(v.y);
    lemma_zero_add(v.z);
}

/// The linear part of `m` carries the unit vector along axis `j` to
/// column `j`, and the zero vector to itself.
proof fn lemma_carries_units<T: Scalar>(m: Mat4<T>)
    requires
        is_field::<T>(),
    ensures
        m.carry_spec(Vec3::unit_spec(0)) == m.a.xyz_spec(),
        m.carry_spec(Vec3::unit_spec(1)) == m.b.xyz_spec(),
        m.carry_spec(Vec3::unit_spec(2)) == m.c.xyz_spec(),
        m.carry_spec(Vec3::zero_spec()) == Vec3::<T>::zero_spec(),
{
    let o = lit_spec::<T>(0);
    ax_add_zero(o);
    lemma_carries_units_line(m.a.x, m.b.x, m.c.x);
    lemma_carries_units_line(m.a.y, m.b.y, m.c.y);
    lemma_carries_units_line(m.a.z, m.b.z, m.c.z);
}

/// One line `(p, q, r)` of a linear part against the three unit vectors
/// and the zero vector.
proof fn lemma_carries_units_line<T: Scalar>(p: T, q: T, r: T)
    requires
        is_field::<T>(),
    ensures
        ({
            let (o, i) = (lit_spec::<T>(0), lit_spec::<T>(1));
            &&& Mat4::sum3_spec(p, i, q, o, r, o) == p
            &&& Mat4::sum3_spec(p, o, q, i, r, o) == q
            &&& Mat4::sum3_spec(p, o, q, o, r, i) == r
            &&& Mat4::sum3_spec(p, o, q, o, r, o) == o
        }),
{
    let o = lit_spec::<T>(0);
    ax_mul_one(p);
    ax_mul_one(q);
    ax_mul_one(r);
    lemma_mul_zero(p);
    lemma_mul_zero(q);
    lemma_mul_zero(r);
    ax_add_zero(p);
    ax_add_zero(q);
    ax_add_zero(o);
    lemma_zero_add(q);
    lemma_zero_add(r);
}

/// Composing with the identity, before or after, gives the transform
/// back.
///
/// This holds over a field, for every matrix whose fourth components are
/// `0, 0, 0, 1`. Of any other matrix the composition keeps the twelve
/// entries that count and sets those four.
pub proof fn lemma_identity_is_neutral<T: Scalar>(m: Mat4<T>)
    requires
        is_field::<T>(),
        m.is_affine(lit_spec::<T>(0), lit_spec::<T>(1)),
    ensures
        Mat4::<T>::identity_spec().apply_spec(&m) == m,
        m.apply_spec(&Mat4::<T>::identity_spec()) == m,
{
    lemma_identity_carries(m.a.xyz_spec());
    lemma_identity_carries(m.b.xyz_spec());
    lemma_identity_carries(m.c.xyz_spec());
    lemma_identity_carries(m.d.xyz_spec());
    ax_add_zero(m.d.x);
    ax_add_zero(m.d.y);
    ax_add_zero(m.d.z);
    lemma_carries_units(m);
    lemma_zero_add(m.d.x);
    lemma_zero_add(m.d.y);
    lemma_zero_add(m.d.z);
}

/// The linear part of a composition is the product of the linear parts,
/// and its translation is the first transform applied to the translation
/// of the second.
pub proof fn lemma_composition_is_product<T: Scalar>(m: Mat4<T>, n: Mat4<T>)
    requires
        is_field::<T>(),
    ensures
        ({
            let r = m.apply_spec(&n);
            &&& Mat4::minor_spec(r.a, r.b, r.c) == Mat4::minor_spec(m.a, m.b, m.c).mul_spec(
                Mat4::minor_spec(n.a, n.b, n.c),
            )
            &&& r.d.xyz_spec() == m.place_spec(n.d.xyz_spec())
            &&& r.is_affine(lit_spec::<T>(0), lit_spec::<T>(1))
        }),
{
    lemma_zero_add(m.a.x.mul_spec(n.a.x));
    lemma_zero_add(m.a.y.mul_spec(n.a.x));
    lemma_zero_add(m.a.z.mul_spec(n.a.x));
    lemma_zero_add(m.a.x.mul_spec(n.b.x));
    lemma_zero_add(m.a.y.mul_spec(n.b.x));
    lemma_zero_add(m.a.z.mul_spec(n.b.x));
    lemma_zero_add(m.a.x.mul_spec(n.c.x));
    lemma_zero_add(m.a.y.mul_spec(n.c.x));
    lemma_zero_add(m.a.z.mul_spec(n.c.x));
    let l = Mat4::minor_spec(m.a, m.b, m.c);
    assert(l.product_column_spec(n.a.xyz_spec()) == m.carry_spec(n.a.xyz_spec()));
    assert(l.product_column_spec(n.b.xyz_spec()) == m.carry_spec(n.b.xyz_spec()));
    assert(l.product_column_spec(n.c.xyz_spec()) == m.carry_spec(n.c.xyz_spec()));
}

/// The determinant of the linear part, by which the inversion divides.
spec fn det_of<T: Scalar>(m: Mat4<T>) -> T {
    m.a.xyz_spec().cross_spec(m.b.xyz_spec()).dot_spec(&m.c.xyz_spec())
}

/// The linear part of the inverse applied to a vector `k`, the values
/// `g0`, `g1`, `g2` being the dot products of `k` with the unscaled lines.
proof fn lemma_inverse_carries<T: Scalar>(m: Mat4<T>, k: Vec3<T>, g0: T, g1: T, g2: T)
    requires
        is_field::<T>(),
        m.affine_invert_spec() is Some,
        ({
            let a = m.a.xyz_spec();
            let b = m.b.xyz_spec();
            let c = m.c.xyz_spec();
            &&& g0 == b.cross_spec(c).dot_spec(&k)
            &&& g1 == c.cross_spec(a).dot_spec(&k)
            &&& g2 == a.cross_spec(b).dot_spec(&k)
        }),
    ensures
        ({
            let i = lit_spec::<T>(1).div_spec(det_of(m));
            m.affine_invert_spec().unwrap().carry_spec(k) == (Vec3 {
                x: g0.mul_spec(i),
                y: g1.mul_spec(i),
                z: g2.mul_spec(i),
            })
        }),
{
    let a = m.a.xyz_spec();
    let b = m.b.xyz_spec();
    let c = m.c.xyz_spec();
    let i = lit_spec::<T>(1).div_spec(det_of(m));
    lemma_cross_scale_right(b, c, i);
    lemma_cross_scale_left(c, i, a);
    lemma_dot_scale_left(b.cross_spec(c), i, k);
    lemma_dot_scale_left(c.cross_spec(a), i, k);
    lemma_dot_scale_left(a.cross_spec(b), i, k);
    let n = m.affine_invert_spec().unwrap();
    let r0 = b.cross_spec(c).mul_spec(i);
    let r1 = c.cross_spec(a).mul_spec(i);
    let s = a.cross_spec(b).mul_spec(i);
    assert(n.carry_spec(k).x == r0.dot_spec(&k));
    assert(n.carry_spec(k).y == r1.dot_spec(&k));
    assert(n.carry_spec(k).z == s.dot_spec(&k));
}

/// One line `l` of a linear part against a column of the inverse, which
/// is a cross product `k` of two lines scaled by `i`: the dot product is
/// that of `k` with `l`, scaled.
proof fn lemma_line_against_inverse<T: Scalar>(l: Vec3<T>, k: Vec3<T>, i: T, g: T)
    requires
        is_field::<T>(),
        k.dot_spec(&l) == g,
    ensures
        l.dot_spec(&k.mul_spec(i)) == g.mul_spec(i),
{
    lemma_dot_scale_right(l, k, i);
    lemma_dot_comm(l, k);
}

/// A transform, composed with its inverse, has the linear part of the
/// identity.
proof fn lemma_inverse_is_undone_linear<T: Scalar>(m: Mat4<T>)
    requires
        is_field::<T>(),
        m.affine_invert_spec() is Some,
    ensures
        ({
            let n = m.affine_invert_spec().unwrap();
            &&& m.carry_spec(n.a.xyz_spec()) == Vec3::<T>::unit_spec(0)
            &&& m.carry_spec(n.b.xyz_spec()) == Vec3::<T>::unit_spec(1)
            &&& m.carry_spec(n.c.xyz_spec()) == Vec3::<T>::unit_spec(2)
        }),
{
    let o = lit_spec::<T>(0);
    let one = lit_spec::<T>(1);
    let a = m.a.xyz_spec();
    let b = m.b.xyz_spec();
    let c = m.c.xyz_spec();
    let det = det_of(m);
    let i = one.div_spec(det);
    let n = m.affine_invert_spec().unwrap();
    ax_eq(det, o);
    ax_div(one, det);
    ax_mul_comm(det, i);
    lemma_zero_mul(i);
    lemma_cross_scale_right(b, c, i);
    lemma_cross_scale_left(c, i, a);
    // the lines of the linear part
    let p = Vec3 { x: a.x, y: b.x, z: c.x };
    let q = Vec3 { x: a.y, y: b.y, z: c.y };
    let r = Vec3 { x: a.z, y: b.z, z: c.z };
    // the columns of the inverse, unscaled, are cross products of lines
    ax_mul_comm(b.z, c.y);
    ax_mul_comm(c.z, a.y);
    ax_mul_comm(a.z, b.y);
    ax_mul_comm(b.x, c.z);
    ax_mul_comm(c.x, a.z);
    ax_mul_comm(a.x, b.z);
    ax_mul_comm(b.y, c.x);
    ax_mul_comm(c.y, a.x);
    ax_mul_comm(a.y, b.x);
    let qr = q.cross_spec(r);
    let rp = r.cross_spec(p);
    let pq = p.cross_spec(q);
    assert(n.a.xyz_spec() == qr.mul_spec(i));
    assert(n.b.xyz_spec() == rp.mul_spec(i));
    assert(n.c.xyz_spec() == pq.mul_spec(i));
    // the determinant of the lines is that of the columns
    lemma_triple_transposed(a, b, c);
    lemma_triple_rotate(p, q, r);
    lemma_triple_rotate(q, r, p);
    // the first column
    lemma_cross_orthogonal_first(q, r);
    lemma_cross_orthogonal_second(q, r);
    lemma_line_against_inverse(p, qr, i, det);
    lemma_line_against_inverse(q, qr, i, o);
    lemma_line_against_inverse(r, qr, i, o);
    // the second column
    lemma_cross_orthogonal_first(r, p);
    lemma_cross_orthogonal_second(r, p);
    lemma_line_against_inverse(p, rp, i, o);
    lemma_line_against_inverse(q, rp, i, det);
    lemma_line_against_inverse(r, rp, i, o);
    // the third column
    lemma_cross_orthogonal_first(p, q);
    lemma_cross_orthogonal_second(p, q);
    lemma_line_against_inverse(p, pq, i, o);
    lemma_line_against_inverse(q, pq, i, o);
    lemma_line_against_inverse(r, pq, i, det);
    assert(m.carry_spec(n.a.xyz_spec()).x == p.dot_spec(&n.a.xyz_spec()));
    assert(m.carry_spec(n.a.xyz_spec()).y == q.dot_spec(&n.a.xyz_spec()));
    assert(m.carry_spec(n.a.xyz_spec()).z == r.dot_spec(&n.a.xyz_spec()));
    assert(m.carry_spec(n.b.xyz_spec()).x == p.dot_spec(&n.b.xyz_spec()));
    assert(m.carry_spec(n.b.xyz_spec()).y == q.dot_spec(&n.b.xyz_spec()));
    assert(m.carry_spec(n.b.xyz_spec()).z == r.dot_spec(&n.b.xyz_spec()));
    assert(m.carry_spec(n.c.xyz_spec()).x == p.dot_spec(&n.c.xyz_spec()));
    assert(m.carry_spec(n.c.xyz_spec()).y == q.dot_spec(&n.c.xyz_spec()));
    assert(m.carry_spec(n.c.xyz_spec()).z == r.dot_spec(&n.c.xyz_spec()));
}

/// A transform, composed with its inverse, is the identity: applying the
/// inverse and then the transform leaves every point where it was.
///
/// This holds over a field, for every matrix whose linear part has a
/// determinant other than `0`. The fourth components of the matrix take
/// no part.
pub proof fn lemma_inverse_is_undone<T: Scalar>(m: Mat4<T>)
    requires
        is_field::<T>(),
        m.affine_invert_spec() is Some,
    ensures
        m.apply_spec(&m.affine_invert_spec().unwrap()) == Mat4::<T>::identity_spec(),
{
    let o = lit_spec::<T>(0);
    let n = m.affine_invert_spec().unwrap();
    let d = m.d.xyz_spec();
    let e = n.d.xyz_spec();
    let r = m.apply_spec(&n);
    lemma_inverse_is_undone_linear(m);
    // the linear part of the composition leaves the translation of `m`
    // where it is
    lemma_composition_carries_in_turn(m, n, d);
    lemma_identity_carries(d);
    assert(r.carry_spec(d) == Mat4::<T>::identity_spec().carry_spec(d));
    let k = n.carry_spec(d);
    assert(m.carry_spec(k) == d);
    // the translation of the inverse is what cancels `k`
    lemma_inverse_undoes(m);
    assert(n.place_spec(d) == Vec3::<T>::zero_spec());
    ax_add_comm(k.x, e.x);
    ax_add_comm(k.y, e.y);
    ax_add_comm(k.z, e.z);
    assert(e.add_spec(k) == Vec3::<T>::zero_spec());
    lemma_carry_add(m, e, k);
    lemma_carries_units(m);
    assert(m.carry_spec(e).add_spec(d) == Vec3::<T>::zero_spec());
    assert(m.place_spec(e) == Vec3::<T>::zero_spec());
}

/// The inverse of a transform, composed with the transform, is the
/// identity: applying the transform and then its inverse leaves every
/// point where it was.
///
/// This holds over a field, for every matrix whose linear part has a
/// determinant other than `0`. The fourth components of the matrix take
/// no part.
pub proof fn lemma_inverse_undoes<T: Scalar>(m: Mat4<T>)
    requires
        is_field::<T>(),
        m.affine_invert_spec() is Some,
    ensures
        m.affine_invert_spec().unwrap().apply_spec(&m) == Mat4::<T>::identity_spec(),
{
    let o = lit_spec::<T>(0);
    let one = lit_spec::<T>(1);
    let a = m.a.xyz_spec();
    let b = m.b.xyz_spec();
    let c = m.c.xyz_spec();
    let d = m.d.xyz_spec();
    let det = det_of(m);
    let i = one.div_spec(det);
    let n = m.affine_invert_spec().unwrap();
    ax_eq(det, o);
    ax_div(one, det);
    ax_mul_comm(det, i);
    lemma_zero_mul(i);
    // the column a
    lemma_triple_rotate(a, b, c);
    lemma_cross_orthogonal_second(c, a);
    lemma_cross_orthogonal_first(a, b);
    lemma_inverse_carries(m, a, det, o, o);
    // the column b
    lemma_cross_orthogonal_first(b, c);
    lemma_triple_rotate(c, a, b);
    lemma_cross_orthogonal_second(a, b);
    lemma_inverse_carries(m, b, o, det, o);
    // the column c
    lemma_cross_orthogonal_second(b, c);
    lemma_cross_orthogonal_first(c, a);
    lemma_inverse_carries(m, c, o, o, det);
    // the translation
    let t = c.cross_spec(d);
    let s = a.cross_spec(b);
    let g0 = b.cross_spec(c).dot_spec(&d);
    let g1 = c.cross_spec(a).dot_spec(&d);
    let g2 = s.dot_spec(&d);
    lemma_inverse_carries(m, d, g0, g1, g2);
    lemma_dot_scale_right(b, t, i);
    lemma_dot_scale_right(a, t, i);
    lemma_dot_scale_right(d, s, i);
    // g0 = b · t
    lemma_triple_rotate(b, c, d);
    lemma_dot_comm(b, t);
    ax_add_neg(g0.mul_spec(i));
    // g1 = −(a · t)
    lemma_dot_comm(a, t);
    lemma_triple_rotate(c, d, a);
    lemma_triple_rotate(d, a, c);
    lemma_triple_rotate(a, c, d);
    lemma_triple_swap(a, c, d);
    let z = a.dot_spec(&t);
    lemma_neg_mul(z, i);
    ax_add_comm(z.mul_spec(i).neg_spec(), z.mul_spec(i));
    ax_add_neg(z.mul_spec(i));
    // g2 = d · s
    lemma_dot_comm(d, s);
    ax_add_neg(g2.mul_spec(i));
    assert(n.carry_spec(a) == Vec3::<T>::unit_spec(0));
    assert(n.carry_spec(b) == Vec3::<T>::unit_spec(1));
    assert(n.carry_spec(c) == Vec3::<T>::unit_spec(2));
    assert(n.place_spec(d) == Vec3::<T>::zero_spec());
}

/// The linear part is additive: the sum of two vectors is carried to the
/// sum of what they are carried to.
proof fn lemma_carry_add<T: Scalar>(m: Mat4<T>, u: Vec3<T>, w: Vec3<T>)
    requires
        is_field::<T>(),
    ensures
        m.carry_spec(u.add_spec(w)) == m.carry_spec(u).add_spec(m.carry_spec(w)),
{
    let l0 = Vec3 { x: m.a.x, y: m.b.x, z: m.c.x };
    let l1 = Vec3 { x: m.a.y, y: m.b.y, z: m.c.y };
    let l2 = Vec3 { x: m.a.z, y: m.b.z, z: m.c.z };
    lemma_dot_add_right(l0, u, w);
    lemma_dot_add_right(l1, u, w);
    lemma_dot_add_right(l2, u, w);
}

/// The linear part is homogeneous: a scaled vector is carried to the
/// scaled image.
proof fn lemma_carry_scale<T: Scalar>(m: Mat4<T>, u: Vec3<T>, k: T)
    requires
        is_field::<T>(),
    ensures
        m.carry_spec(u.mul_spec(k)) == m.carry_spec(u).mul_spec(k),
{
    let l0 = Vec3 { x: m.a.x, y: m.b.x, z: m.c.x };
    let l1 = Vec3 { x: m.a.y, y: m.b.y, z: m.c.y };
    let l2 = Vec3 { x: m.a.z, y: m.b.z, z: m.c.z };
    lemma_dot_scale_right(l0, u, k);
    lemma_dot_scale_right(l1, u, k);
    lemma_dot_scale_right(l2, u, k);
}

/// The linear part of a composition carries a vector as the linear parts
/// of the two transforms do in turn.
proof fn lemma_composition_carries_in_turn<T: Scalar>(m: Mat4<T>, n: Mat4<T>, p: Vec3<T>)
    requires
        is_field::<T>(),
    ensures
        m.apply_spec(&n).carry_spec(p) == m.carry_spec(n.carry_spec(p)),
{
    let a = n.a.xyz_spec();
    let b = n.b.xyz_spec();
    let c = n.c.xyz_spec();
    let ab = a.mul_spec(p.x).add_spec(b.mul_spec(p.y));
    let abc = ab.add_spec(c.mul_spec(p.z));
    assert(n.carry_spec(p) == abc);
    lemma_carry_add(m, ab, c.mul_spec(p.z));
    lemma_carry_add(m, a.mul_spec(p.x), b.mul_spec(p.y));
    lemma_carry_scale(m, a, p.x);
    lemma_carry_scale(m, b, p.y);
    lemma_carry_scale(m, c, p.z);
    let s = m.carry_spec(a).mul_spec(p.x).add_spec(m.carry_spec(b).mul_spec(p.y)).add_spec(
        m.carry_spec(c).mul_spec(p.z),
    );
    assert(m.carry_spec(abc) == s);
    assert(m.apply_spec(&n).carry_spec(p) == s);
}

/// A composition applied to a point is the second transform applied to
/// it, and then the first applied to what that gave.
///
/// This holds over a field.
pub proof fn lemma_composition_applies_in_turn<T: Scalar>(m: Mat4<T>, n: Mat4<T>, p: Vec3<T>)
    requires
        is_field::<T>(),
    ensures
        m.apply_spec(&n).place_spec(p) == m.place_spec(n.place_spec(p)),
{
    let r = m.apply_spec(&n);
    let d = n.d.xyz_spec();
    let e = m.d.xyz_spec();
    let q = n.carry_spec(p);
    assert(n.place_spec(p) == q.add_spec(d));
    lemma_carry_add(m, q, d);
    lemma_composition_carries_in_turn(m, n, p);
    let s = m.carry_spec(q);
    let t = m.carry_spec(d);
    assert(r.place_spec(p) == s.add_spec(t.add_spec(e)));
    assert(m.place_spec(n.place_spec(p)) == s.add_spec(t).add_spec(e));
    ax_add_assoc(s.x, t.x, e.x);
    ax_add_assoc(s.y, t.y, e.y);
    ax_add_assoc(s.z, t.z, e.z);
}

/// A point lies on the plane that a transform carries `f` to exactly when
/// the transform takes it onto `f`: the carried plane, evaluated at `p`,
/// gives what `f` gives at the image of `p`.
///
/// This holds over a field, for every transform: its linear part need not
/// keep lengths.
pub proof fn lemma_plane_holds_what_lands<T: Scalar>(h: Mat4<T>, f: Plane<T>, p: Pt3<T>)
    requires
        is_field::<T>(),
    ensures
        ({
            let q = h.place_spec(Vec3 { x: p.x, y: p.y, z: p.z });
            h.apply_spec(&f).dot_spec(&p) == f.dot_spec(&(Pt3 { x: q.x, y: q.y, z: q.z }))
        }),
{
    let n = f.normal_spec();
    let a = h.a.xyz_spec();
    let b = h.b.xyz_spec();
    let c = h.c.xyz_spec();
    let d = h.d.xyz_spec();
    let v = Vec3 { x: p.x, y: p.y, z: p.z };
    let ab = a.mul_spec(p.x).add_spec(b.mul_spec(p.y));
    let abc = ab.add_spec(c.mul_spec(p.z));
    assert(h.carry_spec(v) == abc);
    assert(h.place_spec(v) == abc.add_spec(d));
    lemma_dot_add_right(n, abc, d);
    lemma_dot_add_right(n, ab, c.mul_spec(p.z));
    lemma_dot_add_right(n, a.mul_spec(p.x), b.mul_spec(p.y));
    lemma_dot_scale_right(n, a, p.x);
    lemma_dot_scale_right(n, b, p.y);
    lemma_dot_scale_right(n, c, p.z);
    let s = n.dot_spec(&a).mul_spec(p.x).add_spec(n.dot_spec(&b).mul_spec(p.y)).add_spec(
        n.dot_spec(&c).mul_spec(p.z),
    );
    assert(n.dot_spec(&h.place_spec(v)) == s.add_spec(n.dot_spec(&d)));
    ax_add_assoc(s, n.dot_spec(&d), f.d);
}

} // verus!
