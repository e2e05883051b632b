//! Dot and cross product over a field: each is linear in either factor,
//! and the cross product is orthogonal to both of its factors.

use crate::field::ax_add_comm;
use crate::field::ax_distrib;
use crate::field::ax_mul_assoc;
use crate::field::ax_mul_comm;
use crate::field::integers_embed;
use crate::field::is_field;
use crate::field::lemma_add_mul;
use crate::field::lemma_add_rotate;
use crate::field::lemma_add_swap;
use crate::field::lemma_factor_out;
use crate::field::lemma_mul_minus_one;
use crate::field::lemma_mul_rotate;
use crate::field::lemma_mul_sub;
use crate::field::lemma_mul_swap_last;
use crate::field::lemma_mul_swap_outer;
use crate::field::lemma_neg_sub;
use crate::field::lemma_sub_add;
use crate::field::lemma_sub_mul;
use crate::field::lemma_sub_self;
use crate::field::lemma_sub_sub;
use crate::scalar::lit_spec;
use crate::scalar::Scalar;
use crate::structure::EuclideanSpace;
use crate::vec3::Vec3;
use vstd::prelude::*;
use vstd::std_specs::ops::AddSpec;
use vstd::std_specs::ops::MulSpec;
use vstd::std_specs::ops::NegSpec;
use vstd::std_specs::ops::SubSpec;

verus! {

/// `p · q = q · p`.
pub proof fn lemma_dot_comm<T: Scalar>(p: Vec3<T>, q: Vec3<T>)
    requires
        is_field::<T>(),
    ensures
        p.dot_spec(&q) == q.dot_spec(&p),
{
    ax_mul_comm(p.x, q.x);
    ax_mul_comm(p.y, q.y);
    ax_mul_comm(p.z, q.z);
}

/// `p · (q·k) = (p · q)·k`.
pub proof fn lemma_dot_scale_right<T: Scalar>(p: Vec3<T>, q: Vec3<T>, k: T)
    requires
        is_field::<T>(),
    ensures
        p.dot_spec(&q.mul_spec(k)) == p.dot_spec(&q).mul_spec(k),
{
    ax_mul_assoc(p.x, q.x, k);
    ax_mul_assoc(p.y, q.y, k);
    ax_mul_assoc(p.z, q.z, k);
    lemma_factor_out(k, p.x.mul_spec(q.x), p.y.mul_spec(q.y), p.z.mul_spec(q.z));
    ax_mul_comm(k, p.dot_spec(&q));
}

/// `(p·k) · q = (p · q)·k`.
pub proof fn lemma_dot_scale_left<T: Scalar>(p: Vec3<T>, k: T, q: Vec3<T>)
    requires
        is_field::<T>(),
    ensures
        p.mul_spec(k).dot_spec(&q) == p.dot_spec(&q).mul_spec(k),
{
    lemma_mul_swap_last(p.x, k, q.x);
    lemma_mul_swap_last(p.y, k, q.y);
    lemma_mul_swap_last(p.z, k, q.z);
    lemma_factor_out(k, p.x.mul_spec(q.x), p.y.mul_spec(q.y), p.z.mul_spec(q.z));
    ax_mul_comm(k, p.dot_spec(&q));
}

/// `p · (q + r) = p · q + p · r`.
pub proof fn lemma_dot_add_right<T: Scalar>(p: Vec3<T>, q: Vec3<T>, r: Vec3<T>)
    requires
        is_field::<T>(),
    ensures
        p.dot_spec(&q.add_spec(r)) == p.dot_spec(&q).add_spec(p.dot_spec(&r)),
{
    let (a1, a2, a3) = (p.x.mul_spec(q.x), p.y.mul_spec(q.y), p.z.mul_spec(q.z));
    let (b1, b2, b3) = (p.x.mul_spec(r.x), p.y.mul_spec(r.y), p.z.mul_spec(r.z));
    ax_distrib(p.x, q.x, r.x);
    ax_distrib(p.y, q.y, r.y);
    ax_distrib(p.z, q.z, r.z);
    lemma_add_swap(a1, b1, a2, b2);
    lemma_add_swap(a1.add_spec(a2), b1.add_spec(b2), a3, b3);
}

/// `p · (q − r) = p · q − p · r`.
pub proof fn lemma_dot_sub_right<T: Scalar>(p: Vec3<T>, q: Vec3<T>, r: Vec3<T>)
    requires
        is_field::<T>(),
    ensures
        p.dot_spec(&q.sub_spec(r)) == p.dot_spec(&q).sub_spec(p.dot_spec(&r)),
{
    let (a1, a2, a3) = (p.x.mul_spec(q.x), p.y.mul_spec(q.y), p.z.mul_spec(q.z));
    let (b1, b2, b3) = (p.x.mul_spec(r.x), p.y.mul_spec(r.y), p.z.mul_spec(r.z));
    lemma_mul_sub(p.x, q.x, r.x);
    lemma_mul_sub(p.y, q.y, r.y);
    lemma_mul_sub(p.z, q.z, r.z);
    lemma_sub_add(a1, b1, a2, b2);
    lemma_sub_add(a1.add_spec(a2), b1.add_spec(b2), a3, b3);
}

/// `a × (b·k) = (a × b)·k`.
pub proof fn lemma_cross_scale_right<T: Scalar>(a: Vec3<T>, b: Vec3<T>, k: T)
    requires
        is_field::<T>(),
    ensures
        a.cross_spec(b.mul_spec(k)) == a.cross_spec(b).mul_spec(k),
{
    ax_mul_assoc(a.y, b.z, k);
    ax_mul_assoc(a.z, b.y, k);
    lemma_sub_mul(a.y.mul_spec(b.z), a.z.mul_spec(b.y), k);
    ax_mul_assoc(a.z, b.x, k);
    ax_mul_assoc(a.x, b.z, k);
    lemma_sub_mul(a.z.mul_spec(b.x), a.x.mul_spec(b.z), k);
    ax_mul_assoc(a.x, b.y, k);
    ax_mul_assoc(a.y, b.x, k);
    lemma_sub_mul(a.x.mul_spec(b.y), a.y.mul_spec(b.x), k);
}

/// `(a·k) × b = (a × b)·k`.
pub proof fn lemma_cross_scale_left<T: Scalar>(a: Vec3<T>, k: T, b: Vec3<T>)
    requires
        is_field::<T>(),
    ensures
        a.mul_spec(k).cross_spec(b) == a.cross_spec(b).mul_spec(k),
{
    lemma_mul_swap_last(a.y, k, b.z);
    lemma_mul_swap_last(a.z, k, b.y);
    lemma_sub_mul(a.y.mul_spec(b.z), a.z.mul_spec(b.y), k);
    lemma_mul_swap_last(a.z, k, b.x);
    lemma_mul_swap_last(a.x, k, b.z);
    lemma_sub_mul(a.z.mul_spec(b.x), a.x.mul_spec(b.z), k);
    lemma_mul_swap_last(a.x, k, b.y);
    lemma_mul_swap_last(a.y, k, b.x);
    lemma_sub_mul(a.x.mul_spec(b.y), a.y.mul_spec(b.x), k);
}

/// `a × (b − c) = a × b − a × c`.
pub proof fn lemma_cross_sub_right<T: Scalar>(a: Vec3<T>, b: Vec3<T>, c: Vec3<T>)
    requires
        is_field::<T>(),
    ensures
        a.cross_spec(b.sub_spec(c)) == a.cross_spec(b).sub_spec(a.cross_spec(c)),
{
    lemma_mul_sub(a.y, b.z, c.z);
    lemma_mul_sub(a.z, b.y, c.y);
    lemma_sub_sub(a.y.mul_spec(b.z), a.y.mul_spec(c.z), a.z.mul_spec(b.y), a.z.mul_spec(c.y));
    lemma_mul_sub(a.z, b.x, c.x);
    lemma_mul_sub(a.x, b.z, c.z);
    lemma_sub_sub(a.z.mul_spec(b.x), a.z.mul_spec(c.x), a.x.mul_spec(b.z), a.x.mul_spec(c.z));
    lemma_mul_sub(a.x, b.y, c.y);
    lemma_mul_sub(a.y, b.x, c.x);
    lemma_sub_sub(a.x.mul_spec(b.y), a.x.mul_spec(c.y), a.y.mul_spec(b.x), a.y.mul_spec(c.x));
}

/// `(a − b) × c = a × c − b × c`.
pub proof fn lemma_cross_sub_left<T: Scalar>(a: Vec3<T>, b: Vec3<T>, c: Vec3<T>)
    requires
        is_field::<T>(),
    ensures
        a.sub_spec(b).cross_spec(c) == a.cross_spec(c).sub_spec(b.cross_spec(c)),
{
    lemma_sub_mul(a.y, b.y, c.z);
    lemma_sub_mul(a.z, b.z, c.y);
    lemma_sub_sub(a.y.mul_spec(c.z), b.y.mul_spec(c.z), a.z.mul_spec(c.y), b.z.mul_spec(c.y));
    lemma_sub_mul(a.z, b.z, c.x);
    lemma_sub_mul(a.x, b.x, c.z);
    lemma_sub_sub(a.z.mul_spec(c.x), b.z.mul_spec(c.x), a.x.mul_spec(c.z), b.x.mul_spec(c.z));
    lemma_sub_mul(a.x, b.x, c.y);
    lemma_sub_mul(a.y, b.y, c.x);
    lemma_sub_sub(a.x.mul_spec(c.y), b.x.mul_spec(c.y), a.y.mul_spec(c.x), b.y.mul_spec(c.x));
}

/// `(p·k)·y = (p·y)·k`.
pub proof fn lemma_scale_swap<T: Scalar>(p: Vec3<T>, k: T, y: T)
    requires
        is_field::<T>(),
    ensures
        p.mul_spec(k).mul_spec(y) == p.mul_spec(y).mul_spec(k),
{
    lemma_mul_swap_last(p.x, k, y);
    lemma_mul_swap_last(p.y, k, y);
    lemma_mul_swap_last(p.z, k, y);
}

/// `p·k + q·k = (p + q)·k`.
pub proof fn lemma_add_scale<T: Scalar>(p: Vec3<T>, q: Vec3<T>, k: T)
    requires
        is_field::<T>(),
    ensures
        p.mul_spec(k).add_spec(q.mul_spec(k)) == p.add_spec(q).mul_spec(k),
{
    lemma_add_mul(p.x, q.x, k);
    lemma_add_mul(p.y, q.y, k);
    lemma_add_mul(p.z, q.z, k);
}

/// `p·k − q·k = (p − q)·k`.
pub proof fn lemma_sub_scale<T: Scalar>(p: Vec3<T>, q: Vec3<T>, k: T)
    requires
        is_field::<T>(),
    ensures
        p.mul_spec(k).sub_spec(q.mul_spec(k)) == p.sub_spec(q).mul_spec(k),
{
    lemma_sub_mul(p.x, q.x, k);
    lemma_sub_mul(p.y, q.y, k);
    lemma_sub_mul(p.z, q.z, k);
}

/// The scalar triple product written out: with `P` the sum of its three
/// positive terms and `N` the sum of its three negative ones,
/// `(a × b) · c = P − N`.
pub proof fn lemma_triple_expand<T: Scalar>(a: Vec3<T>, b: Vec3<T>, c: Vec3<T>)
    requires
        is_field::<T>(),
    ensures
        a.cross_spec(b).dot_spec(&c) == a.y.mul_spec(b.z).mul_spec(c.x).add_spec(
            a.z.mul_spec(b.x).mul_spec(c.y),
        ).add_spec(a.x.mul_spec(b.y).mul_spec(c.z)).sub_spec(
            a.z.mul_spec(b.y).mul_spec(c.x).add_spec(a.x.mul_spec(b.z).mul_spec(c.y)).add_spec(
                a.y.mul_spec(b.x).mul_spec(c.z),
            ),
        ),
{
    let (p1, n1) = (a.y.mul_spec(b.z), a.z.mul_spec(b.y));
    let (p2, n2) = (a.z.mul_spec(b.x), a.x.mul_spec(b.z));
    let (p3, n3) = (a.x.mul_spec(b.y), a.y.mul_spec(b.x));
    lemma_sub_mul(p1, n1, c.x);
    lemma_sub_mul(p2, n2, c.y);
    lemma_sub_mul(p3, n3, c.z);
    lemma_sub_add(p1.mul_spec(c.x), n1.mul_spec(c.x), p2.mul_spec(c.y), n2.mul_spec(c.y));
    lemma_sub_add(
        p1.mul_spec(c.x).add_spec(p2.mul_spec(c.y)),
        n1.mul_spec(c.x).add_spec(n2.mul_spec(c.y)),
        p3.mul_spec(c.z),
        n3.mul_spec(c.z),
    );
}

/// A cross product is orthogonal to its first factor.
///
/// This holds over a field.
pub proof fn lemma_cross_orthogonal_first<T: Scalar>(a: Vec3<T>, b: Vec3<T>)
    requires
        is_field::<T>(),
    ensures
        a.cross_spec(b).dot_spec(&a) == lit_spec::<T>(0),
{
    lemma_triple_expand(a, b, a);
    let p1 = a.y.mul_spec(b.z).mul_spec(a.x);
    let p2 = a.z.mul_spec(b.x).mul_spec(a.y);
    let p3 = a.x.mul_spec(b.y).mul_spec(a.z);
    lemma_mul_swap_outer(a.z, b.y, a.x);
    lemma_mul_swap_outer(a.x, b.z, a.y);
    lemma_mul_swap_outer(a.y, b.x, a.z);
    lemma_add_rotate(p3, p1, p2);
    lemma_sub_self(p1.add_spec(p2).add_spec(p3));
}

/// A cross product is orthogonal to its second factor.
///
/// This holds over a field.
pub proof fn lemma_cross_orthogonal_second<T: Scalar>(a: Vec3<T>, b: Vec3<T>)
    requires
        is_field::<T>(),
    ensures
        a.cross_spec(b).dot_spec(&b) == lit_spec::<T>(0),
{
    lemma_triple_expand(a, b, b);
    let p1 = a.y.mul_spec(b.z).mul_spec(b.x);
    let p2 = a.z.mul_spec(b.x).mul_spec(b.y);
    let p3 = a.x.mul_spec(b.y).mul_spec(b.z);
    lemma_mul_swap_last(a.z, b.y, b.x);
    lemma_mul_swap_last(a.x, b.z, b.y);
    lemma_mul_swap_last(a.y, b.x, b.z);
    lemma_add_rotate(p1, p2, p3);
    lemma_sub_self(p1.add_spec(p2).add_spec(p3));
}

/// The scalar triple product `(a × b) · c` is unchanged when its three
/// vectors are rotated.
///
/// This holds over a field.
pub proof fn lemma_triple_rotate<T: Scalar>(a: Vec3<T>, b: Vec3<T>, c: Vec3<T>)
    requires
        is_field::<T>(),
    ensures
        a.cross_spec(b).dot_spec(&c) == b.cross_spec(c).dot_spec(&a),
{
    lemma_triple_expand(a, b, c);
    lemma_triple_expand(b, c, a);
    lemma_mul_rotate(a.y, b.z, c.x);
    lemma_mul_rotate(a.z, b.x, c.y);
    lemma_mul_rotate(a.x, b.y, c.z);
    lemma_mul_rotate(a.z, b.y, c.x);
    lemma_mul_rotate(a.x, b.z, c.y);
    lemma_mul_rotate(a.y, b.x, c.z);
    lemma_add_rotate(
        b.y.mul_spec(c.z).mul_spec(a.x),
        b.z.mul_spec(c.x).mul_spec(a.y),
        b.x.mul_spec(c.y).mul_spec(a.z),
    );
    lemma_add_rotate(
        b.y.mul_spec(c.x).mul_spec(a.z),
        b.z.mul_spec(c.y).mul_spec(a.x),
        b.x.mul_spec(c.z).mul_spec(a.y),
    );
}

/// Swapping the factors of the cross product turns the sign of the triple
/// product: `(b × a) · c = −((a × b) · c)`.
///
/// This holds over a field.
pub proof fn lemma_triple_swap<T: Scalar>(a: Vec3<T>, b: Vec3<T>, c: Vec3<T>)
    requires
        is_field::<T>(),
    ensures
        b.cross_spec(a).dot_spec(&c) == a.cross_spec(b).dot_spec(&c).neg_spec(),
{
    lemma_triple_expand(a, b, c);
    lemma_triple_expand(b, a, c);
    ax_mul_comm(b.y, a.z);
    ax_mul_comm(b.z, a.x);
    ax_mul_comm(b.x, a.y);
    ax_mul_comm(b.z, a.y);
    ax_mul_comm(b.x, a.z);
    ax_mul_comm(b.y, a.x);
    let p = a.y.mul_spec(b.z).mul_spec(c.x).add_spec(a.z.mul_spec(b.x).mul_spec(c.y)).add_spec(
        a.x.mul_spec(b.y).mul_spec(c.z),
    );
    let n = a.z.mul_spec(b.y).mul_spec(c.x).add_spec(a.x.mul_spec(b.z).mul_spec(c.y)).add_spec(
        a.y.mul_spec(b.x).mul_spec(c.z),
    );
    lemma_neg_sub(p, n);
}

/// The scalar triple product of the columns `a`, `b`, `c` is that of the
/// lines they form: a determinant does not change when the matrix is
/// transposed.
///
/// This holds over a field.
pub proof fn lemma_triple_transposed<T: Scalar>(a: Vec3<T>, b: Vec3<T>, c: Vec3<T>)
    requires
        is_field::<T>(),
    ensures
        ({
            let p = Vec3 { x: a.x, y: b.x, z: c.x };
            let q = Vec3 { x: a.y, y: b.y, z: c.y };
            let r = Vec3 { x: a.z, y: b.z, z: c.z };
            p.cross_spec(q).dot_spec(&r) == a.cross_spec(b).dot_spec(&c)
        }),
{
    let p = Vec3 { x: a.x, y: b.x, z: c.x };
    let q = Vec3 { x: a.y, y: b.y, z: c.y };
    let r = Vec3 { x: a.z, y: b.z, z: c.z };
    lemma_triple_expand(a, b, c);
    lemma_triple_expand(p, q, r);
    lemma_mul_rotate(a.z, b.x, c.y);
    lemma_mul_rotate(c.x, a.y, b.z);
    ax_add_comm(a.y.mul_spec(b.z).mul_spec(c.x), a.z.mul_spec(b.x).mul_spec(c.y));
    lemma_mul_swap_outer(c.x, b.y, a.z);
    lemma_mul_swap_last(a.x, c.y, b.z);
    ax_mul_comm(b.x, a.y);
}

/// Negating a vector negates each of its components.
///
/// This holds over a field into which `-1` is taken up as the negative of
/// `1`.
pub proof fn lemma_neg_is_negation<T: Scalar>(v: Vec3<T>)
    requires
        is_field::<T>(),
        integers_embed::<T>(),
    ensures
        v.neg_spec() == (Vec3 { x: v.x.neg_spec(), y: v.y.neg_spec(), z: v.z.neg_spec() }),
{
    lemma_mul_minus_one(v.x);
    lemma_mul_minus_one(v.y);
    lemma_mul_minus_one(v.z);
}

/// Trading the factors of a cross product negates it: `b × a = −(a × b)`.
///
/// This holds over a field into which `-1` is taken up as the negative of
/// `1`.
pub proof fn lemma_cross_swap<T: Scalar>(a: Vec3<T>, b: Vec3<T>)
    requires
        is_field::<T>(),
        integers_embed::<T>(),
    ensures
        b.cross_spec(a) == a.cross_spec(b).neg_spec(),
{
    lemma_neg_is_negation(a.cross_spec(b));
    lemma_neg_sub(a.y.mul_spec(b.z), a.z.mul_spec(b.y));
    lemma_neg_sub(a.z.mul_spec(b.x), a.x.mul_spec(b.z));
    lemma_neg_sub(a.x.mul_spec(b.y), a.y.mul_spec(b.x));
    ax_mul_comm(b.y, a.z);
    ax_mul_comm(b.z, a.y);
    ax_mul_comm(b.z, a.x);
    ax_mul_comm(b.x, a.z);
    ax_mul_comm(b.x, a.y);
    ax_mul_comm(b.y, a.x);
}

} // verus!
