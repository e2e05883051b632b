//! The determinant and the inverse of a 4×4 matrix over a field.

use crate::field::ax_add_assoc;
use crate::field::ax_add_comm;
use crate::field::ax_add_neg;
use crate::field::ax_add_zero;
use crate::field::ax_div;
use crate::field::ax_eq;
use crate::field::ax_mul_assoc;
use crate::field::ax_mul_comm;
use crate::field::ax_sub;
use crate::field::is_field;
use crate::field::lemma_add_mul;
use crate::field::lemma_mul_neg;
use crate::field::lemma_neg_mul;
use crate::field::lemma_neg_neg;
use crate::field::lemma_sub_self;
use crate::field::lemma_sub_zero;
use crate::field::lemma_zero_add;
use crate::field::lemma_zero_mul;
use crate::field::lemma_zero_sub;
use crate::inverse3::lemma_determinant_is_triple;
use crate::linear::lemma_add_scale;
use crate::linear::lemma_cross_orthogonal_first;
use crate::linear::lemma_cross_orthogonal_second;
use crate::linear::lemma_cross_scale_left;
use crate::linear::lemma_cross_scale_right;
use crate::linear::lemma_cross_sub_left;
use crate::linear::lemma_cross_sub_right;
use crate::linear::lemma_dot_add_right;
use crate::linear::lemma_dot_comm;
use crate::linear::lemma_dot_scale_right;
use crate::linear::lemma_dot_sub_right;
use crate::linear::lemma_scale_swap;
use crate::linear::lemma_sub_scale;
use crate::linear::lemma_triple_rotate;
use crate::linear::lemma_triple_swap;
use crate::mat4::Mat4;
use crate::scalar::lit_spec;
use crate::scalar::Scalar;
use crate::structure::EuclideanSpace;
use crate::structure::Mat;
use crate::structure::SquareMat;
use crate::vec3::Vec3;
use crate::vec4::Vec4;
use vstd::prelude::*;
use vstd::std_specs::ops::AddSpec;
use vstd::std_specs::ops::DivSpec;
use vstd::std_specs::ops::MulSpec;
use vstd::std_specs::ops::NegSpec;
use vstd::std_specs::ops::SubSpec;

verus! {

/// A scale common to both terms of `b × (v·i) + (t·i)·y` can be taken
/// out.
proof fn lemma_factor_plus<T: Scalar>(b: Vec3<T>, v: Vec3<T>, t: Vec3<T>, y: T, i: T)
    requires
        is_field::<T>(),
    ensures
        b.cross_spec(v.mul_spec(i)).add_spec(t.mul_spec(i).mul_spec(y)) == b.cross_spec(
            v,
        ).add_spec(t.mul_spec(y)).mul_spec(i),
{
    lemma_cross_scale_right(b, v, i);
    lemma_scale_swap(t, i, y);
    lemma_add_scale(b.cross_spec(v), t.mul_spec(y), i);
}

/// A scale common to both terms of `(v·i) × a − (t·i)·x` can be taken
/// out.
proof fn lemma_factor_minus<T: Scalar>(v: Vec3<T>, a: Vec3<T>, t: Vec3<T>, x: T, i: T)
    requires
        is_field::<T>(),
    ensures
        v.mul_spec(i).cross_spec(a).sub_spec(t.mul_spec(i).mul_spec(x)) == v.cross_spec(
            a,
        ).sub_spec(t.mul_spec(x)).mul_spec(i),
{
    lemma_cross_scale_left(v, i, a);
    lemma_scale_swap(t, i, x);
    lemma_sub_scale(v.cross_spec(a), t.mul_spec(x), i);
}

/// A scale common to both terms of `p · (r·i) + q·(e·i)` can be taken
/// out.
pub proof fn lemma_factor_entry<T: Scalar>(p: Vec3<T>, q: T, r: Vec3<T>, e: T, i: T)
    requires
        is_field::<T>(),
    ensures
        p.dot_spec(&r.mul_spec(i)).add_spec(q.mul_spec(e.mul_spec(i))) == p.dot_spec(&r).add_spec(
            q.mul_spec(e),
        ).mul_spec(i),
{
    lemma_dot_scale_right(p, r, i);
    ax_mul_assoc(q, e, i);
    lemma_add_mul(p.dot_spec(&r), q.mul_spec(e), i);
}

/// `p · (b × (c·w − d·z))` written out in triple products.
proof fn lemma_expand_right<T: Scalar>(p: Vec3<T>, b: Vec3<T>, c: Vec3<T>, w: T, d: Vec3<T>, z: T)
    requires
        is_field::<T>(),
    ensures
        p.dot_spec(&b.cross_spec(c.mul_spec(w).sub_spec(d.mul_spec(z)))) == p.dot_spec(
            &b.cross_spec(c),
        ).mul_spec(w).sub_spec(p.dot_spec(&b.cross_spec(d)).mul_spec(z)),
{
    lemma_cross_sub_right(b, c.mul_spec(w), d.mul_spec(z));
    lemma_cross_scale_right(b, c, w);
    lemma_cross_scale_right(b, d, z);
    lemma_dot_sub_right(p, b.cross_spec(c).mul_spec(w), b.cross_spec(d).mul_spec(z));
    lemma_dot_scale_right(p, b.cross_spec(c), w);
    lemma_dot_scale_right(p, b.cross_spec(d), z);
}

/// `p · ((c·w − d·z) × a)` written out in triple products.
proof fn lemma_expand_left<T: Scalar>(p: Vec3<T>, c: Vec3<T>, w: T, d: Vec3<T>, z: T, a: Vec3<T>)
    requires
        is_field::<T>(),
    ensures
        p.dot_spec(&c.mul_spec(w).sub_spec(d.mul_spec(z)).cross_spec(a)) == p.dot_spec(
            &c.cross_spec(a),
        ).mul_spec(w).sub_spec(p.dot_spec(&d.cross_spec(a)).mul_spec(z)),
{
    lemma_cross_sub_left(c.mul_spec(w), d.mul_spec(z), a);
    lemma_cross_scale_left(c, w, a);
    lemma_cross_scale_left(d, z, a);
    lemma_dot_sub_right(p, c.cross_spec(a).mul_spec(w), d.cross_spec(a).mul_spec(z));
    lemma_dot_scale_right(p, c.cross_spec(a), w);
    lemma_dot_scale_right(p, d.cross_spec(a), z);
}

/// `t · (a·y − b·x)` written out.
proof fn lemma_expand_dot<T: Scalar>(t: Vec3<T>, a: Vec3<T>, y: T, b: Vec3<T>, x: T)
    requires
        is_field::<T>(),
    ensures
        t.dot_spec(&a.mul_spec(y).sub_spec(b.mul_spec(x))) == t.dot_spec(&a).mul_spec(y).sub_spec(
            t.dot_spec(&b).mul_spec(x),
        ),
{
    lemma_dot_sub_right(t, a.mul_spec(y), b.mul_spec(x));
    lemma_dot_scale_right(t, a, y);
    lemma_dot_scale_right(t, b, x);
}

/// `((p − q) + r) + (−(x·s)) = (p − q) + (r − s·x)`.
proof fn lemma_shape_a<T: Scalar>(p: T, q: T, r: T, x: T, s: T)
    requires
        is_field::<T>(),
    ensures
        p.sub_spec(q).add_spec(r).add_spec(x.mul_spec(s).neg_spec()) == p.sub_spec(q).add_spec(
            r.sub_spec(s.mul_spec(x)),
        ),
{
    ax_mul_comm(x, s);
    ax_add_assoc(p.sub_spec(q), r, s.mul_spec(x).neg_spec());
    ax_sub(r, s.mul_spec(x));
}

/// `((p − q) − s·x) + y·g = (p − q) + (g·y − s·x)`.
proof fn lemma_shape_b<T: Scalar>(p: T, q: T, s: T, x: T, y: T, g: T)
    requires
        is_field::<T>(),
    ensures
        p.sub_spec(q).sub_spec(s.mul_spec(x)).add_spec(y.mul_spec(g)) == p.sub_spec(q).add_spec(
            g.mul_spec(y).sub_spec(s.mul_spec(x)),
        ),
{
    let n = s.mul_spec(x).neg_spec();
    ax_mul_comm(y, g);
    ax_sub(p.sub_spec(q), s.mul_spec(x));
    ax_add_assoc(p.sub_spec(q), n, g.mul_spec(y));
    ax_add_comm(n, g.mul_spec(y));
    ax_sub(g.mul_spec(y), s.mul_spec(x));
}

/// `((r − s) + p) + (−(z·b)) = (p − b·z) + (r − s)`.
proof fn lemma_shape_c<T: Scalar>(r: T, s: T, p: T, z: T, b: T)
    requires
        is_field::<T>(),
    ensures
        r.sub_spec(s).add_spec(p).add_spec(z.mul_spec(b).neg_spec()) == p.sub_spec(
            b.mul_spec(z),
        ).add_spec(r.sub_spec(s)),
{
    ax_mul_comm(z, b);
    ax_add_assoc(r.sub_spec(s), p, b.mul_spec(z).neg_spec());
    ax_sub(p, b.mul_spec(z));
    ax_add_comm(r.sub_spec(s), p.sub_spec(b.mul_spec(z)));
}

/// `((r − s) − b·z) + w·a = (a·w − b·z) + (r − s)`.
proof fn lemma_shape_d<T: Scalar>(r: T, s: T, b: T, z: T, w: T, a: T)
    requires
        is_field::<T>(),
    ensures
        r.sub_spec(s).sub_spec(b.mul_spec(z)).add_spec(w.mul_spec(a)) == a.mul_spec(w).sub_spec(
            b.mul_spec(z),
        ).add_spec(r.sub_spec(s)),
{
    let n = b.mul_spec(z).neg_spec();
    ax_mul_comm(w, a);
    ax_sub(r.sub_spec(s), b.mul_spec(z));
    ax_add_assoc(r.sub_spec(s), n, a.mul_spec(w));
    ax_add_comm(n, a.mul_spec(w));
    ax_sub(a.mul_spec(w), b.mul_spec(z));
    ax_add_comm(r.sub_spec(s), a.mul_spec(w).sub_spec(b.mul_spec(z)));
}

/// `0·u − 0·v = 0`.
proof fn lemma_zeros<T: Scalar>(u: T, v: T)
    requires
        is_field::<T>(),
    ensures
        lit_spec::<T>(0).mul_spec(u).sub_spec(lit_spec::<T>(0).mul_spec(v)) == lit_spec::<T>(0),
{
    lemma_zero_mul(u);
    lemma_zero_mul(v);
    lemma_sub_self(lit_spec::<T>(0));
}

/// `d·k + (−(k·d)) = 0`.
proof fn lemma_undo<T: Scalar>(d: T, k: T)
    requires
        is_field::<T>(),
    ensures
        d.mul_spec(k).add_spec(k.mul_spec(d).neg_spec()) == lit_spec::<T>(0),
{
    ax_mul_comm(k, d);
    ax_add_neg(d.mul_spec(k));
}

/// `−(d·k) + k·d = 0`.
proof fn lemma_undo_neg<T: Scalar>(d: T, k: T)
    requires
        is_field::<T>(),
    ensures
        d.mul_spec(k).neg_spec().add_spec(k.mul_spec(d)) == lit_spec::<T>(0),
{
    ax_mul_comm(k, d);
    ax_add_comm(d.mul_spec(k).neg_spec(), d.mul_spec(k));
    ax_add_neg(d.mul_spec(k));
}

/// `((0·u − 0·v) + d·k) + (−(k·d)) = 0`.
proof fn lemma_zero_a<T: Scalar>(d: T, u: T, v: T, k: T)
    requires
        is_field::<T>(),
    ensures
        ({
            let o = lit_spec::<T>(0);
            o.mul_spec(u).sub_spec(o.mul_spec(v)).add_spec(d.mul_spec(k)).add_spec(
                k.mul_spec(d).neg_spec(),
            )
        }) == lit_spec::<T>(0),
{
    lemma_zeros(u, v);
    lemma_zero_add(d.mul_spec(k));
    lemma_undo(d, k);
}

/// `((0·u − (−d)·k) + 0·v) + (−(k·d)) = 0`.
proof fn lemma_zero_b<T: Scalar>(d: T, u: T, k: T, v: T)
    requires
        is_field::<T>(),
    ensures
        ({
            let o = lit_spec::<T>(0);
            o.mul_spec(u).sub_spec(d.neg_spec().mul_spec(k)).add_spec(o.mul_spec(v)).add_spec(
                k.mul_spec(d).neg_spec(),
            )
        }) == lit_spec::<T>(0),
{
    lemma_zero_mul(u);
    lemma_zero_mul(v);
    lemma_neg_mul(d, k);
    lemma_zero_sub(d.mul_spec(k).neg_spec());
    lemma_neg_neg(d.mul_spec(k));
    ax_add_zero(d.mul_spec(k));
    lemma_undo(d, k);
}

/// `((d·k − 0·u) + 0·v) + (−(k·d)) = 0`.
proof fn lemma_zero_c<T: Scalar>(d: T, k: T, u: T, v: T)
    requires
        is_field::<T>(),
    ensures
        ({
            let o = lit_spec::<T>(0);
            d.mul_spec(k).sub_spec(o.mul_spec(u)).add_spec(o.mul_spec(v)).add_spec(
                k.mul_spec(d).neg_spec(),
            )
        }) == lit_spec::<T>(0),
{
    lemma_zero_mul(u);
    lemma_zero_mul(v);
    lemma_sub_zero(d.mul_spec(k));
    ax_add_zero(d.mul_spec(k));
    lemma_undo(d, k);
}

/// `((0·u − 0·v) − d·k) + k·d = 0`.
proof fn lemma_zero_d<T: Scalar>(d: T, u: T, v: T, k: T)
    requires
        is_field::<T>(),
    ensures
        ({
            let o = lit_spec::<T>(0);
            o.mul_spec(u).sub_spec(o.mul_spec(v)).sub_spec(d.mul_spec(k)).add_spec(k.mul_spec(d))
        }) == lit_spec::<T>(0),
{
    lemma_zeros(u, v);
    lemma_zero_sub(d.mul_spec(k));
    lemma_undo_neg(d, k);
}

/// `((0·u − d·k) − 0·v) + k·d = 0`.
proof fn lemma_zero_e<T: Scalar>(d: T, u: T, k: T, v: T)
    requires
        is_field::<T>(),
    ensures
        ({
            let o = lit_spec::<T>(0);
            o.mul_spec(u).sub_spec(d.mul_spec(k)).sub_spec(o.mul_spec(v)).add_spec(k.mul_spec(d))
        }) == lit_spec::<T>(0),
{
    lemma_zero_mul(u);
    lemma_zero_mul(v);
    lemma_zero_sub(d.mul_spec(k));
    lemma_sub_zero(d.mul_spec(k).neg_spec());
    lemma_undo_neg(d, k);
}

/// `(((−d)·k − 0·u) − 0·v) + k·d = 0`.
proof fn lemma_zero_f<T: Scalar>(d: T, k: T, u: T, v: T)
    requires
        is_field::<T>(),
    ensures
        ({
            let o = lit_spec::<T>(0);
            d.neg_spec().mul_spec(k).sub_spec(o.mul_spec(u)).sub_spec(o.mul_spec(v)).add_spec(
                k.mul_spec(d),
            )
        }) == lit_spec::<T>(0),
{
    lemma_zero_mul(u);
    lemma_zero_mul(v);
    lemma_neg_mul(d, k);
    lemma_sub_zero(d.mul_spec(k).neg_spec());
    lemma_undo_neg(d, k);
}

/// The entry `p · (b × (c·w − d·z) + t·y) + q·(−e)` written out.
proof fn lemma_entry_plus<T: Scalar>(
    p: Vec3<T>,
    q: T,
    b: Vec3<T>,
    c: Vec3<T>,
    w: T,
    d: Vec3<T>,
    z: T,
    t: Vec3<T>,
    y: T,
    e: T,
)
    requires
        is_field::<T>(),
    ensures
        p.dot_spec(
            &b.cross_spec(c.mul_spec(w).sub_spec(d.mul_spec(z))).add_spec(t.mul_spec(y)),
        ).add_spec(q.mul_spec(e.neg_spec())) == p.dot_spec(&b.cross_spec(c)).mul_spec(w).sub_spec(
            p.dot_spec(&b.cross_spec(d)).mul_spec(z),
        ).add_spec(p.dot_spec(&t).mul_spec(y)).add_spec(q.mul_spec(e).neg_spec()),
{
    let v = c.mul_spec(w).sub_spec(d.mul_spec(z));
    lemma_dot_add_right(p, b.cross_spec(v), t.mul_spec(y));
    lemma_expand_right(p, b, c, w, d, z);
    lemma_dot_scale_right(p, t, y);
    lemma_mul_neg(q, e);
}

/// The entry `p · ((c·w − d·z) × a − t·x) + q·e` written out.
proof fn lemma_entry_minus<T: Scalar>(
    p: Vec3<T>,
    q: T,
    c: Vec3<T>,
    w: T,
    d: Vec3<T>,
    z: T,
    a: Vec3<T>,
    t: Vec3<T>,
    x: T,
    e: T,
)
    requires
        is_field::<T>(),
    ensures
        p.dot_spec(
            &c.mul_spec(w).sub_spec(d.mul_spec(z)).cross_spec(a).sub_spec(t.mul_spec(x)),
        ).add_spec(q.mul_spec(e)) == p.dot_spec(&c.cross_spec(a)).mul_spec(w).sub_spec(
            p.dot_spec(&d.cross_spec(a)).mul_spec(z),
        ).sub_spec(p.dot_spec(&t).mul_spec(x)).add_spec(q.mul_spec(e)),
{
    let v = c.mul_spec(w).sub_spec(d.mul_spec(z));
    lemma_dot_sub_right(p, v.cross_spec(a), t.mul_spec(x));
    lemma_expand_left(p, c, w, d, z, a);
    lemma_dot_scale_right(p, t, x);
}

/// The determinant by which the inversion divides, for the columns
/// `(a, x)`, `(b, y)`, `(c, z)`, `(d, w)`:
/// `(a × b) · (c·w − d·z) + (c × d) · (a·y − b·x)`.
spec fn det_spec<T: Scalar>(
    a: Vec3<T>,
    b: Vec3<T>,
    c: Vec3<T>,
    d: Vec3<T>,
    x: T,
    y: T,
    z: T,
    w: T,
) -> T {
    a.cross_spec(b).dot_spec(&c.mul_spec(w).sub_spec(d.mul_spec(z))).add_spec(
        c.cross_spec(d).dot_spec(&a.mul_spec(y).sub_spec(b.mul_spec(x))),
    )
}

/// The determinant in four triple products.
proof fn lemma_det<T: Scalar>(
    a: Vec3<T>,
    b: Vec3<T>,
    c: Vec3<T>,
    d: Vec3<T>,
    x: T,
    y: T,
    z: T,
    w: T,
)
    requires
        is_field::<T>(),
    ensures
        det_spec(a, b, c, d, x, y, z, w) == a.cross_spec(b).dot_spec(&c).mul_spec(w).sub_spec(
            a.cross_spec(b).dot_spec(&d).mul_spec(z),
        ).add_spec(
            c.cross_spec(d).dot_spec(&a).mul_spec(y).sub_spec(
                c.cross_spec(d).dot_spec(&b).mul_spec(x),
            ),
        ),
{
    lemma_expand_dot(a.cross_spec(b), c, w, d, z);
    lemma_expand_dot(c.cross_spec(d), a, y, b, x);
}

/// Column 0 of the unscaled inverse, `(b × v + t·y, −(b · t))`, against
/// the four columns of the matrix.
proof fn lemma_column0<T: Scalar>(
    a: Vec3<T>,
    b: Vec3<T>,
    c: Vec3<T>,
    d: Vec3<T>,
    x: T,
    y: T,
    z: T,
    w: T,
)
    requires
        is_field::<T>(),
    ensures
        ({
            let r = b.cross_spec(c.mul_spec(w).sub_spec(d.mul_spec(z))).add_spec(
                c.cross_spec(d).mul_spec(y),
            );
            let e = b.dot_spec(&c.cross_spec(d)).neg_spec();
            &&& a.dot_spec(&r).add_spec(x.mul_spec(e)) == det_spec(a, b, c, d, x, y, z, w)
            &&& b.dot_spec(&r).add_spec(y.mul_spec(e)) == lit_spec::<T>(0)
            &&& c.dot_spec(&r).add_spec(z.mul_spec(e)) == lit_spec::<T>(0)
            &&& d.dot_spec(&r).add_spec(w.mul_spec(e)) == lit_spec::<T>(0)
        }),
{
    let t = c.cross_spec(d);
    let e = b.dot_spec(&t);
    lemma_det(a, b, c, d, x, y, z, w);
    lemma_dot_comm(b, t);
    // against (a, x)
    lemma_entry_plus(a, x, b, c, w, d, z, t, y, e);
    lemma_dot_comm(a, b.cross_spec(c));
    lemma_triple_rotate(a, b, c);
    lemma_dot_comm(a, b.cross_spec(d));
    lemma_triple_rotate(a, b, d);
    lemma_dot_comm(a, t);
    lemma_shape_a(
        a.cross_spec(b).dot_spec(&c).mul_spec(w),
        a.cross_spec(b).dot_spec(&d).mul_spec(z),
        t.dot_spec(&a).mul_spec(y),
        x,
        t.dot_spec(&b),
    );
    // against (b, y)
    lemma_entry_plus(b, y, b, c, w, d, z, t, y, e);
    lemma_dot_comm(b, b.cross_spec(c));
    lemma_cross_orthogonal_first(b, c);
    lemma_dot_comm(b, b.cross_spec(d));
    lemma_cross_orthogonal_first(b, d);
    lemma_zero_a(e, w, z, y);
    // against (c, z)
    lemma_entry_plus(c, z, b, c, w, d, z, t, y, e);
    lemma_dot_comm(c, b.cross_spec(c));
    lemma_cross_orthogonal_second(b, c);
    lemma_dot_comm(c, b.cross_spec(d));
    lemma_triple_rotate(b, d, c);
    lemma_triple_swap(c, d, b);
    lemma_dot_comm(c, t);
    lemma_cross_orthogonal_first(c, d);
    lemma_zero_b(e, w, z, y);
    // against (d, w)
    lemma_entry_plus(d, w, b, c, w, d, z, t, y, e);
    lemma_dot_comm(d, b.cross_spec(c));
    lemma_triple_rotate(b, c, d);
    lemma_dot_comm(d, b.cross_spec(d));
    lemma_cross_orthogonal_second(b, d);
    lemma_dot_comm(d, t);
    lemma_cross_orthogonal_second(c, d);
    lemma_zero_c(e, w, z, y);
}

/// Column 1 of the unscaled inverse, `(v × a − t·x, a · t)`, against the
/// four columns of the matrix.
proof fn lemma_column1<T: Scalar>(
    a: Vec3<T>,
    b: Vec3<T>,
    c: Vec3<T>,
    d: Vec3<T>,
    x: T,
    y: T,
    z: T,
    w: T,
)
    requires
        is_field::<T>(),
    ensures
        ({
            let r = c.mul_spec(w).sub_spec(d.mul_spec(z)).cross_spec(a).sub_spec(
                c.cross_spec(d).mul_spec(x),
            );
            let e = a.dot_spec(&c.cross_spec(d));
            &&& a.dot_spec(&r).add_spec(x.mul_spec(e)) == lit_spec::<T>(0)
            &&& b.dot_spec(&r).add_spec(y.mul_spec(e)) == det_spec(a, b, c, d, x, y, z, w)
            &&& c.dot_spec(&r).add_spec(z.mul_spec(e)) == lit_spec::<T>(0)
            &&& d.dot_spec(&r).add_spec(w.mul_spec(e)) == lit_spec::<T>(0)
        }),
{
    let t = c.cross_spec(d);
    let e = a.dot_spec(&t);
    lemma_det(a, b, c, d, x, y, z, w);
    lemma_dot_comm(a, t);
    // against (a, x)
    lemma_entry_minus(a, x, c, w, d, z, a, t, x, e);
    lemma_dot_comm(a, c.cross_spec(a));
    lemma_cross_orthogonal_second(c, a);
    lemma_dot_comm(a, d.cross_spec(a));
    lemma_cross_orthogonal_second(d, a);
    lemma_zero_d(e, w, z, x);
    // against (b, y)
    lemma_entry_minus(b, y, c, w, d, z, a, t, x, e);
    lemma_dot_comm(b, c.cross_spec(a));
    lemma_triple_rotate(c, a, b);
    lemma_dot_comm(b, d.cross_spec(a));
    lemma_triple_rotate(d, a, b);
    lemma_dot_comm(b, t);
    lemma_shape_b(
        a.cross_spec(b).dot_spec(&c).mul_spec(w),
        a.cross_spec(b).dot_spec(&d).mul_spec(z),
        t.dot_spec(&b),
        x,
        y,
        t.dot_spec(&a),
    );
    // against (c, z)
    lemma_entry_minus(c, z, c, w, d, z, a, t, x, e);
    lemma_dot_comm(c, c.cross_spec(a));
    lemma_cross_orthogonal_first(c, a);
    lemma_dot_comm(c, d.cross_spec(a));
    lemma_triple_rotate(c, d, a);
    lemma_dot_comm(c, t);
    lemma_cross_orthogonal_first(c, d);
    lemma_zero_e(e, w, z, x);
    // against (d, w)
    lemma_entry_minus(d, w, c, w, d, z, a, t, x, e);
    lemma_dot_comm(d, c.cross_spec(a));
    lemma_triple_rotate(c, a, d);
    lemma_triple_rotate(a, d, c);
    lemma_triple_swap(c, d, a);
    lemma_dot_comm(d, d.cross_spec(a));
    lemma_cross_orthogonal_first(d, a);
    lemma_dot_comm(d, t);
    lemma_cross_orthogonal_second(c, d);
    lemma_zero_f(e, w, z, x);
}

/// Column 2 of the unscaled inverse, `(d × u + s·w, −(d · s))`, against
/// the four columns of the matrix.
proof fn lemma_column2<T: Scalar>(
    a: Vec3<T>,
    b: Vec3<T>,
    c: Vec3<T>,
    d: Vec3<T>,
    x: T,
    y: T,
    z: T,
    w: T,
)
    requires
        is_field::<T>(),
    ensures
        ({
            let r = d.cross_spec(a.mul_spec(y).sub_spec(b.mul_spec(x))).add_spec(
                a.cross_spec(b).mul_spec(w),
            );
            let e = d.dot_spec(&a.cross_spec(b)).neg_spec();
            &&& a.dot_spec(&r).add_spec(x.mul_spec(e)) == lit_spec::<T>(0)
            &&& b.dot_spec(&r).add_spec(y.mul_spec(e)) == lit_spec::<T>(0)
            &&& c.dot_spec(&r).add_spec(z.mul_spec(e)) == det_spec(a, b, c, d, x, y, z, w)
            &&& d.dot_spec(&r).add_spec(w.mul_spec(e)) == lit_spec::<T>(0)
        }),
{
    let s = a.cross_spec(b);
    let t = c.cross_spec(d);
    let e = d.dot_spec(&s);
    lemma_det(a, b, c, d, x, y, z, w);
    lemma_dot_comm(d, s);
    // against (a, x)
    lemma_entry_plus(a, x, d, a, y, b, x, s, w, e);
    lemma_dot_comm(a, d.cross_spec(a));
    lemma_cross_orthogonal_second(d, a);
    lemma_dot_comm(a, d.cross_spec(b));
    lemma_triple_rotate(d, b, a);
    lemma_triple_swap(a, b, d);
    lemma_dot_comm(a, s);
    lemma_cross_orthogonal_first(a, b);
    lemma_zero_b(e, y, x, w);
    // against (b, y)
    lemma_entry_plus(b, y, d, a, y, b, x, s, w, e);
    lemma_dot_comm(b, d.cross_spec(a));
    lemma_triple_rotate(d, a, b);
    lemma_dot_comm(b, d.cross_spec(b));
    lemma_cross_orthogonal_second(d, b);
    lemma_dot_comm(b, s);
    lemma_cross_orthogonal_second(a, b);
    lemma_zero_c(e, y, x, w);
    // against (c, z)
    lemma_entry_plus(c, z, d, a, y, b, x, s, w, e);
    lemma_dot_comm(c, d.cross_spec(a));
    lemma_triple_rotate(c, d, a);
    lemma_dot_comm(c, d.cross_spec(b));
    lemma_triple_rotate(c, d, b);
    lemma_dot_comm(c, s);
    lemma_shape_c(
        t.dot_spec(&a).mul_spec(y),
        t.dot_spec(&b).mul_spec(x),
        s.dot_spec(&c).mul_spec(w),
        z,
        s.dot_spec(&d),
    );
    // against (d, w)
    lemma_entry_plus(d, w, d, a, y, b, x, s, w, e);
    lemma_dot_comm(d, d.cross_spec(a));
    lemma_cross_orthogonal_first(d, a);
    lemma_dot_comm(d, d.cross_spec(b));
    lemma_cross_orthogonal_first(d, b);
    lemma_zero_a(e, y, x, w);
}

/// Column 3 of the unscaled inverse, `(u × c − s·z, c · s)`, against the
/// four columns of the matrix.
proof fn lemma_column3<T: Scalar>(
    a: Vec3<T>,
    b: Vec3<T>,
    c: Vec3<T>,
    d: Vec3<T>,
    x: T,
    y: T,
    z: T,
    w: T,
)
    requires
        is_field::<T>(),
    ensures
        ({
            let r = a.mul_spec(y).sub_spec(b.mul_spec(x)).cross_spec(c).sub_spec(
                a.cross_spec(b).mul_spec(z),
            );
            let e = c.dot_spec(&a.cross_spec(b));
            &&& a.dot_spec(&r).add_spec(x.mul_spec(e)) == lit_spec::<T>(0)
            &&& b.dot_spec(&r).add_spec(y.mul_spec(e)) == lit_spec::<T>(0)
            &&& c.dot_spec(&r).add_spec(z.mul_spec(e)) == lit_spec::<T>(0)
            &&& d.dot_spec(&r).add_spec(w.mul_spec(e)) == det_spec(a, b, c, d, x, y, z, w)
        }),
{
    let s = a.cross_spec(b);
    let t = c.cross_spec(d);
    let e = c.dot_spec(&s);
    lemma_det(a, b, c, d, x, y, z, w);
    lemma_dot_comm(c, s);
    // against (a, x)
    lemma_entry_minus(a, x, a, y, b, x, c, s, z, e);
    lemma_dot_comm(a, a.cross_spec(c));
    lemma_cross_orthogonal_first(a, c);
    lemma_dot_comm(a, b.cross_spec(c));
    lemma_triple_rotate(a, b, c);
    lemma_dot_comm(a, s);
    lemma_cross_orthogonal_first(a, b);
    lemma_zero_e(e, y, x, z);
    // against (b, y)
    lemma_entry_minus(b, y, a, y, b, x, c, s, z, e);
    lemma_dot_comm(b, a.cross_spec(c));
    lemma_triple_rotate(a, c, b);
    lemma_triple_rotate(c, b, a);
    lemma_triple_swap(a, b, c);
    lemma_dot_comm(b, b.cross_spec(c));
    lemma_cross_orthogonal_first(b, c);
    lemma_dot_comm(b, s);
    lemma_cross_orthogonal_second(a, b);
    lemma_zero_f(e, y, x, z);
    // against (c, z)
    lemma_entry_minus(c, z, a, y, b, x, c, s, z, e);
    lemma_dot_comm(c, a.cross_spec(c));
    lemma_cross_orthogonal_second(a, c);
    lemma_dot_comm(c, b.cross_spec(c));
    lemma_cross_orthogonal_second(b, c);
    lemma_zero_d(e, y, x, z);
    // against (d, w)
    lemma_entry_minus(d, w, a, y, b, x, c, s, z, e);
    lemma_dot_comm(d, a.cross_spec(c));
    lemma_triple_rotate(c, d, a);
    lemma_triple_rotate(d, a, c);
    lemma_dot_comm(d, b.cross_spec(c));
    lemma_triple_rotate(b, c, d);
    lemma_dot_comm(d, s);
    lemma_shape_d(
        t.dot_spec(&a).mul_spec(y),
        t.dot_spec(&b).mul_spec(x),
        s.dot_spec(&d),
        z,
        w,
        s.dot_spec(&c),
    );
}

/// One entry of a product: the column `k` against the column `h`, the
/// first three components as a dot product and the fourth beside it.
pub proof fn lemma_entry<T: Scalar>(k: Vec4<T>, h: Vec4<T>)
    requires
        is_field::<T>(),
    ensures
        Mat4::sum_spec(k.x, h.x, k.y, h.y, k.z, h.z, k.w, h.w) == k.xyz_spec().dot_spec(
            &h.xyz_spec(),
        ).add_spec(k.w.mul_spec(h.w)),
{
    lemma_zero_add(k.x.mul_spec(h.x));
}

/// The determinant by which the inversion of `m` divides.
spec fn det_of<T: Scalar>(m: Mat4<T>) -> T {
    det_spec(
        m.a.xyz_spec(),
        m.b.xyz_spec(),
        m.c.xyz_spec(),
        m.d.xyz_spec(),
        m.a.w,
        m.b.w,
        m.c.w,
        m.d.w,
    )
}

/// What the inversion hands back where it hands back a matrix.
spec fn inverse_spec<T: Scalar>(m: Mat4<T>) -> Mat4<T> {
    let a = m.a.xyz_spec();
    let b = m.b.xyz_spec();
    let c = m.c.xyz_spec();
    let d = m.d.xyz_spec();
    let (x, y, z, w) = (m.a.w, m.b.w, m.c.w, m.d.w);
    let i = lit_spec::<T>(1).div_spec(det_of(m));
    let s = a.cross_spec(b).mul_spec(i);
    let t = c.cross_spec(d).mul_spec(i);
    let u = a.mul_spec(y).sub_spec(b.mul_spec(x)).mul_spec(i);
    let v = c.mul_spec(w).sub_spec(d.mul_spec(z)).mul_spec(i);
    let r0 = b.cross_spec(v).add_spec(t.mul_spec(y));
    let r1 = v.cross_spec(a).sub_spec(t.mul_spec(x));
    let r2 = d.cross_spec(u).add_spec(s.mul_spec(w));
    let r3 = u.cross_spec(c).sub_spec(s.mul_spec(z));
    Mat4 {
        a: Vec4 { x: r0.x, y: r0.y, z: r0.z, w: b.dot_spec(&t).neg_spec() },
        b: Vec4 { x: r1.x, y: r1.y, z: r1.z, w: a.dot_spec(&t) },
        c: Vec4 { x: r2.x, y: r2.y, z: r2.z, w: d.dot_spec(&s).neg_spec() },
        d: Vec4 { x: r3.x, y: r3.y, z: r3.z, w: c.dot_spec(&s) },
    }
}

/// Over a field the inversion hands back a matrix exactly where the
/// determinant is not `0`, and then the matrix of `inverse_spec`.
proof fn lemma_invert_spec<T: Scalar>(m: Mat4<T>)
    requires
        is_field::<T>(),
    ensures
        m.invert_spec() is Some <==> det_of(m) != lit_spec::<T>(0),
        m.invert_spec() is Some ==> m.invert_spec() == Some(inverse_spec(m)),
{
    ax_eq(det_of(m), lit_spec::<T>(0));
}

/// The columns of the inverse are those of the unscaled inverse, each
/// times `1 / det`.
proof fn lemma_scaled<T: Scalar>(m: Mat4<T>)
    requires
        is_field::<T>(),
    ensures
        ({
            let a = m.a.xyz_spec();
            let b = m.b.xyz_spec();
            let c = m.c.xyz_spec();
            let d = m.d.xyz_spec();
            let (x, y, z, w) = (m.a.w, m.b.w, m.c.w, m.d.w);
            let i = lit_spec::<T>(1).div_spec(det_of(m));
            let s = a.cross_spec(b);
            let t = c.cross_spec(d);
            let u = a.mul_spec(y).sub_spec(b.mul_spec(x));
            let v = c.mul_spec(w).sub_spec(d.mul_spec(z));
            let n = inverse_spec(m);
            &&& n.a.xyz_spec() == b.cross_spec(v).add_spec(t.mul_spec(y)).mul_spec(i)
            &&& n.a.w == b.dot_spec(&t).neg_spec().mul_spec(i)
            &&& n.b.xyz_spec() == v.cross_spec(a).sub_spec(t.mul_spec(x)).mul_spec(i)
            &&& n.b.w == a.dot_spec(&t).mul_spec(i)
            &&& n.c.xyz_spec() == d.cross_spec(u).add_spec(s.mul_spec(w)).mul_spec(i)
            &&& n.c.w == d.dot_spec(&s).neg_spec().mul_spec(i)
            &&& n.d.xyz_spec() == u.cross_spec(c).sub_spec(s.mul_spec(z)).mul_spec(i)
            &&& n.d.w == c.dot_spec(&s).mul_spec(i)
        }),
{
    let a = m.a.xyz_spec();
    let b = m.b.xyz_spec();
    let c = m.c.xyz_spec();
    let d = m.d.xyz_spec();
    let (x, y, z, w) = (m.a.w, m.b.w, m.c.w, m.d.w);
    let i = lit_spec::<T>(1).div_spec(det_of(m));
    let s = a.cross_spec(b);
    let t = c.cross_spec(d);
    let u = a.mul_spec(y).sub_spec(b.mul_spec(x));
    let v = c.mul_spec(w).sub_spec(d.mul_spec(z));
    lemma_factor_plus(b, v, t, y, i);
    lemma_factor_minus(v, a, t, x, i);
    lemma_factor_plus(d, u, s, w, i);
    lemma_factor_minus(u, c, s, z, i);
    lemma_dot_scale_right(b, t, i);
    lemma_neg_mul(b.dot_spec(&t), i);
    lemma_dot_scale_right(a, t, i);
    lemma_dot_scale_right(d, s, i);
    lemma_neg_mul(d.dot_spec(&s), i);
    lemma_dot_scale_right(c, s, i);
}

/// One column `k` of the matrix against one column of the inverse, the
/// latter given as its unscaled parts `r`, `e` and the scale `i`.
pub proof fn lemma_scaled_entry<T: Scalar>(k: Vec4<T>, h: Vec4<T>, r: Vec3<T>, e: T, i: T)
    requires
        is_field::<T>(),
        h.xyz_spec() == r.mul_spec(i),
        h.w == e.mul_spec(i),
    ensures
        Mat4::sum_spec(k.x, h.x, k.y, h.y, k.z, h.z, k.w, h.w) == k.xyz_spec().dot_spec(
            &r,
        ).add_spec(k.w.mul_spec(e)).mul_spec(i),
{
    lemma_entry(k, h);
    lemma_factor_entry(k.xyz_spec(), k.w, r, e, i);
}

/// One column `k` of the matrix against the four columns of the inverse.
proof fn lemma_product_column<T: Scalar>(m: Mat4<T>, k: Vec4<T>, g0: T, g1: T, g2: T, g3: T)
    requires
        is_field::<T>(),
        ({
            let a = m.a.xyz_spec();
            let b = m.b.xyz_spec();
            let c = m.c.xyz_spec();
            let d = m.d.xyz_spec();
            let (x, y, z, w) = (m.a.w, m.b.w, m.c.w, m.d.w);
            let s = a.cross_spec(b);
            let t = c.cross_spec(d);
            let u = a.mul_spec(y).sub_spec(b.mul_spec(x));
            let v = c.mul_spec(w).sub_spec(d.mul_spec(z));
            let p = k.xyz_spec();
            &&& g0 == p.dot_spec(&b.cross_spec(v).add_spec(t.mul_spec(y))).add_spec(
                k.w.mul_spec(b.dot_spec(&t).neg_spec()),
            )
            &&& g1 == p.dot_spec(&v.cross_spec(a).sub_spec(t.mul_spec(x))).add_spec(
                k.w.mul_spec(a.dot_spec(&t)),
            )
            &&& g2 == p.dot_spec(&d.cross_spec(u).add_spec(s.mul_spec(w))).add_spec(
                k.w.mul_spec(d.dot_spec(&s).neg_spec()),
            )
            &&& g3 == p.dot_spec(&u.cross_spec(c).sub_spec(s.mul_spec(z))).add_spec(
                k.w.mul_spec(c.dot_spec(&s)),
            )
        }),
    ensures
        ({
            let i = lit_spec::<T>(1).div_spec(det_of(m));
            Mat4::product_column_spec(k, inverse_spec(m).transposed()) == (Vec4 {
                x: g0.mul_spec(i),
                y: g1.mul_spec(i),
                z: g2.mul_spec(i),
                w: g3.mul_spec(i),
            })
        }),
{
    let a = m.a.xyz_spec();
    let b = m.b.xyz_spec();
    let c = m.c.xyz_spec();
    let d = m.d.xyz_spec();
    let (x, y, z, w) = (m.a.w, m.b.w, m.c.w, m.d.w);
    let i = lit_spec::<T>(1).div_spec(det_of(m));
    let s = a.cross_spec(b);
    let t = c.cross_spec(d);
    let u = a.mul_spec(y).sub_spec(b.mul_spec(x));
    let v = c.mul_spec(w).sub_spec(d.mul_spec(z));
    let n = inverse_spec(m);
    lemma_scaled(m);
    lemma_scaled_entry(
        k,
        n.a,
        b.cross_spec(v).add_spec(t.mul_spec(y)),
        b.dot_spec(&t).neg_spec(),
        i,
    );
    lemma_scaled_entry(k, n.b, v.cross_spec(a).sub_spec(t.mul_spec(x)), a.dot_spec(&t), i);
    lemma_scaled_entry(
        k,
        n.c,
        d.cross_spec(u).add_spec(s.mul_spec(w)),
        d.dot_spec(&s).neg_spec(),
        i,
    );
    lemma_scaled_entry(k, n.d, u.cross_spec(c).sub_spec(s.mul_spec(z)), c.dot_spec(&s), i);
}

/// The matrix times the transpose of its inverse is the identity.
proof fn lemma_dual<T: Scalar>(m: Mat4<T>)
    requires
        is_field::<T>(),
        det_of(m) != lit_spec::<T>(0),
    ensures
        m.mul_spec(inverse_spec(m).transposed()) == Mat4::<T>::identity_spec(),
{
    let o = lit_spec::<T>(0);
    let one = lit_spec::<T>(1);
    let a = m.a.xyz_spec();
    let b = m.b.xyz_spec();
    let c = m.c.xyz_spec();
    let d = m.d.xyz_spec();
    let (x, y, z, w) = (m.a.w, m.b.w, m.c.w, m.d.w);
    let det = det_of(m);
    let i = one.div_spec(det);
    lemma_column0(a, b, c, d, x, y, z, w);
    lemma_column1(a, b, c, d, x, y, z, w);
    lemma_column2(a, b, c, d, x, y, z, w);
    lemma_column3(a, b, c, d, x, y, z, w);
    ax_div(one, det);
    ax_mul_comm(det, i);
    lemma_zero_mul(i);
    lemma_product_column(m, m.a, det, o, o, o);
    lemma_product_column(m, m.b, o, det, o, o);
    lemma_product_column(m, m.c, o, o, det, o);
    lemma_product_column(m, m.d, o, o, o, det);
    let t = inverse_spec(m).transposed();
    assert(Mat4::product_column_spec(m.a, t) == Vec4::<T>::unit_spec(0));
    assert(Mat4::product_column_spec(m.b, t) == Vec4::<T>::unit_spec(1));
    assert(Mat4::product_column_spec(m.c, t) == Vec4::<T>::unit_spec(2));
    assert(Mat4::product_column_spec(m.d, t) == Vec4::<T>::unit_spec(3));
}

/// `((p − q) + r) − s = (p − q) + (r − s)`.
proof fn lemma_shape_e<T: Scalar>(p: T, q: T, r: T, s: T)
    requires
        is_field::<T>(),
    ensures
        p.sub_spec(q).add_spec(r).sub_spec(s) == p.sub_spec(q).add_spec(r.sub_spec(s)),
{
    ax_sub(p.sub_spec(q).add_spec(r), s);
    ax_add_assoc(p.sub_spec(q), r, s.neg_spec());
    ax_sub(r, s);
}

/// The determinant by cofactors is the value by which the inversion
/// divides.
///
/// This holds over a field.
pub proof fn lemma_determinant<T: Scalar>(m: Mat4<T>)
    requires
        is_field::<T>(),
    ensures
        ({
            let a = m.a.xyz_spec();
            let b = m.b.xyz_spec();
            let c = m.c.xyz_spec();
            let d = m.d.xyz_spec();
            m.determinant_spec() == a.cross_spec(b).dot_spec(
                &c.mul_spec(m.d.w).sub_spec(d.mul_spec(m.c.w)),
            ).add_spec(
                c.cross_spec(d).dot_spec(&a.mul_spec(m.b.w).sub_spec(b.mul_spec(m.a.w))),
            )
        }),
{
    let a = m.a.xyz_spec();
    let b = m.b.xyz_spec();
    let c = m.c.xyz_spec();
    let d = m.d.xyz_spec();
    let (x, y, z, w) = (m.a.w, m.b.w, m.c.w, m.d.w);
    lemma_det(a, b, c, d, x, y, z, w);
    lemma_determinant_is_triple(Mat4::minor_spec(m.a, m.b, m.c));
    lemma_determinant_is_triple(Mat4::minor_spec(m.a, m.b, m.d));
    lemma_determinant_is_triple(Mat4::minor_spec(m.a, m.c, m.d));
    lemma_determinant_is_triple(Mat4::minor_spec(m.b, m.c, m.d));
    lemma_triple_rotate(c, d, a);
    lemma_triple_rotate(d, a, c);
    lemma_triple_rotate(b, c, d);
    ax_mul_comm(w, a.cross_spec(b).dot_spec(&c));
    ax_mul_comm(z, a.cross_spec(b).dot_spec(&d));
    ax_mul_comm(y, a.cross_spec(c).dot_spec(&d));
    ax_mul_comm(x, b.cross_spec(c).dot_spec(&d));
    lemma_shape_e(
        a.cross_spec(b).dot_spec(&c).mul_spec(w),
        a.cross_spec(b).dot_spec(&d).mul_spec(z),
        c.cross_spec(d).dot_spec(&a).mul_spec(y),
        c.cross_spec(d).dot_spec(&b).mul_spec(x),
    );
}

/// The columns of the inverse are dual to the columns of the matrix: the
/// dot product of column `i` of the one with column `j` of the other is
/// `1` for `i = j` and `0` otherwise. In terms of the matrix product:
/// the matrix times the transpose of its inverse is the identity.
///
/// This holds over a field, for every matrix whose determinant is not
/// `0`.
pub proof fn lemma_inverse_is_dual<T: Scalar>(m: Mat4<T>)
    requires
        is_field::<T>(),
        m.determinant_spec() != lit_spec::<T>(0),
    ensures
        m.invert_spec() is Some,
        m.mul_spec(m.invert_spec().unwrap().transposed()) == Mat4::<T>::identity_spec(),
{
    lemma_determinant(m);
    lemma_invert_spec(m);
    lemma_dual(m);
}

/// The factors of each product of a sum of four can be swapped.
proof fn lemma_sum_comm<T: Scalar>(p: T, u: T, q: T, v: T, r: T, w: T, s: T, x: T)
    requires
        is_field::<T>(),
    ensures
        Mat4::sum_spec(p, u, q, v, r, w, s, x) == Mat4::sum_spec(u, p, v, q, w, r, x, s),
{
    ax_mul_comm(p, u);
    ax_mul_comm(q, v);
    ax_mul_comm(r, w);
    ax_mul_comm(s, x);
}

/// One column of the transpose of a product.
proof fn lemma_transposed_column<T: Scalar>(a: Mat4<T>, k: Vec4<T>)
    requires
        is_field::<T>(),
    ensures
        Mat4::product_column_spec(k, a.transposed()) == (Vec4 {
            x: Mat4::sum_spec(a.a.x, k.x, a.a.y, k.y, a.a.z, k.z, a.a.w, k.w),
            y: Mat4::sum_spec(a.b.x, k.x, a.b.y, k.y, a.b.z, k.z, a.b.w, k.w),
            z: Mat4::sum_spec(a.c.x, k.x, a.c.y, k.y, a.c.z, k.z, a.c.w, k.w),
            w: Mat4::sum_spec(a.d.x, k.x, a.d.y, k.y, a.d.z, k.z, a.d.w, k.w),
        }),
{
    lemma_sum_comm(k.x, a.a.x, k.y, a.a.y, k.z, a.a.z, k.w, a.a.w);
    lemma_sum_comm(k.x, a.b.x, k.y, a.b.y, k.z, a.b.z, k.w, a.b.w);
    lemma_sum_comm(k.x, a.c.x, k.y, a.c.y, k.z, a.c.z, k.w, a.c.w);
    lemma_sum_comm(k.x, a.d.x, k.y, a.d.y, k.z, a.d.z, k.w, a.d.w);
}

/// The transpose of a product is the product of the transposes, taken
/// the other way round.
///
/// This holds over a field.
pub proof fn lemma_product_transposed<T: Scalar>(a: Mat4<T>, b: Mat4<T>)
    requires
        is_field::<T>(),
    ensures
        a.mul_spec(b).transposed() == b.transposed().mul_spec(a.transposed()),
{
    let t = b.transposed();
    lemma_transposed_column(a, t.a);
    lemma_transposed_column(a, t.b);
    lemma_transposed_column(a, t.c);
    lemma_transposed_column(a, t.d);
}

/// The inverse of a matrix times the matrix is the identity, for every
/// symmetric matrix.
///
/// This holds over a field, for every symmetric matrix whose determinant
/// is not `0`. A matrix that is not symmetric has the law of
/// [`lemma_inverse_is_dual`] in its place: its inverse comes out
/// transposed with respect to the matrix product.
pub proof fn lemma_inverse_times_matrix<T: Scalar>(m: Mat4<T>)
    requires
        is_field::<T>(),
        m.determinant_spec() != lit_spec::<T>(0),
        m.transposed() == m,
    ensures
        m.invert_spec() is Some,
        m.invert_spec().unwrap().mul_spec(m) == Mat4::<T>::identity_spec(),
{
    lemma_inverse_is_dual(m);
    let n = m.invert_spec().unwrap();
    lemma_product_transposed(m, n.transposed());
    n.lemma_transpose_involution();
}

/// A matrix whose determinant is `0` has no inverse.
///
/// This holds over a field.
pub proof fn lemma_singular_has_no_inverse<T: Scalar>(m: Mat4<T>)
    requires
        is_field::<T>(),
        m.determinant_spec() == lit_spec::<T>(0),
    ensures
        m.invert_spec() is None,
{
    lemma_determinant(m);
    lemma_invert_spec(m);
}

} // verus!
