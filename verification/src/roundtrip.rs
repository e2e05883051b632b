//! From a rotation matrix to a quaternion and back, over a field.

use crate::field::ax_add_assoc;
use crate::field::ax_add_comm;
use crate::field::ax_add_neg;
use crate::field::ax_add_zero;
use crate::field::ax_distrib;
use crate::field::ax_div;
use crate::field::ax_mul_assoc;
use crate::field::ax_mul_comm;
use crate::field::ax_mul_one;
use crate::field::ax_sub;
use crate::field::integers_embed;
use crate::field::is_field;
use crate::field::lemma_add_swap;
use crate::field::lemma_add_to_minuend;
use crate::field::lemma_double;
use crate::field::lemma_double_double;
use crate::field::lemma_mul_cancel;
use crate::field::lemma_mul_sub;
use crate::field::lemma_mul_swap;
use crate::field::lemma_mul_swap_last;
use crate::field::lemma_neg_add;
use crate::field::lemma_one_mul;
use crate::field::lemma_restore;
use crate::field::lemma_same_minuend;
use crate::field::lemma_sub_add;
use crate::field::lemma_sum_and_difference;
use crate::field::lemma_sum_less_difference;
use crate::field::lemma_take_back;
use crate::field::lemma_zero_mul;
use crate::mat3::Mat3;
use crate::quat::Lead;
use crate::quat::Quat;
use crate::scalar::lit_spec;
use crate::scalar::Scalar;
use vstd::prelude::*;
use vstd::std_specs::ops::AddSpec;
use vstd::std_specs::ops::DivSpec;
use vstd::std_specs::ops::MulSpec;
use vstd::std_specs::ops::NegSpec;
use vstd::std_specs::ops::SubSpec;

verus! {

/// `2·(p + q) + 2·(p − q) = 4·p`.
proof fn lemma_numerator_sum<T: Scalar>(p: T, q: T)
    requires
        is_field::<T>(),
        integers_embed::<T>(),
    ensures
        lit_spec::<T>(2).mul_spec(p.add_spec(q)).add_spec(
            lit_spec::<T>(2).mul_spec(p.sub_spec(q)),
        ) == lit_spec::<T>(4).mul_spec(p),
{
    let two = lit_spec::<T>(2);
    ax_distrib(two, p.add_spec(q), p.sub_spec(q));
    lemma_sum_and_difference(p, q);
    lemma_double(p);
    lemma_double_double(p);
}

/// `2·(p + q) − 2·(p − q) = 4·q`.
proof fn lemma_numerator_difference<T: Scalar>(p: T, q: T)
    requires
        is_field::<T>(),
        integers_embed::<T>(),
    ensures
        lit_spec::<T>(2).mul_spec(p.add_spec(q)).sub_spec(
            lit_spec::<T>(2).mul_spec(p.sub_spec(q)),
        ) == lit_spec::<T>(4).mul_spec(q),
{
    let two = lit_spec::<T>(2);
    lemma_mul_sub(two, p.add_spec(q), p.sub_spec(q));
    lemma_sum_less_difference(p, q);
    lemma_double(q);
    lemma_double_double(q);
}

/// With `mi = 1 − 2·ai`: `((m1 − m2) − m3) + 1 = 2·((a2 − a1) + a3)`.
proof fn lemma_excess<T: Scalar>(a1: T, a2: T, a3: T)
    requires
        is_field::<T>(),
    ensures
        ({
            let one = lit_spec::<T>(1);
            let two = lit_spec::<T>(2);
            one.sub_spec(two.mul_spec(a1)).sub_spec(one.sub_spec(two.mul_spec(a2))).sub_spec(
                one.sub_spec(two.mul_spec(a3)),
            ).add_spec(one)
        }) == lit_spec::<T>(2).mul_spec(a2.sub_spec(a1).add_spec(a3)),
{
    let one = lit_spec::<T>(1);
    let two = lit_spec::<T>(2);
    lemma_same_minuend(one, two.mul_spec(a1), two.mul_spec(a2));
    lemma_restore(two.mul_spec(a2).sub_spec(two.mul_spec(a1)), one, two.mul_spec(a3));
    lemma_mul_sub(two, a2, a1);
    ax_distrib(two, a2.sub_spec(a1), a3);
}

/// `((p + r) − (q + r)) + (p + q) = p + p`.
proof fn lemma_lead_term<T: Scalar>(p: T, q: T, r: T)
    requires
        is_field::<T>(),
    ensures
        p.add_spec(r).sub_spec(q.add_spec(r)).add_spec(p.add_spec(q)) == p.add_spec(p),
{
    let (nq, nr) = (q.neg_spec(), r.neg_spec());
    // (p + r) − (q + r) = p − q
    ax_sub(p.add_spec(r), q.add_spec(r));
    lemma_neg_add(q, r);
    lemma_add_swap(p, r, nq, nr);
    ax_add_neg(r);
    ax_add_zero(p.add_spec(nq));
    ax_sub(p, q);
    // (p − q) + (p + q) = p + p
    ax_add_comm(p.sub_spec(q), p.add_spec(q));
    lemma_sum_and_difference(p, q);
}

/// `((y + z) + (x + z)) + (x + y) = s + s` for `s = (x + y) + z`.
proof fn lemma_pairs<T: Scalar>(x: T, y: T, z: T)
    requires
        is_field::<T>(),
    ensures
        y.add_spec(z).add_spec(x.add_spec(z)).add_spec(x.add_spec(y)) == x.add_spec(y).add_spec(
            z,
        ).add_spec(x.add_spec(y).add_spec(z)),
{
    let xy = x.add_spec(y);
    let zz = z.add_spec(z);
    lemma_add_swap(y, z, x, z);
    ax_add_comm(y, x);
    ax_add_assoc(xy, zz, xy);
    ax_add_comm(zz, xy);
    ax_add_assoc(xy, xy, zz);
    lemma_add_swap(xy, z, xy, z);
}

/// `4 = ((1 + 1) + 1) + 1`.
proof fn lemma_four<T: Scalar>()
    requires
        is_field::<T>(),
        integers_embed::<T>(),
    ensures
        lit_spec::<T>(4) == lit_spec::<T>(1).add_spec(lit_spec::<T>(1)).add_spec(
            lit_spec::<T>(1),
        ).add_spec(lit_spec::<T>(1)),
{
    let one = lit_spec::<T>(1);
    ax_add_assoc(one.add_spec(one), one, one);
}

/// The trace of the rotation matrix of a unit quaternion, plus one, is
/// four times the square of the scalar part. With `x`, `y`, `z`, `w` the
/// squares of the components and `(x + y + z) + w = 1`:
/// `(((1 − 2(y+z)) + (1 − 2(x+z))) + (1 − 2(x+y))) + 1 = 4·w`.
proof fn lemma_trace<T: Scalar>(x: T, y: T, z: T, w: T)
    requires
        is_field::<T>(),
        integers_embed::<T>(),
        x.add_spec(y).add_spec(z).add_spec(w) == lit_spec::<T>(1),
    ensures
        ({
            let one = lit_spec::<T>(1);
            let two = lit_spec::<T>(2);
            one.sub_spec(two.mul_spec(y.add_spec(z))).add_spec(
                one.sub_spec(two.mul_spec(x.add_spec(z))),
            ).add_spec(one.sub_spec(two.mul_spec(x.add_spec(y)))).add_spec(one)
        }) == lit_spec::<T>(4).mul_spec(w),
{
    let one = lit_spec::<T>(1);
    let two = lit_spec::<T>(2);
    let four = lit_spec::<T>(4);
    let (a, b, c) = (y.add_spec(z), x.add_spec(z), x.add_spec(y));
    let (u, v, t) = (two.mul_spec(a), two.mul_spec(b), two.mul_spec(c));
    let s = x.add_spec(y).add_spec(z);
    lemma_sub_add(one, u, one, v);
    lemma_sub_add(one.add_spec(one), u.add_spec(v), one, t);
    lemma_add_to_minuend(one.add_spec(one).add_spec(one), u.add_spec(v).add_spec(t), one);
    lemma_four::<T>();
    ax_distrib(two, a, b);
    ax_distrib(two, a.add_spec(b), c);
    lemma_pairs(x, y, z);
    lemma_double(s);
    lemma_double_double(s);
    ax_distrib(four, s, w);
    ax_mul_one(four);
    lemma_take_back(four.mul_spec(s), four.mul_spec(w));
}

/// The halving and the quartering that the extraction performs: with a
/// root `r` of `4·l²` that is not `0`, `h = r·½`, `i = 1/h` and
/// `f = ¼ / h`,
/// `h` is not `0`, `h² = l²`, `i·h = 1` and `f = ¼·i`.
proof fn lemma_halves<T: Scalar>(l: T, r: T)
    requires
        is_field::<T>(),
        integers_embed::<T>(),
        r.mul_spec(r) == lit_spec::<T>(4).mul_spec(l.mul_spec(l)),
        r != lit_spec::<T>(0),
    ensures
        ({
            let one = lit_spec::<T>(1);
            let half = one.div_spec(lit_spec::<T>(2));
            let quarter = one.div_spec(lit_spec::<T>(4));
            let h = r.mul_spec(half);
            let i = one.div_spec(h);
            &&& h != lit_spec::<T>(0)
            &&& h.mul_spec(h) == l.mul_spec(l)
            &&& i.mul_spec(h) == one
            &&& quarter.div_spec(h) == quarter.mul_spec(i)
            &&& quarter.mul_spec(lit_spec::<T>(4)) == one
        }),
{
    let o = lit_spec::<T>(0);
    let one = lit_spec::<T>(1);
    let two = lit_spec::<T>(2);
    let four = lit_spec::<T>(4);
    let half = one.div_spec(two);
    let quarter = one.div_spec(four);
    let h = r.mul_spec(half);
    let i = one.div_spec(h);
    let ll = l.mul_spec(l);
    ax_div(one, two);
    ax_div(one, four);
    // h is not 0: else r = (r·½)·2 = 0·2 = 0
    ax_mul_assoc(r, half, two);
    ax_mul_one(r);
    lemma_zero_mul(two);
    assert(h != o);
    ax_div(one, h);
    // 2·2 = 4
    lemma_double(two);
    // (½·½)·4 = (½·2)·(½·2) = 1
    lemma_mul_swap(half, half, two, two);
    ax_mul_one(one);
    // (h·h)·4 = (r·r)·((½·½)·4) = r·r = 4·l² = l²·4
    lemma_mul_swap(r, half, r, half);
    ax_mul_assoc(r.mul_spec(r), half.mul_spec(half), four);
    ax_mul_one(r.mul_spec(r));
    ax_mul_comm(four, ll);
    lemma_mul_cancel(h.mul_spec(h), ll, four);
    // f = ¼·i, both being ¼ once multiplied by h
    ax_div(quarter, h);
    ax_mul_assoc(quarter, i, h);
    ax_mul_one(quarter);
    lemma_mul_cancel(quarter.div_spec(h), quarter.mul_spec(i), h);
}

/// One component that does not lead: with `e = l·i`, `(4·p)·(¼·i) = e·t`
/// where `p` is the product of `l` and `t`, in either order.
proof fn lemma_component<T: Scalar>(l: T, t: T, p: T, i: T)
    requires
        is_field::<T>(),
        integers_embed::<T>(),
        p == l.mul_spec(t) || p == t.mul_spec(l),
    ensures
        ({
            let quarter = lit_spec::<T>(1).div_spec(lit_spec::<T>(4));
            lit_spec::<T>(4).mul_spec(p).mul_spec(quarter.mul_spec(i))
        }) == l.mul_spec(i).mul_spec(t),
{
    let one = lit_spec::<T>(1);
    let four = lit_spec::<T>(4);
    let quarter = one.div_spec(four);
    ax_div(one, four);
    ax_mul_comm(quarter, four);
    lemma_mul_swap(four, p, quarter, i);
    lemma_one_mul(p.mul_spec(i));
    ax_mul_comm(t, l);
    lemma_mul_swap_last(l, t, i);
}

/// The component that leads, and the sign: with `h² = l²`, `i·h = 1` and
/// `e = l·i`, `h = e·l` and `e·e = 1`.
proof fn lemma_leading<T: Scalar>(l: T, h: T, i: T)
    requires
        is_field::<T>(),
        h.mul_spec(h) == l.mul_spec(l),
        i.mul_spec(h) == lit_spec::<T>(1),
    ensures
        h == l.mul_spec(i).mul_spec(l),
        l.mul_spec(i).mul_spec(l.mul_spec(i)) == lit_spec::<T>(1),
{
    let one = lit_spec::<T>(1);
    ax_mul_comm(i, h);
    lemma_mul_swap_last(l, i, l);
    ax_mul_assoc(h, h, i);
    ax_mul_one(h);
    lemma_mul_swap(l, i, l, i);
    lemma_mul_swap(h, h, i, i);
    ax_mul_one(one);
}

/// The sign by which the quaternion extracted with the leading component
/// `l` and the root `r` differs from the one that the matrix came from:
/// `l / (r·½)`.
spec fn sign_spec<T: Scalar>(l: T, r: T) -> T {
    let one = lit_spec::<T>(1);
    l.mul_spec(one.div_spec(r.mul_spec(one.div_spec(lit_spec::<T>(2)))))
}

/// A product of two components is the same once both are multiplied by a
/// sign.
proof fn lemma_signed_product<T: Scalar>(e: T, a: T, b: T)
    requires
        is_field::<T>(),
        e.mul_spec(e) == lit_spec::<T>(1),
    ensures
        e.mul_spec(a).mul_spec(e.mul_spec(b)) == a.mul_spec(b),
{
    lemma_mul_swap(e, a, e, b);
    lemma_one_mul(a.mul_spec(b));
}

/// A quaternion and its negative stand for the same rotation: the matrix
/// of a quaternion is unchanged when every component is multiplied by a
/// sign `e`, `e·e = 1`.
///
/// This holds over a field.
pub proof fn lemma_sign<T: Scalar>(q: Quat<T>, e: T)
    requires
        is_field::<T>(),
        e.mul_spec(e) == lit_spec::<T>(1),
    ensures
        q.scaled_spec(e).to_mat3_spec() == q.to_mat3_spec(),
{
    lemma_signed_product(e, q.x, q.x);
    lemma_signed_product(e, q.y, q.y);
    lemma_signed_product(e, q.z, q.z);
    lemma_signed_product(e, q.x, q.y);
    lemma_signed_product(e, q.x, q.z);
    lemma_signed_product(e, q.y, q.z);
    lemma_signed_product(e, q.w, q.x);
    lemma_signed_product(e, q.w, q.y);
    lemma_signed_product(e, q.w, q.z);
}

/// The extraction where the scalar part leads.
proof fn lemma_lead_w<T: Scalar>(q: Quat<T>, r: T)
    requires
        is_field::<T>(),
        integers_embed::<T>(),
        q.norm2_spec() == lit_spec::<T>(1),
        r.mul_spec(r) == Quat::trace_spec(q.to_mat3_spec()).add_spec(lit_spec::<T>(1)),
        r != lit_spec::<T>(0),
    ensures
        Quat::from_mat3_spec(q.to_mat3_spec(), Lead::W, r) == q.scaled_spec(sign_spec(q.w, r)),
        sign_spec(q.w, r).mul_spec(sign_spec(q.w, r)) == lit_spec::<T>(1),
{
    let one = lit_spec::<T>(1);
    let (x, y, z, w) = (q.x, q.y, q.z, q.w);
    let h = r.mul_spec(one.div_spec(lit_spec::<T>(2)));
    let i = one.div_spec(h);
    lemma_trace(x.mul_spec(x), y.mul_spec(y), z.mul_spec(z), w.mul_spec(w));
    lemma_halves(w, r);
    lemma_leading(w, h, i);
    lemma_numerator_difference(y.mul_spec(z), w.mul_spec(x));
    lemma_numerator_difference(x.mul_spec(z), w.mul_spec(y));
    lemma_numerator_difference(x.mul_spec(y), w.mul_spec(z));
    lemma_component(w, x, w.mul_spec(x), i);
    lemma_component(w, y, w.mul_spec(y), i);
    lemma_component(w, z, w.mul_spec(z), i);
}

/// The extraction where `x` leads.
proof fn lemma_lead_x<T: Scalar>(q: Quat<T>, r: T)
    requires
        is_field::<T>(),
        integers_embed::<T>(),
        ({
            let m = q.to_mat3_spec();
            r.mul_spec(r) == Quat::excess_spec(m.a.x, m.b.y, m.c.z)
        }),
        r != lit_spec::<T>(0),
    ensures
        Quat::from_mat3_spec(q.to_mat3_spec(), Lead::X, r) == q.scaled_spec(sign_spec(q.x, r)),
        sign_spec(q.x, r).mul_spec(sign_spec(q.x, r)) == lit_spec::<T>(1),
{
    let one = lit_spec::<T>(1);
    let (x, y, z, w) = (q.x, q.y, q.z, q.w);
    let (x2, y2, z2) = (x.mul_spec(x), y.mul_spec(y), z.mul_spec(z));
    let h = r.mul_spec(one.div_spec(lit_spec::<T>(2)));
    let i = one.div_spec(h);
    lemma_excess(y2.add_spec(z2), x2.add_spec(z2), x2.add_spec(y2));
    lemma_lead_term(x2, y2, z2);
    lemma_double(x2);
    lemma_double_double(x2);
    lemma_halves(x, r);
    lemma_leading(x, h, i);
    lemma_numerator_sum(x.mul_spec(y), w.mul_spec(z));
    lemma_numerator_sum(x.mul_spec(z), w.mul_spec(y));
    lemma_numerator_difference(y.mul_spec(z), w.mul_spec(x));
    lemma_component(x, y, x.mul_spec(y), i);
    lemma_component(x, z, x.mul_spec(z), i);
    lemma_component(x, w, w.mul_spec(x), i);
}

/// The extraction where `y` leads.
proof fn lemma_lead_y<T: Scalar>(q: Quat<T>, r: T)
    requires
        is_field::<T>(),
        integers_embed::<T>(),
        ({
            let m = q.to_mat3_spec();
            r.mul_spec(r) == Quat::excess_spec(m.b.y, m.a.x, m.c.z)
        }),
        r != lit_spec::<T>(0),
    ensures
        Quat::from_mat3_spec(q.to_mat3_spec(), Lead::Y, r) == q.scaled_spec(sign_spec(q.y, r)),
        sign_spec(q.y, r).mul_spec(sign_spec(q.y, r)) == lit_spec::<T>(1),
{
    let one = lit_spec::<T>(1);
    let (x, y, z, w) = (q.x, q.y, q.z, q.w);
    let (x2, y2, z2) = (x.mul_spec(x), y.mul_spec(y), z.mul_spec(z));
    let h = r.mul_spec(one.div_spec(lit_spec::<T>(2)));
    let i = one.div_spec(h);
    lemma_excess(x2.add_spec(z2), y2.add_spec(z2), x2.add_spec(y2));
    ax_add_comm(x2, y2);
    lemma_lead_term(y2, x2, z2);
    lemma_double(y2);
    lemma_double_double(y2);
    lemma_halves(y, r);
    lemma_leading(y, h, i);
    lemma_numerator_sum(x.mul_spec(y), w.mul_spec(z));
    lemma_numerator_sum(y.mul_spec(z), w.mul_spec(x));
    lemma_numerator_difference(x.mul_spec(z), w.mul_spec(y));
    lemma_component(y, x, x.mul_spec(y), i);
    lemma_component(y, z, y.mul_spec(z), i);
    lemma_component(y, w, w.mul_spec(y), i);
}

/// The extraction where `z` leads.
proof fn lemma_lead_z<T: Scalar>(q: Quat<T>, r: T)
    requires
        is_field::<T>(),
        integers_embed::<T>(),
        ({
            let m = q.to_mat3_spec();
            r.mul_spec(r) == Quat::excess_spec(m.c.z, m.a.x, m.b.y)
        }),
        r != lit_spec::<T>(0),
    ensures
        Quat::from_mat3_spec(q.to_mat3_spec(), Lead::Z, r) == q.scaled_spec(sign_spec(q.z, r)),
        sign_spec(q.z, r).mul_spec(sign_spec(q.z, r)) == lit_spec::<T>(1),
{
    let one = lit_spec::<T>(1);
    let (x, y, z, w) = (q.x, q.y, q.z, q.w);
    let (x2, y2, z2) = (x.mul_spec(x), y.mul_spec(y), z.mul_spec(z));
    let h = r.mul_spec(one.div_spec(lit_spec::<T>(2)));
    let i = one.div_spec(h);
    lemma_excess(x2.add_spec(y2), y2.add_spec(z2), x2.add_spec(z2));
    ax_add_comm(y2, z2);
    ax_add_comm(x2, z2);
    lemma_lead_term(z2, x2, y2);
    lemma_double(z2);
    lemma_double_double(z2);
    lemma_halves(z, r);
    lemma_leading(z, h, i);
    lemma_numerator_sum(x.mul_spec(z), w.mul_spec(y));
    lemma_numerator_sum(y.mul_spec(z), w.mul_spec(x));
    lemma_numerator_difference(x.mul_spec(y), w.mul_spec(z));
    lemma_component(z, x, x.mul_spec(z), i);
    lemma_component(z, y, y.mul_spec(z), i);
    lemma_component(z, w, w.mul_spec(z), i);
}

/// From the rotation matrix of a unit quaternion to a quaternion and back
/// gives the matrix again.
///
/// The quaternion in between is the one that the matrix came from or its
/// negative. This holds over a field that is not of characteristic two,
/// for every unit quaternion and every root `r` of the radicand but `0`.
pub proof fn lemma_round_trip<T: Scalar>(q: Quat<T>, r: T)
    requires
        is_field::<T>(),
        integers_embed::<T>(),
        q.norm2_spec() == lit_spec::<T>(1),
        r.mul_spec(r) == Quat::radicand_spec(q.to_mat3_spec()),
        r != lit_spec::<T>(0),
    ensures
        ({
            let m = q.to_mat3_spec();
            let back = Quat::from_mat3_spec(m, Quat::lead_spec(m), r);
            &&& back.to_mat3_spec() == m
            &&& exists|e: T| #[trigger]
                q.scaled_spec(e) == back && e.mul_spec(e) == lit_spec::<T>(1)
        }),
{
    let m = q.to_mat3_spec();
    let e = match Quat::lead_spec(m) {
        Lead::W => sign_spec(q.w, r),
        Lead::X => sign_spec(q.x, r),
        Lead::Y => sign_spec(q.y, r),
        Lead::Z => sign_spec(q.z, r),
    };
    match Quat::lead_spec(m) {
        Lead::W => {
            lemma_lead_w(q, r);
        },
        Lead::X => {
            lemma_lead_x(q, r);
        },
        Lead::Y => {
            lemma_lead_y(q, r);
        },
        Lead::Z => {
            lemma_lead_z(q, r);
        },
    }
    lemma_sign(q, e);
    assert(q.scaled_spec(e) == Quat::from_mat3_spec(m, Quat::lead_spec(m), r));
}

} // verus!
