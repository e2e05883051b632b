//! Vectors over a field: what normalizing, projecting and rejecting are
//! good for.

use crate::field::ax_add_neg;
use crate::field::ax_distrib;
use crate::field::ax_div;
use crate::field::ax_mul_assoc;
use crate::field::ax_mul_comm;
use crate::field::ax_mul_one;
use crate::field::ax_sub;
use crate::field::is_field;
use crate::field::lemma_add_back;
use crate::field::lemma_factor_out;
use crate::field::lemma_mul_sub;
use crate::field::lemma_mul_swap;
use crate::field::lemma_sub_add;
use crate::pt3::Pt3;
use crate::scalar::lit_spec;
use crate::scalar::Scalar;
use crate::structure::EuclideanSpace;
use crate::structure::norm2_spec;
use crate::structure::project_on_spec;
use crate::structure::reject_on_spec;
use crate::vec3::Vec3;
use crate::vec4::Vec4;
use vstd::prelude::*;
use vstd::std_specs::ops::AddSpec;
use vstd::std_specs::ops::DivSpec;
use vstd::std_specs::ops::MulSpec;
use vstd::std_specs::ops::SubSpec;

verus! {

/// A vector is the sum of its projection on `on` and its rejection from
/// `on`.
///
/// This holds over a field.
pub proof fn lemma_projection_plus_rejection_vec3<T: Scalar>(v: Vec3<T>, on: Vec3<T>)
    requires
        is_field::<T>(),
    ensures
        project_on_spec(v, on).add_spec(reject_on_spec(v, on)) == v,
{
    let p = project_on_spec(v, on);
    lemma_add_back(v.x, p.x);
    lemma_add_back(v.y, p.y);
    lemma_add_back(v.z, p.z);
}

/// The law of [`lemma_projection_plus_rejection_vec3`], for vectors of
/// four components.
pub proof fn lemma_projection_plus_rejection_vec4<T: Scalar>(v: Vec4<T>, on: Vec4<T>)
    requires
        is_field::<T>(),
    ensures
        project_on_spec(v, on).add_spec(reject_on_spec(v, on)) == v,
{
    let p = project_on_spec(v, on);
    lemma_add_back(v.x, p.x);
    lemma_add_back(v.y, p.y);
    lemma_add_back(v.z, p.z);
    lemma_add_back(v.w, p.w);
}

/// The law of [`lemma_projection_plus_rejection_vec3`], for points.
pub proof fn lemma_projection_plus_rejection_pt3<T: Scalar>(v: Pt3<T>, on: Pt3<T>)
    requires
        is_field::<T>(),
    ensures
        project_on_spec(v, on).add_spec(reject_on_spec(v, on)) == v,
{
    let p = project_on_spec(v, on);
    lemma_add_back(v.x, p.x);
    lemma_add_back(v.y, p.y);
    lemma_add_back(v.z, p.z);
}

/// One term of the dot product of a rejection with `on`: with `r = v − o·k`,
/// `r·o = v·o − (o·o)·k`.
proof fn lemma_rejection_term<T: Scalar>(v: T, o: T, k: T)
    requires
        is_field::<T>(),
    ensures
        v.sub_spec(o.mul_spec(k)).mul_spec(o) == v.mul_spec(o).sub_spec(
            o.mul_spec(o).mul_spec(k),
        ),
{
    ax_mul_comm(v.sub_spec(o.mul_spec(k)), o);
    lemma_mul_sub(o, v, o.mul_spec(k));
    ax_mul_comm(o, v);
    ax_mul_assoc(o, o, k);
}

/// The rejection law on three components.
proof fn lemma_orthogonal3<T: Scalar>(v1: T, v2: T, v3: T, o1: T, o2: T, o3: T, k: T)
    requires
        is_field::<T>(),
        k.mul_spec(o1.mul_spec(o1).add_spec(o2.mul_spec(o2)).add_spec(o3.mul_spec(o3)))
            == v1.mul_spec(o1).add_spec(v2.mul_spec(o2)).add_spec(v3.mul_spec(o3)),
    ensures
        v1.sub_spec(o1.mul_spec(k)).mul_spec(o1).add_spec(
            v2.sub_spec(o2.mul_spec(k)).mul_spec(o2),
        ).add_spec(v3.sub_spec(o3.mul_spec(k)).mul_spec(o3)) == lit_spec::<T>(0),
{
    let (x1, x2, x3) = (v1.mul_spec(o1), v2.mul_spec(o2), v3.mul_spec(o3));
    let (q1, q2, q3) = (o1.mul_spec(o1), o2.mul_spec(o2), o3.mul_spec(o3));
    let (y1, y2, y3) = (q1.mul_spec(k), q2.mul_spec(k), q3.mul_spec(k));
    let n = x1.add_spec(x2).add_spec(x3);
    lemma_rejection_term(v1, o1, k);
    lemma_rejection_term(v2, o2, k);
    lemma_rejection_term(v3, o3, k);
    lemma_sub_add(x1, y1, x2, y2);
    lemma_sub_add(x1.add_spec(x2), y1.add_spec(y2), x3, y3);
    lemma_factor_out(k, q1, q2, q3);
    ax_sub(n, n);
    ax_add_neg(n);
}

/// The rejection law on four components.
proof fn lemma_orthogonal4<T: Scalar>(
    v1: T,
    v2: T,
    v3: T,
    v4: T,
    o1: T,
    o2: T,
    o3: T,
    o4: T,
    k: T,
)
    requires
        is_field::<T>(),
        k.mul_spec(
            o1.mul_spec(o1).add_spec(o2.mul_spec(o2)).add_spec(o3.mul_spec(o3)).add_spec(
                o4.mul_spec(o4),
            ),
        ) == v1.mul_spec(o1).add_spec(v2.mul_spec(o2)).add_spec(v3.mul_spec(o3)).add_spec(
            v4.mul_spec(o4),
        ),
    ensures
        v1.sub_spec(o1.mul_spec(k)).mul_spec(o1).add_spec(
            v2.sub_spec(o2.mul_spec(k)).mul_spec(o2),
        ).add_spec(v3.sub_spec(o3.mul_spec(k)).mul_spec(o3)).add_spec(
            v4.sub_spec(o4.mul_spec(k)).mul_spec(o4),
        ) == lit_spec::<T>(0),
{
    let (x1, x2, x3, x4) = (v1.mul_spec(o1), v2.mul_spec(o2), v3.mul_spec(o3), v4.mul_spec(o4));
    let (q1, q2, q3, q4) = (o1.mul_spec(o1), o2.mul_spec(o2), o3.mul_spec(o3), o4.mul_spec(o4));
    let (y1, y2, y3, y4) = (q1.mul_spec(k), q2.mul_spec(k), q3.mul_spec(k), q4.mul_spec(k));
    let n = x1.add_spec(x2).add_spec(x3).add_spec(x4);
    lemma_rejection_term(v1, o1, k);
    lemma_rejection_term(v2, o2, k);
    lemma_rejection_term(v3, o3, k);
    lemma_rejection_term(v4, o4, k);
    lemma_sub_add(x1, y1, x2, y2);
    lemma_sub_add(x1.add_spec(x2), y1.add_spec(y2), x3, y3);
    lemma_sub_add(x1.add_spec(x2).add_spec(x3), y1.add_spec(y2).add_spec(y3), x4, y4);
    lemma_factor_out(k, q1, q2, q3);
    ax_mul_comm(q4, k);
    ax_distrib(k, q1.add_spec(q2).add_spec(q3), q4);
    ax_sub(n, n);
    ax_add_neg(n);
}

/// What is left of a vector once its projection on `on` is taken away is
/// orthogonal to `on`: their dot product is `0`.
///
/// This holds over a field, for every `on` whose squared length is not
/// `0`.
pub proof fn lemma_rejection_is_orthogonal<T: Scalar>(v: Vec3<T>, on: Vec3<T>)
    requires
        is_field::<T>(),
        norm2_spec(on) != lit_spec::<T>(0),
    ensures
        reject_on_spec(v, on).dot_spec(&on) == lit_spec::<T>(0),
{
    let k = v.dot_spec(&on).div_spec(norm2_spec(on));
    ax_div(v.dot_spec(&on), norm2_spec(on));
    lemma_orthogonal3(v.x, v.y, v.z, on.x, on.y, on.z, k);
}

/// The law of [`lemma_rejection_is_orthogonal`], for vectors of four
/// components.
pub proof fn lemma_rejection_is_orthogonal_vec4<T: Scalar>(v: Vec4<T>, on: Vec4<T>)
    requires
        is_field::<T>(),
        norm2_spec(on) != lit_spec::<T>(0),
    ensures
        reject_on_spec(v, on).dot_spec(&on) == lit_spec::<T>(0),
{
    let k = v.dot_spec(&on).div_spec(norm2_spec(on));
    ax_div(v.dot_spec(&on), norm2_spec(on));
    lemma_orthogonal4(v.x, v.y, v.z, v.w, on.x, on.y, on.z, on.w, k);
}

/// The law of [`lemma_rejection_is_orthogonal`], for points.
pub proof fn lemma_rejection_is_orthogonal_pt3<T: Scalar>(v: Pt3<T>, on: Pt3<T>)
    requires
        is_field::<T>(),
        norm2_spec(on) != lit_spec::<T>(0),
    ensures
        reject_on_spec(v, on).dot_spec(&on) == lit_spec::<T>(0),
{
    let k = v.dot_spec(&on).div_spec(norm2_spec(on));
    ax_div(v.dot_spec(&on), norm2_spec(on));
    lemma_orthogonal3(v.x, v.y, v.z, on.x, on.y, on.z, k);
}

/// The normalization law on three components.
proof fn lemma_unit3<T: Scalar>(v1: T, v2: T, v3: T, n: T)
    requires
        is_field::<T>(),
        n.mul_spec(n) == v1.mul_spec(v1).add_spec(v2.mul_spec(v2)).add_spec(v3.mul_spec(v3)),
        n != lit_spec::<T>(0),
    ensures
        ({
            let i = lit_spec::<T>(1).div_spec(n);
            v1.mul_spec(i).mul_spec(v1.mul_spec(i)).add_spec(
                v2.mul_spec(i).mul_spec(v2.mul_spec(i)),
            ).add_spec(v3.mul_spec(i).mul_spec(v3.mul_spec(i)))
        }) == lit_spec::<T>(1),
{
    let one = lit_spec::<T>(1);
    let i = one.div_spec(n);
    let t = i.mul_spec(i);
    lemma_mul_swap(v1, i, v1, i);
    lemma_mul_swap(v2, i, v2, i);
    lemma_mul_swap(v3, i, v3, i);
    lemma_factor_out(t, v1.mul_spec(v1), v2.mul_spec(v2), v3.mul_spec(v3));
    lemma_mul_swap(i, i, n, n);
    ax_div(one, n);
    ax_mul_one(one);
}

/// The normalization law on four components.
proof fn lemma_unit4<T: Scalar>(v1: T, v2: T, v3: T, v4: T, n: T)
    requires
        is_field::<T>(),
        n.mul_spec(n) == v1.mul_spec(v1).add_spec(v2.mul_spec(v2)).add_spec(
            v3.mul_spec(v3),
        ).add_spec(v4.mul_spec(v4)),
        n != lit_spec::<T>(0),
    ensures
        ({
            let i = lit_spec::<T>(1).div_spec(n);
            v1.mul_spec(i).mul_spec(v1.mul_spec(i)).add_spec(
                v2.mul_spec(i).mul_spec(v2.mul_spec(i)),
            ).add_spec(v3.mul_spec(i).mul_spec(v3.mul_spec(i))).add_spec(
                v4.mul_spec(i).mul_spec(v4.mul_spec(i)),
            )
        }) == lit_spec::<T>(1),
{
    let one = lit_spec::<T>(1);
    let i = one.div_spec(n);
    let t = i.mul_spec(i);
    let (s1, s2, s3, s4) = (v1.mul_spec(v1), v2.mul_spec(v2), v3.mul_spec(v3), v4.mul_spec(v4));
    lemma_mul_swap(v1, i, v1, i);
    lemma_mul_swap(v2, i, v2, i);
    lemma_mul_swap(v3, i, v3, i);
    lemma_mul_swap(v4, i, v4, i);
    lemma_factor_out(t, s1, s2, s3);
    ax_mul_comm(s4, t);
    ax_distrib(t, s1.add_spec(s2).add_spec(s3), s4);
    lemma_mul_swap(i, i, n, n);
    ax_div(one, n);
    ax_mul_one(one);
}

/// A vector divided by a root of its squared length has the squared
/// length `1`.
///
/// This holds over a field, for every root `n` but `0`.
pub proof fn lemma_normalized_has_length_one<T: Scalar>(v: Vec3<T>, n: T)
    requires
        is_field::<T>(),
        n.mul_spec(n) == norm2_spec(v),
        n != lit_spec::<T>(0),
    ensures
        norm2_spec(v.div_spec(n)) == lit_spec::<T>(1),
{
    lemma_unit3(v.x, v.y, v.z, n);
}

/// The law of [`lemma_normalized_has_length_one`], for vectors of four
/// components.
pub proof fn lemma_normalized_has_length_one_vec4<T: Scalar>(v: Vec4<T>, n: T)
    requires
        is_field::<T>(),
        n.mul_spec(n) == norm2_spec(v),
        n != lit_spec::<T>(0),
    ensures
        norm2_spec(v.div_spec(n)) == lit_spec::<T>(1),
{
    lemma_unit4(v.x, v.y, v.z, v.w, n);
}

/// The law of [`lemma_normalized_has_length_one`], for points.
pub proof fn lemma_normalized_has_length_one_pt3<T: Scalar>(v: Pt3<T>, n: T)
    requires
        is_field::<T>(),
        n.mul_spec(n) == norm2_spec(v),
        n != lit_spec::<T>(0),
    ensures
        norm2_spec(v.div_spec(n)) == lit_spec::<T>(1),
{
    lemma_unit3(v.x, v.y, v.z, n);
}

} // verus!
