//! The determinant and the inverse of a 3×3 matrix over a field.

use crate::field::ax_add_comm;
use crate::field::ax_div;
use crate::field::ax_eq;
use crate::field::ax_mul_assoc;
use crate::field::ax_mul_comm;
use crate::field::is_field;
use crate::field::lemma_add_rotate;
use crate::field::lemma_factor_out;
use crate::field::lemma_mul_rotate;
use crate::field::lemma_mul_sub;
use crate::field::lemma_mul_swap_last;
use crate::field::lemma_mul_swap_outer;
use crate::field::lemma_mul_zero;
use crate::field::lemma_sub_add;
use crate::field::lemma_zero_add;
use crate::linear::lemma_cross_orthogonal_first;
use crate::linear::lemma_cross_orthogonal_second;
use crate::linear::lemma_triple_expand;
use crate::linear::lemma_triple_rotate;
use crate::mat3::Mat3;
use crate::scalar::lit_spec;
use crate::scalar::Scalar;
use crate::structure::EuclideanSpace;
use crate::structure::Mat;
use crate::structure::SquareMat;
use crate::vec3::Vec3;
use vstd::prelude::*;
use vstd::std_specs::ops::AddSpec;
use vstd::std_specs::ops::DivSpec;
use vstd::std_specs::ops::MulSpec;

verus! {

/// The determinant by cofactors is the scalar triple product of the
/// columns: `m.determinant() = (a × b) · c`. It is the value by which the
/// inversion divides.
///
/// This holds over a field.
pub proof fn lemma_determinant_is_triple<T: Scalar>(m: Mat3<T>)
    requires
        is_field::<T>(),
    ensures
        m.determinant_spec() == m.a.cross_spec(m.b).dot_spec(&m.c),
{
    let (a, b, c) = (m.a, m.b, m.c);
    lemma_triple_expand(a, b, c);
    // the cofactor expansion, term by term
    lemma_mul_sub(a.x, b.y.mul_spec(c.z), c.y.mul_spec(b.z));
    lemma_mul_sub(b.x, c.y.mul_spec(a.z), a.y.mul_spec(c.z));
    lemma_mul_sub(c.x, a.y.mul_spec(b.z), b.y.mul_spec(a.z));
    let (p1, n1) = (a.x.mul_spec(b.y.mul_spec(c.z)), a.x.mul_spec(c.y.mul_spec(b.z)));
    let (p2, n2) = (b.x.mul_spec(c.y.mul_spec(a.z)), b.x.mul_spec(a.y.mul_spec(c.z)));
    let (p3, n3) = (c.x.mul_spec(a.y.mul_spec(b.z)), c.x.mul_spec(b.y.mul_spec(a.z)));
    lemma_sub_add(p1, n1, p2, n2);
    lemma_sub_add(p1.add_spec(p2), n1.add_spec(n2), p3, n3);
    // each term is one of the triple product's
    lemma_term(a.x, b.y, c.z);
    lemma_term_rotated(b.x, c.y, a.z);
    lemma_term_rotated_twice(c.x, a.y, b.z);
    lemma_term_swapped(a.x, c.y, b.z);
    lemma_term_swapped_rotated(b.x, a.y, c.z);
    lemma_term_swapped_rotated_twice(c.x, b.y, a.z);
    // and the sums are the triple product's, in another order
    let (t1, t2, t3) = (
        a.y.mul_spec(b.z).mul_spec(c.x),
        a.z.mul_spec(b.x).mul_spec(c.y),
        a.x.mul_spec(b.y).mul_spec(c.z),
    );
    lemma_add_rotate(t3, t2, t1);
    ax_add_comm(t2, t1);
    lemma_add_rotate(
        a.z.mul_spec(b.y).mul_spec(c.x),
        a.x.mul_spec(b.z).mul_spec(c.y),
        a.y.mul_spec(b.x).mul_spec(c.z),
    );
}

/// `a·(b·c) = (a·b)·c`.
proof fn lemma_term<T: Scalar>(a: T, b: T, c: T)
    requires
        is_field::<T>(),
    ensures
        a.mul_spec(b.mul_spec(c)) == a.mul_spec(b).mul_spec(c),
{
    ax_mul_assoc(a, b, c);
}

/// `a·(b·c) = (c·a)·b`.
proof fn lemma_term_rotated<T: Scalar>(a: T, b: T, c: T)
    requires
        is_field::<T>(),
    ensures
        a.mul_spec(b.mul_spec(c)) == c.mul_spec(a).mul_spec(b),
{
    ax_mul_assoc(a, b, c);
    lemma_mul_rotate(c, a, b);
}

/// `a·(b·c) = (b·c)·a`.
proof fn lemma_term_rotated_twice<T: Scalar>(a: T, b: T, c: T)
    requires
        is_field::<T>(),
    ensures
        a.mul_spec(b.mul_spec(c)) == b.mul_spec(c).mul_spec(a),
{
    ax_mul_comm(a, b.mul_spec(c));
}

/// `a·(b·c) = (a·c)·b`.
proof fn lemma_term_swapped<T: Scalar>(a: T, b: T, c: T)
    requires
        is_field::<T>(),
    ensures
        a.mul_spec(b.mul_spec(c)) == a.mul_spec(c).mul_spec(b),
{
    ax_mul_assoc(a, b, c);
    lemma_mul_swap_last(a, b, c);
}

/// `a·(b·c) = (b·a)·c`.
proof fn lemma_term_swapped_rotated<T: Scalar>(a: T, b: T, c: T)
    requires
        is_field::<T>(),
    ensures
        a.mul_spec(b.mul_spec(c)) == b.mul_spec(a).mul_spec(c),
{
    ax_mul_assoc(a, b, c);
    ax_mul_comm(a, b);
}

/// `a·(b·c) = (c·b)·a`.
proof fn lemma_term_swapped_rotated_twice<T: Scalar>(a: T, b: T, c: T)
    requires
        is_field::<T>(),
    ensures
        a.mul_spec(b.mul_spec(c)) == c.mul_spec(b).mul_spec(a),
{
    ax_mul_assoc(a, b, c);
    lemma_mul_swap_outer(a, b, c);
}

/// One entry of a product whose left factor is scaled: with the row `r`
/// scaled by `i` and the column `k`,
/// `0 + (r.x·i)·k.x + (r.y·i)·k.y + (r.z·i)·k.z = i·(r · k)`.
proof fn lemma_scaled_sum<T: Scalar>(r: Vec3<T>, i: T, k: Vec3<T>)
    requires
        is_field::<T>(),
    ensures
        Mat3::sum_spec(
            r.x.mul_spec(i),
            k.x,
            r.y.mul_spec(i),
            k.y,
            r.z.mul_spec(i),
            k.z,
        ) == i.mul_spec(r.dot_spec(&k)),
{
    lemma_mul_swap_last(r.x, i, k.x);
    lemma_mul_swap_last(r.y, i, k.y);
    lemma_mul_swap_last(r.z, i, k.z);
    lemma_zero_add(r.x.mul_spec(k.x).mul_spec(i));
    lemma_factor_out(i, r.x.mul_spec(k.x), r.y.mul_spec(k.y), r.z.mul_spec(k.z));
}

/// The determinant by which the inversion divides: `(a × b) · c`.
spec fn triple_spec<T: Scalar>(m: Mat3<T>) -> T {
    m.a.cross_spec(m.b).dot_spec(&m.c)
}

/// What the inversion hands back where it hands back a matrix: the cross
/// products of the columns, each over the determinant.
spec fn inverse_spec<T: Scalar>(m: Mat3<T>) -> Mat3<T> {
    let i = lit_spec::<T>(1).div_spec(triple_spec(m));
    Mat3 {
        a: m.b.cross_spec(m.c).mul_spec(i),
        b: m.c.cross_spec(m.a).mul_spec(i),
        c: m.a.cross_spec(m.b).mul_spec(i),
    }
}

/// Over a field the inversion hands back a matrix exactly where the
/// determinant is not `0`, and then the matrix of `inverse_spec`.
proof fn lemma_invert_spec<T: Scalar>(m: Mat3<T>)
    requires
        is_field::<T>(),
    ensures
        m.invert_spec() is Some <==> triple_spec(m) != lit_spec::<T>(0),
        m.invert_spec() is Some ==> m.invert_spec() == Some(inverse_spec(m)),
{
    ax_eq(triple_spec(m), lit_spec::<T>(0));
}

/// The transpose of the inverse, times the matrix, is the identity.
proof fn lemma_dual<T: Scalar>(m: Mat3<T>)
    requires
        is_field::<T>(),
        triple_spec(m) != lit_spec::<T>(0),
    ensures
        inverse_spec(m).transposed().mul_spec(m) == Mat3::<T>::identity_spec(),
{
    let one = lit_spec::<T>(1);
    let (a, b, c) = (m.a, m.b, m.c);
    let det = triple_spec(m);
    let i = one.div_spec(det);
    let (r0, r1, r2) = (b.cross_spec(c), c.cross_spec(a), a.cross_spec(b));
    ax_div(one, det);
    lemma_mul_zero(i);
    lemma_triple_rotate(a, b, c);
    lemma_triple_rotate(c, a, b);
    lemma_cross_orthogonal_first(a, b);
    lemma_cross_orthogonal_second(a, b);
    lemma_cross_orthogonal_first(b, c);
    lemma_cross_orthogonal_second(b, c);
    lemma_cross_orthogonal_first(c, a);
    lemma_cross_orthogonal_second(c, a);
    lemma_scaled_sum(r0, i, a);
    lemma_scaled_sum(r1, i, a);
    lemma_scaled_sum(r2, i, a);
    lemma_scaled_sum(r0, i, b);
    lemma_scaled_sum(r1, i, b);
    lemma_scaled_sum(r2, i, b);
    lemma_scaled_sum(r0, i, c);
    lemma_scaled_sum(r1, i, c);
    lemma_scaled_sum(r2, i, c);
    let t = inverse_spec(m).transposed();
    assert(t.product_column_spec(a) == Vec3::<T>::unit_spec(0));
    assert(t.product_column_spec(b) == Vec3::<T>::unit_spec(1));
    assert(t.product_column_spec(c) == Vec3::<T>::unit_spec(2));
}

/// The inverse of a symmetric matrix is symmetric.
proof fn lemma_symmetric<T: Scalar>(m: Mat3<T>)
    requires
        is_field::<T>(),
        m.transposed() == m,
    ensures
        inverse_spec(m).transposed() == inverse_spec(m),
{
    ax_mul_comm(m.b.x, m.c.z);
    ax_mul_comm(m.b.y, m.c.x);
    ax_mul_comm(m.c.y, m.a.x);
}

/// The columns of the inverse are dual to the columns of the matrix: the
/// dot product of column `i` of the one with column `j` of the other is
/// `1` for `i = j` and `0` otherwise. In terms of the matrix product:
/// the transpose of the inverse times the matrix is the identity.
///
/// This holds over a field, for every matrix whose determinant is not
/// `0`.
pub proof fn lemma_inverse_is_dual<T: Scalar>(m: Mat3<T>)
    requires
        is_field::<T>(),
        m.determinant_spec() != lit_spec::<T>(0),
    ensures
        m.invert_spec() is Some,
        m.invert_spec().unwrap().transposed().mul_spec(m) == Mat3::<T>::identity_spec(),
{
    lemma_determinant_is_triple(m);
    lemma_invert_spec(m);
    lemma_dual(m);
}

/// The inverse of a matrix times the matrix is the identity, for every
/// symmetric matrix.
///
/// This holds over a field, for every symmetric matrix whose determinant
/// is not `0`. A matrix that is not symmetric has the law of
/// [`lemma_inverse_is_dual`] in its place: its inverse comes out
/// transposed with respect to the matrix product.
pub proof fn lemma_inverse_times_matrix<T: Scalar>(m: Mat3<T>)
    requires
        is_field::<T>(),
        m.determinant_spec() != lit_spec::<T>(0),
        m.transposed() == m,
    ensures
        m.invert_spec() is Some,
        m.invert_spec().unwrap().mul_spec(m) == Mat3::<T>::identity_spec(),
{
    lemma_determinant_is_triple(m);
    lemma_invert_spec(m);
    lemma_dual(m);
    lemma_symmetric(m);
}

/// A matrix whose determinant is `0` has no inverse.
///
/// This holds over a field.
pub proof fn lemma_singular_has_no_inverse<T: Scalar>(m: Mat3<T>)
    requires
        is_field::<T>(),
        m.determinant_spec() == lit_spec::<T>(0),
    ensures
        m.invert_spec() is None,
{
    lemma_determinant_is_triple(m);
    lemma_invert_spec(m);
}

} // verus!
