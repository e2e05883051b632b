//! Fields: the component types that compute exactly.
//!
//! A component type is a field where its operators obey the usual laws of
//! arithmetic without exception. Numbers that round are no field, and the
//! integers are none either, for want of a division that undoes
//! multiplication. The laws that the library states of its operations are
//! stated for fields: for other component types they describe what the
//! formulas aim at.
//!
//! Each law of arithmetic is a predicate of its own, kept opaque so that a
//! proof draws on it one instance at a time, through the function that
//! bears its name.

use crate::scalar::lit_spec;
use crate::scalar::Scalar;
use crate::scalar::MINUS_ONE;
use vstd::prelude::*;
use vstd::std_specs::cmp::PartialEqSpec;
use vstd::std_specs::ops::AddSpec;
use vstd::std_specs::ops::DivSpec;
use vstd::std_specs::ops::MulSpec;
use vstd::std_specs::ops::NegSpec;
use vstd::std_specs::ops::SubSpec;

verus! {

/// `a + b = b + a`.
#[verifier::opaque]
pub open spec fn add_commutes<T: Scalar>() -> bool {
    forall|a: T, b: T| #[trigger] a.add_spec(b) == b.add_spec(a)
}

/// `(a + b) + c = a + (b + c)`.
#[verifier::opaque]
pub open spec fn add_associates<T: Scalar>() -> bool {
    forall|a: T, b: T, c: T| #[trigger] a.add_spec(b).add_spec(c) == a.add_spec(b.add_spec(c))
}

/// `a + 0 = a`.
#[verifier::opaque]
pub open spec fn zero_is_neutral<T: Scalar>() -> bool {
    forall|a: T| #[trigger] a.add_spec(lit_spec::<T>(0)) == a
}

/// `a + (-a) = 0`.
#[verifier::opaque]
pub open spec fn neg_undoes_add<T: Scalar>() -> bool {
    forall|a: T| #[trigger] a.add_spec(a.neg_spec()) == lit_spec::<T>(0)
}

/// `a - b = a + (-b)`.
#[verifier::opaque]
pub open spec fn sub_adds_neg<T: Scalar>() -> bool {
    forall|a: T, b: T| #[trigger] a.sub_spec(b) == a.add_spec(b.neg_spec())
}

/// `a · b = b · a`.
#[verifier::opaque]
pub open spec fn mul_commutes<T: Scalar>() -> bool {
    forall|a: T, b: T| #[trigger] a.mul_spec(b) == b.mul_spec(a)
}

/// `(a · b) · c = a · (b · c)`.
#[verifier::opaque]
pub open spec fn mul_associates<T: Scalar>() -> bool {
    forall|a: T, b: T, c: T| #[trigger] a.mul_spec(b).mul_spec(c) == a.mul_spec(b.mul_spec(c))
}

/// `a · 1 = a`.
#[verifier::opaque]
pub open spec fn one_is_neutral<T: Scalar>() -> bool {
    forall|a: T| #[trigger] a.mul_spec(lit_spec::<T>(1)) == a
}

/// `a · (b + c) = a · b + a · c`.
#[verifier::opaque]
pub open spec fn mul_distributes<T: Scalar>() -> bool {
    forall|a: T, b: T, c: T| #[trigger]
        a.mul_spec(b.add_spec(c)) == a.mul_spec(b).add_spec(a.mul_spec(c))
}

/// `(a / b) · b = a` unless `b` is `0`.
#[verifier::opaque]
pub open spec fn div_undoes_mul<T: Scalar>() -> bool {
    forall|a: T, b: T| b != lit_spec::<T>(0) ==> #[trigger] a.div_spec(b).mul_spec(b) == a
}

/// `a == b` tells whether `a` and `b` are the same value.
#[verifier::opaque]
pub open spec fn eq_is_identity<T: Scalar>() -> bool {
    forall|a: T, b: T| #[trigger] a.eq_spec(&b) == (a == b)
}

/// Whether the operators of `T` are those of a field, and its `==` is
/// identity.
pub open spec fn is_field<T: Scalar>() -> bool {
    &&& eq_is_identity::<T>()
    &&& add_commutes::<T>()
    &&& add_associates::<T>()
    &&& zero_is_neutral::<T>()
    &&& neg_undoes_add::<T>()
    &&& sub_adds_neg::<T>()
    &&& mul_commutes::<T>()
    &&& mul_associates::<T>()
    &&& one_is_neutral::<T>()
    &&& mul_distributes::<T>()
    &&& div_undoes_mul::<T>()
}

/// `a == b` is identity.
pub proof fn ax_eq<T: Scalar>(a: T, b: T)
    requires
        is_field::<T>(),
    ensures
        a.eq_spec(&b) == (a == b),
{
    reveal(eq_is_identity);
}

/// `a + b = b + a`.
pub proof fn ax_add_comm<T: Scalar>(a: T, b: T)
    requires
        is_field::<T>(),
    ensures
        a.add_spec(b) == b.add_spec(a),
{
    reveal(add_commutes);
}

/// `(a + b) + c = a + (b + c)`.
pub proof fn ax_add_assoc<T: Scalar>(a: T, b: T, c: T)
    requires
        is_field::<T>(),
    ensures
        a.add_spec(b).add_spec(c) == a.add_spec(b.add_spec(c)),
{
    reveal(add_associates);
}

/// `a + 0 = a`.
pub proof fn ax_add_zero<T: Scalar>(a: T)
    requires
        is_field::<T>(),
    ensures
        a.add_spec(lit_spec::<T>(0)) == a,
{
    reveal(zero_is_neutral);
}

/// `a + (-a) = 0`.
pub proof fn ax_add_neg<T: Scalar>(a: T)
    requires
        is_field::<T>(),
    ensures
        a.add_spec(a.neg_spec()) == lit_spec::<T>(0),
{
    reveal(neg_undoes_add);
}

/// `a - b = a + (-b)`.
pub proof fn ax_sub<T: Scalar>(a: T, b: T)
    requires
        is_field::<T>(),
    ensures
        a.sub_spec(b) == a.add_spec(b.neg_spec()),
{
    reveal(sub_adds_neg);
}

/// `a · b = b · a`.
pub proof fn ax_mul_comm<T: Scalar>(a: T, b: T)
    requires
        is_field::<T>(),
    ensures
        a.mul_spec(b) == b.mul_spec(a),
{
    reveal(mul_commutes);
}

/// `(a · b) · c = a · (b · c)`.
pub proof fn ax_mul_assoc<T: Scalar>(a: T, b: T, c: T)
    requires
        is_field::<T>(),
    ensures
        a.mul_spec(b).mul_spec(c) == a.mul_spec(b.mul_spec(c)),
{
    reveal(mul_associates);
}

/// `a · 1 = a`.
pub proof fn ax_mul_one<T: Scalar>(a: T)
    requires
        is_field::<T>(),
    ensures
        a.mul_spec(lit_spec::<T>(1)) == a,
{
    reveal(one_is_neutral);
}

/// `a · (b + c) = a · b + a · c`.
pub proof fn ax_distrib<T: Scalar>(a: T, b: T, c: T)
    requires
        is_field::<T>(),
    ensures
        a.mul_spec(b.add_spec(c)) == a.mul_spec(b).add_spec(a.mul_spec(c)),
{
    reveal(mul_distributes);
}

/// `(a / b) · b = a` unless `b` is `0`.
pub proof fn ax_div<T: Scalar>(a: T, b: T)
    requires
        is_field::<T>(),
        b != lit_spec::<T>(0),
    ensures
        a.div_spec(b).mul_spec(b) == a,
{
    reveal(div_undoes_mul);
}

/// `0 + a = a`.
pub proof fn lemma_zero_add<T: Scalar>(a: T)
    requires
        is_field::<T>(),
    ensures
        lit_spec::<T>(0).add_spec(a) == a,
{
    ax_add_comm(lit_spec::<T>(0), a);
    ax_add_zero(a);
}

/// What was subtracted can be added back: `b + (a − b) = a`.
pub proof fn lemma_add_back<T: Scalar>(a: T, b: T)
    requires
        is_field::<T>(),
    ensures
        b.add_spec(a.sub_spec(b)) == a,
{
    ax_sub(a, b);
    ax_add_comm(a, b.neg_spec());
    ax_add_assoc(b, b.neg_spec(), a);
    ax_add_neg(b);
    lemma_zero_add(a);
}

/// `a − a = 0`.
pub proof fn lemma_sub_self<T: Scalar>(a: T)
    requires
        is_field::<T>(),
    ensures
        a.sub_spec(a) == lit_spec::<T>(0),
{
    ax_sub(a, a);
    ax_add_neg(a);
}

/// A summand can be struck from both sides.
pub proof fn lemma_cancel<T: Scalar>(a: T, b: T, c: T)
    requires
        is_field::<T>(),
        a.add_spec(b) == a.add_spec(c),
    ensures
        b == c,
{
    let o = lit_spec::<T>(0);
    let na = a.neg_spec();
    ax_add_comm(a, na);
    ax_add_neg(a);
    ax_add_assoc(na, a, b);
    ax_add_assoc(na, a, c);
    ax_add_comm(o, b);
    ax_add_zero(b);
    ax_add_comm(o, c);
    ax_add_zero(c);
}

/// Anything times `0` is `0`.
pub proof fn lemma_mul_zero<T: Scalar>(a: T)
    requires
        is_field::<T>(),
    ensures
        a.mul_spec(lit_spec::<T>(0)) == lit_spec::<T>(0),
{
    let o = lit_spec::<T>(0);
    let z = a.mul_spec(o);
    ax_add_zero(o);
    ax_distrib(a, o, o);
    ax_add_zero(z);
    lemma_cancel(z, z, o);
}

/// A factor's sign can be taken out of a product.
pub proof fn lemma_mul_neg<T: Scalar>(a: T, b: T)
    requires
        is_field::<T>(),
    ensures
        a.mul_spec(b.neg_spec()) == a.mul_spec(b).neg_spec(),
{
    let ab = a.mul_spec(b);
    ax_distrib(a, b, b.neg_spec());
    ax_add_neg(b);
    lemma_mul_zero(a);
    ax_add_neg(ab);
    lemma_cancel(ab, a.mul_spec(b.neg_spec()), ab.neg_spec());
}

/// Multiplication distributes over subtraction.
pub proof fn lemma_mul_sub<T: Scalar>(a: T, b: T, c: T)
    requires
        is_field::<T>(),
    ensures
        a.mul_spec(b.sub_spec(c)) == a.mul_spec(b).sub_spec(a.mul_spec(c)),
{
    ax_sub(b, c);
    ax_distrib(a, b, c.neg_spec());
    lemma_mul_neg(a, c);
    ax_sub(a.mul_spec(b), a.mul_spec(c));
}

/// A difference times a factor is the difference of the products.
pub proof fn lemma_sub_mul<T: Scalar>(a: T, b: T, c: T)
    requires
        is_field::<T>(),
    ensures
        a.sub_spec(b).mul_spec(c) == a.mul_spec(c).sub_spec(b.mul_spec(c)),
{
    ax_mul_comm(a.sub_spec(b), c);
    lemma_mul_sub(c, a, b);
    ax_mul_comm(c, a);
    ax_mul_comm(c, b);
}

/// The negative of a sum is the sum of the negatives.
pub proof fn lemma_neg_add<T: Scalar>(a: T, b: T)
    requires
        is_field::<T>(),
    ensures
        a.add_spec(b).neg_spec() == a.neg_spec().add_spec(b.neg_spec()),
{
    let o = lit_spec::<T>(0);
    let na = a.neg_spec();
    let nb = b.neg_spec();
    let s = a.add_spec(b);
    ax_add_assoc(a, b, na.add_spec(nb));
    ax_add_comm(na, nb);
    ax_add_assoc(b, nb, na);
    ax_add_neg(b);
    ax_add_comm(o, na);
    ax_add_zero(na);
    ax_add_neg(a);
    assert(s.add_spec(na.add_spec(nb)) == o);
    ax_add_neg(s);
    lemma_cancel(s, na.add_spec(nb), s.neg_spec());
}

/// Two sums can trade their inner summands.
pub proof fn lemma_add_swap<T: Scalar>(a: T, b: T, c: T, d: T)
    requires
        is_field::<T>(),
    ensures
        a.add_spec(b).add_spec(c.add_spec(d)) == a.add_spec(c).add_spec(b.add_spec(d)),
{
    ax_add_assoc(a, b, c.add_spec(d));
    ax_add_assoc(b, c, d);
    ax_add_comm(b, c);
    ax_add_assoc(c, b, d);
    ax_add_assoc(a, c, b.add_spec(d));
}

/// The summands of a sum of three can be rotated: `(a+b)+c = (b+c)+a`.
pub proof fn lemma_add_rotate<T: Scalar>(a: T, b: T, c: T)
    requires
        is_field::<T>(),
    ensures
        a.add_spec(b).add_spec(c) == b.add_spec(c).add_spec(a),
{
    ax_add_assoc(a, b, c);
    ax_add_comm(a, b.add_spec(c));
}

/// A sum of differences is the difference of the sums.
pub proof fn lemma_sub_add<T: Scalar>(a: T, b: T, c: T, d: T)
    requires
        is_field::<T>(),
    ensures
        a.sub_spec(b).add_spec(c.sub_spec(d)) == a.add_spec(c).sub_spec(b.add_spec(d)),
{
    ax_sub(a, b);
    ax_sub(c, d);
    lemma_add_swap(a, b.neg_spec(), c, d.neg_spec());
    lemma_neg_add(b, d);
    ax_sub(a.add_spec(c), b.add_spec(d));
}

/// Two products can trade their inner factors.
pub proof fn lemma_mul_swap<T: Scalar>(a: T, b: T, c: T, d: T)
    requires
        is_field::<T>(),
    ensures
        a.mul_spec(b).mul_spec(c.mul_spec(d)) == a.mul_spec(c).mul_spec(b.mul_spec(d)),
{
    ax_mul_assoc(a, b, c.mul_spec(d));
    ax_mul_assoc(b, c, d);
    ax_mul_comm(b, c);
    ax_mul_assoc(c, b, d);
    ax_mul_assoc(a, c, b.mul_spec(d));
}

/// The factors of a product of three can be rotated: `(a·b)·c = (b·c)·a`.
pub proof fn lemma_mul_rotate<T: Scalar>(a: T, b: T, c: T)
    requires
        is_field::<T>(),
    ensures
        a.mul_spec(b).mul_spec(c) == b.mul_spec(c).mul_spec(a),
{
    ax_mul_assoc(a, b, c);
    ax_mul_comm(a, b.mul_spec(c));
}

/// The outer factors of a product of three can be swapped:
/// `(a·b)·c = (c·b)·a`.
pub proof fn lemma_mul_swap_outer<T: Scalar>(a: T, b: T, c: T)
    requires
        is_field::<T>(),
    ensures
        a.mul_spec(b).mul_spec(c) == c.mul_spec(b).mul_spec(a),
{
    lemma_mul_rotate(a, b, c);
    ax_mul_comm(b, c);
}

/// The last two factors of a product of three can be swapped:
/// `(a·b)·c = (a·c)·b`.
pub proof fn lemma_mul_swap_last<T: Scalar>(a: T, b: T, c: T)
    requires
        is_field::<T>(),
    ensures
        a.mul_spec(b).mul_spec(c) == a.mul_spec(c).mul_spec(b),
{
    ax_mul_assoc(a, b, c);
    ax_mul_comm(b, c);
    ax_mul_assoc(a, c, b);
}

/// A common factor can be taken out of a sum of three products.
pub proof fn lemma_factor_out<T: Scalar>(k: T, a: T, b: T, c: T)
    requires
        is_field::<T>(),
    ensures
        a.mul_spec(k).add_spec(b.mul_spec(k)).add_spec(c.mul_spec(k)) == k.mul_spec(
            a.add_spec(b).add_spec(c),
        ),
{
    ax_mul_comm(a, k);
    ax_mul_comm(b, k);
    ax_mul_comm(c, k);
    ax_distrib(k, a, b);
    ax_distrib(k, a.add_spec(b), c);
}

/// `−(−a) = a`.
pub proof fn lemma_neg_neg<T: Scalar>(a: T)
    requires
        is_field::<T>(),
    ensures
        a.neg_spec().neg_spec() == a,
{
    let na = a.neg_spec();
    ax_add_neg(a);
    ax_add_comm(a, na);
    ax_add_neg(na);
    lemma_cancel(na, na.neg_spec(), a);
}

/// `−0 = 0`.
pub proof fn lemma_neg_zero<T: Scalar>()
    requires
        is_field::<T>(),
    ensures
        lit_spec::<T>(0).neg_spec() == lit_spec::<T>(0),
{
    let o = lit_spec::<T>(0);
    ax_add_neg(o);
    lemma_zero_add(o.neg_spec());
}

/// `0 · a = 0`.
pub proof fn lemma_zero_mul<T: Scalar>(a: T)
    requires
        is_field::<T>(),
    ensures
        lit_spec::<T>(0).mul_spec(a) == lit_spec::<T>(0),
{
    ax_mul_comm(lit_spec::<T>(0), a);
    lemma_mul_zero(a);
}

/// `a − 0 = a`.
pub proof fn lemma_sub_zero<T: Scalar>(a: T)
    requires
        is_field::<T>(),
    ensures
        a.sub_spec(lit_spec::<T>(0)) == a,
{
    ax_sub(a, lit_spec::<T>(0));
    lemma_neg_zero::<T>();
    ax_add_zero(a);
}

/// `0 − a = −a`.
pub proof fn lemma_zero_sub<T: Scalar>(a: T)
    requires
        is_field::<T>(),
    ensures
        lit_spec::<T>(0).sub_spec(a) == a.neg_spec(),
{
    ax_sub(lit_spec::<T>(0), a);
    lemma_zero_add(a.neg_spec());
}

/// A factor's sign can be taken out of a product, on the left too.
pub proof fn lemma_neg_mul<T: Scalar>(a: T, b: T)
    requires
        is_field::<T>(),
    ensures
        a.neg_spec().mul_spec(b) == a.mul_spec(b).neg_spec(),
{
    ax_mul_comm(a.neg_spec(), b);
    lemma_mul_neg(b, a);
    ax_mul_comm(b, a);
}

/// `−(a − b) = b − a`.
pub proof fn lemma_neg_sub<T: Scalar>(a: T, b: T)
    requires
        is_field::<T>(),
    ensures
        a.sub_spec(b).neg_spec() == b.sub_spec(a),
{
    ax_sub(a, b);
    lemma_neg_add(a, b.neg_spec());
    lemma_neg_neg(b);
    ax_add_comm(a.neg_spec(), b);
    ax_sub(b, a);
}

/// A sum times a factor is the sum of the products.
pub proof fn lemma_add_mul<T: Scalar>(a: T, b: T, c: T)
    requires
        is_field::<T>(),
    ensures
        a.add_spec(b).mul_spec(c) == a.mul_spec(c).add_spec(b.mul_spec(c)),
{
    ax_mul_comm(a.add_spec(b), c);
    ax_distrib(c, a, b);
    ax_mul_comm(c, a);
    ax_mul_comm(c, b);
}

/// A difference of differences can trade its inner terms:
/// `(a − b) − (c − d) = (a − c) − (b − d)`.
pub proof fn lemma_sub_sub<T: Scalar>(a: T, b: T, c: T, d: T)
    requires
        is_field::<T>(),
    ensures
        a.sub_spec(b).sub_spec(c.sub_spec(d)) == a.sub_spec(c).sub_spec(b.sub_spec(d)),
{
    let (nb, nc, nd) = (b.neg_spec(), c.neg_spec(), d.neg_spec());
    ax_sub(a, b);
    ax_sub(c, d);
    ax_sub(a.sub_spec(b), c.sub_spec(d));
    lemma_neg_add(c, nd);
    lemma_neg_neg(d);
    lemma_add_swap(a, nb, nc, d);
    ax_sub(a, c);
    ax_sub(b, d);
    ax_sub(a.sub_spec(c), b.sub_spec(d));
    lemma_neg_add(b, nd);
}

/// Whether the small integers are taken up into `T` as sums of ones, `-1`
/// as the negative of `1`, and `1`, `2` and `4` are not `0` there: the
/// field does not have characteristic two.
pub open spec fn integers_embed<T: Scalar>() -> bool {
    &&& lit_spec::<T>(1) != lit_spec::<T>(0)
    &&& lit_spec::<T>(2) != lit_spec::<T>(0)
    &&& lit_spec::<T>(4) != lit_spec::<T>(0)
    &&& lit_spec::<T>(2) == lit_spec::<T>(1).add_spec(lit_spec::<T>(1))
    &&& lit_spec::<T>(4) == lit_spec::<T>(2).add_spec(lit_spec::<T>(2))
    &&& lit_spec::<T>(MINUS_ONE) == lit_spec::<T>(1).neg_spec()
}

/// `a · (−1) = −a`.
pub proof fn lemma_mul_minus_one<T: Scalar>(a: T)
    requires
        is_field::<T>(),
        integers_embed::<T>(),
    ensures
        a.mul_spec(lit_spec::<T>(MINUS_ONE)) == a.neg_spec(),
{
    lemma_mul_neg(a, lit_spec::<T>(1));
    ax_mul_one(a);
}

/// `1 · a = a`.
pub proof fn lemma_one_mul<T: Scalar>(a: T)
    requires
        is_field::<T>(),
    ensures
        lit_spec::<T>(1).mul_spec(a) == a,
{
    ax_mul_comm(lit_spec::<T>(1), a);
    ax_mul_one(a);
}

/// A factor other than `0` can be struck from both sides.
pub proof fn lemma_mul_cancel<T: Scalar>(a: T, b: T, c: T)
    requires
        is_field::<T>(),
        c != lit_spec::<T>(0),
        a.mul_spec(c) == b.mul_spec(c),
    ensures
        a == b,
{
    let i = lit_spec::<T>(1).div_spec(c);
    ax_div(lit_spec::<T>(1), c);
    ax_mul_comm(i, c);
    ax_mul_assoc(a, c, i);
    ax_mul_assoc(b, c, i);
    ax_mul_one(a);
    ax_mul_one(b);
}

/// `a + a = 2 · a`.
pub proof fn lemma_double<T: Scalar>(a: T)
    requires
        is_field::<T>(),
        integers_embed::<T>(),
    ensures
        a.add_spec(a) == lit_spec::<T>(2).mul_spec(a),
{
    let one = lit_spec::<T>(1);
    lemma_add_mul(one, one, a);
    lemma_one_mul(a);
}

/// `2 · (2 · a) = 4 · a`.
pub proof fn lemma_double_double<T: Scalar>(a: T)
    requires
        is_field::<T>(),
        integers_embed::<T>(),
    ensures
        lit_spec::<T>(2).mul_spec(lit_spec::<T>(2).mul_spec(a)) == lit_spec::<T>(4).mul_spec(a),
{
    let two = lit_spec::<T>(2);
    lemma_double(two.mul_spec(a));
    lemma_add_mul(two, two, a);
}

/// `(p + q) + (p − q) = p + p`.
pub proof fn lemma_sum_and_difference<T: Scalar>(p: T, q: T)
    requires
        is_field::<T>(),
    ensures
        p.add_spec(q).add_spec(p.sub_spec(q)) == p.add_spec(p),
{
    let nq = q.neg_spec();
    ax_sub(p, q);
    lemma_add_swap(p, q, p, nq);
    ax_add_neg(q);
    ax_add_zero(p.add_spec(p));
}

/// `(p + q) − (p − q) = q + q`.
pub proof fn lemma_sum_less_difference<T: Scalar>(p: T, q: T)
    requires
        is_field::<T>(),
    ensures
        p.add_spec(q).sub_spec(p.sub_spec(q)) == q.add_spec(q),
{
    let np = p.neg_spec();
    ax_sub(p.add_spec(q), p.sub_spec(q));
    lemma_neg_sub(p, q);
    ax_sub(q, p);
    lemma_add_swap(p, q, q, np);
    ax_add_comm(p, q);
    lemma_add_swap(q, p, q, np);
    ax_add_neg(p);
    ax_add_zero(q.add_spec(q));
}

/// `(s − k) + c = (s + c) − k`.
pub proof fn lemma_add_to_minuend<T: Scalar>(s: T, k: T, c: T)
    requires
        is_field::<T>(),
    ensures
        s.sub_spec(k).add_spec(c) == s.add_spec(c).sub_spec(k),
{
    let nk = k.neg_spec();
    ax_sub(s, k);
    ax_add_assoc(s, nk, c);
    ax_add_comm(nk, c);
    ax_add_assoc(s, c, nk);
    ax_sub(s.add_spec(c), k);
}

/// `(a + b) − a = b`.
pub proof fn lemma_take_back<T: Scalar>(a: T, b: T)
    requires
        is_field::<T>(),
    ensures
        a.add_spec(b).sub_spec(a) == b,
{
    let na = a.neg_spec();
    ax_sub(a.add_spec(b), a);
    ax_add_comm(a, b);
    ax_add_assoc(b, a, na);
    ax_add_neg(a);
    ax_add_zero(b);
}

/// `(a − b) − (a − c) = c − b`.
pub proof fn lemma_same_minuend<T: Scalar>(a: T, b: T, c: T)
    requires
        is_field::<T>(),
    ensures
        a.sub_spec(b).sub_spec(a.sub_spec(c)) == c.sub_spec(b),
{
    let (na, nb, nc) = (a.neg_spec(), b.neg_spec(), c.neg_spec());
    ax_sub(a, b);
    ax_sub(a, c);
    ax_sub(a.sub_spec(b), a.sub_spec(c));
    lemma_neg_add(a, nc);
    lemma_neg_neg(c);
    lemma_add_swap(a, nb, na, c);
    ax_add_neg(a);
    lemma_zero_add(nb.add_spec(c));
    ax_add_comm(nb, c);
    ax_sub(c, b);
}

/// `(u − (a − c)) + a = u + c`.
pub proof fn lemma_restore<T: Scalar>(u: T, a: T, c: T)
    requires
        is_field::<T>(),
    ensures
        u.sub_spec(a.sub_spec(c)).add_spec(a) == u.add_spec(c),
{
    let (na, nc) = (a.neg_spec(), c.neg_spec());
    ax_sub(a, c);
    ax_sub(u, a.sub_spec(c));
    lemma_neg_add(a, nc);
    lemma_neg_neg(c);
    ax_add_assoc(u, na.add_spec(c), a);
    ax_add_comm(na, c);
    ax_add_assoc(c, na, a);
    ax_add_comm(na, a);
    ax_add_neg(a);
    ax_add_zero(c);
}

} // verus!
