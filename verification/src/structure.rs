//! The algebraic structure that the concrete types share: spaces with a dot
//! product, vector spaces over them, and matrices.

use crate::scalar::exact;
use crate::scalar::lifts;
use crate::scalar::Scalar;
use std::ops::Add;
use std::ops::Div;
use std::ops::Index;
use std::ops::IndexMut;
use std::ops::Mul;
use std::ops::Neg;
use std::ops::Sub;
use vstd::prelude::*;
use vstd::std_specs::ops::AddSpec;
use vstd::std_specs::ops::DivSpec;
use vstd::std_specs::ops::MulSpec;
use vstd::std_specs::ops::NegSpec;
use vstd::std_specs::ops::SubSpec;

verus! {

/// A type with a dot product against vectors of type `V`.
pub trait EuclideanSpace<V>: Sized {
    type Scalar: Scalar;

    /// Whether every operation of the dot product accepts its operands.
    spec fn dot_req(&self, other: &V) -> bool;

    /// The dot product, as the expression that [`Self::dot`] evaluates.
    spec fn dot_spec(&self, other: &V) -> Self::Scalar;

    fn dot(&self, other: &V) -> (r: Self::Scalar)
        requires
            exact::<Self::Scalar>(),
            self.dot_req(other),
        ensures
            r == self.dot_spec(other),
    ;
}

/// Whether the vector operators of `V` return what their specifications
/// say, and the operators of its scalar too.
pub open spec fn exact_space<
    V: EuclideanSpace<V> + Add<Output = V> + Sub<Output = V> + Mul<
        <V as EuclideanSpace<V>>::Scalar,
        Output = V,
    > + Div<<V as EuclideanSpace<V>>::Scalar, Output = V> + Neg<Output = V>,
>() -> bool {
    &&& exact::<<V as EuclideanSpace<V>>::Scalar>()
    &&& <V as AddSpec>::obeys_add_spec()
    &&& <V as SubSpec>::obeys_sub_spec()
    &&& <V as MulSpec<<V as EuclideanSpace<V>>::Scalar>>::obeys_mul_spec()
    &&& <V as DivSpec<<V as EuclideanSpace<V>>::Scalar>>::obeys_div_spec()
    &&& <V as NegSpec>::obeys_neg_spec()
}

/// The squared length of `v`: its dot product with itself.
pub open spec fn norm2_spec<V: EuclideanSpace<V>>(v: V) -> V::Scalar {
    v.dot_spec(&v)
}

/// What projecting `v` on `on` needs: both dot products, their quotient
/// and the scaling of `on` by it.
pub open spec fn project_on_req<
    V: EuclideanSpace<V> + Mul<<V as EuclideanSpace<V>>::Scalar, Output = V>,
>(v: V, on: V) -> bool {
    &&& v.dot_req(&on)
    &&& on.dot_req(&on)
    &&& v.dot_spec(&on).div_req(norm2_spec(on))
    &&& on.mul_req(v.dot_spec(&on).div_spec(norm2_spec(on)))
}

/// The projection of `v` on `on`: `on * ((v · on) / (on · on))`.
pub open spec fn project_on_spec<
    V: EuclideanSpace<V> + Mul<<V as EuclideanSpace<V>>::Scalar, Output = V>,
>(v: V, on: V) -> V {
    on.mul_spec(v.dot_spec(&on).div_spec(norm2_spec(on)))
}

/// What rejecting `v` from `on` needs: the projection, and its subtraction
/// from `v`.
pub open spec fn reject_on_req<
    V: EuclideanSpace<V> + Mul<<V as EuclideanSpace<V>>::Scalar, Output = V> + Sub<Output = V>,
>(v: V, on: V) -> bool {
    &&& project_on_req(v, on)
    &&& v.sub_req(project_on_spec(v, on))
}

/// The rejection of `v` from `on`: `v` less its projection on `on`.
pub open spec fn reject_on_spec<
    V: EuclideanSpace<V> + Mul<<V as EuclideanSpace<V>>::Scalar, Output = V> + Sub<Output = V>,
>(v: V, on: V) -> V {
    v.sub_spec(project_on_spec(v, on))
}

/// A vector space with a dot product: vectors add, subtract and negate, and
/// scale by a scalar.
///
/// The methods are written once, over the operators, for every
/// implementor. Nothing guards a division: projecting on a vector whose
/// squared length the scalar type cannot divide by is left to the scalar
/// type, which may refuse it (an integer) or hand back a value that stands
/// for no number (a float).
pub trait VecSpace: EuclideanSpace<Self> + Copy + Index<usize> + IndexMut<usize> + Add<
    Output = Self,
> + Sub<Output = Self> + Mul<<Self as EuclideanSpace<Self>>::Scalar, Output = Self> + Div<
    <Self as EuclideanSpace<Self>>::Scalar,
    Output = Self,
> + Neg<Output = Self> {
    /// The part of `self` that lies along `on`.
    fn project_on(&self, on: &Self) -> (r: Self)
        requires
            exact_space::<Self>(),
            project_on_req(*self, *on),
        ensures
            r == project_on_spec(*self, *on),
    {
        *on * (self.dot(on) / on.norm2())
    }

    /// The part of `self` that is left once its projection on `on` is taken
    /// away.
    fn reject_on(&self, on: &Self) -> (r: Self)
        requires
            exact_space::<Self>(),
            reject_on_req(*self, *on),
        ensures
            r == reject_on_spec(*self, *on),
    {
        *self - self.project_on(on)
    }

    /// The squared length.
    fn norm2(&self) -> (r: Self::Scalar)
        requires
            exact::<Self::Scalar>(),
            self.dot_req(self),
        ensures
            r == norm2_spec(*self),
    {
        self.dot(self)
    }
}

/// Whether, for values of type `V`, adding back what was subtracted gives
/// the value that one started from: `b + (a − b) = a` wherever `a − b` is
/// accepted.
///
/// It holds of the integers and of every exact number type. It fails for
/// numbers that round, where the sum only comes close to `a`.
pub open spec fn sub_then_add_cancels<V: Add<Output = V> + Sub<Output = V>>() -> bool {
    forall|a: V, b: V| #[trigger] a.sub_req(b) ==> b.add_spec(a.sub_spec(b)) == a
}

/// A vector is the sum of its projection on `on` and its rejection from
/// `on`, for every vector type in which subtraction is undone by addition.
pub proof fn lemma_projection_plus_rejection<V: VecSpace>(v: V, on: V)
    requires
        sub_then_add_cancels::<V>(),
        reject_on_req(v, on),
    ensures
        project_on_spec(v, on).add_spec(reject_on_spec(v, on)) == v,
{
}

/// A matrix stored as a sequence of columns.
///
/// Indexing yields a column. Transposing trades the two indices, so the
/// transpose's rows are this matrix's columns and the other way round.
pub trait Mat: Sized + Clone + Index<usize, Output = Self::Column> + IndexMut<
    usize,
    Output = Self::Column,
> {
    type Scalar: Scalar;

    type Row;

    type Column;

    /// The type of the transpose. Each implementor names it outright.
    type Transpose;

    /// The matrix whose every entry is `0`.
    spec fn zero_spec() -> Self;

    fn zero() -> (m: Self)
        ensures
            lifts::<Self::Scalar>() ==> m == Self::zero_spec(),
    ;

    /// The matrix whose entry at `(i, j)` is this matrix's entry at `(j, i)`.
    spec fn transposed(&self) -> Self::Transpose;

    fn transpose(&self) -> (t: Self::Transpose)
        ensures
            t == self.transposed(),
    ;
}

/// A matrix with as many rows as columns: it is its own transpose type, its
/// rows and columns are vectors of one type, and it multiplies with itself
/// and with such a vector.
pub trait SquareMat: Mat<Row = Self::RowColumn, Column = Self::RowColumn, Transpose = Self> + Mul<
    Self,
    Output = Self,
> + Mul<Self::RowColumn, Output = Self::RowColumn> {
    type RowColumn;

    /// The matrix with `1` along its diagonal and `0` everywhere else.
    spec fn identity_spec() -> Self;

    fn identity() -> (m: Self)
        ensures
            lifts::<<Self as Mat>::Scalar>() ==> m == Self::identity_spec(),
    ;

    /// The matrix with the components of `d` along its diagonal and `0`
    /// everywhere else.
    spec fn diagonal(d: Self::RowColumn) -> Self;

    fn from_diagonal(d: Self::RowColumn) -> (m: Self)
        ensures
            lifts::<<Self as Mat>::Scalar>() ==> m == Self::diagonal(d),
    ;

    /// Whether every operation of the determinant accepts its operands.
    spec fn determinant_req(&self) -> bool;

    /// The determinant, as the expression that [`Self::determinant`]
    /// evaluates.
    spec fn determinant_spec(&self) -> <Self as Mat>::Scalar;

    fn determinant(&self) -> (d: <Self as Mat>::Scalar)
        requires
            exact::<<Self as Mat>::Scalar>(),
            self.determinant_req(),
        ensures
            d == self.determinant_spec(),
    ;

    /// Whether every operation of the inversion accepts its operands.
    spec fn invert_req(&self) -> bool;

    /// What [`Self::invert`] returns: nothing where the determinant equals
    /// `0`, and the matrix built from it where it does not.
    spec fn invert_spec(&self) -> Option<Self>;

    /// Inverts the matrix, unless its determinant is `0`.
    ///
    /// The test is `determinant != 0` as the scalar type decides it, with no
    /// tolerance: a determinant that is merely small is divided by.
    fn invert(&self) -> (r: Option<Self>)
        requires
            exact::<<Self as Mat>::Scalar>(),
            self.invert_req(),
        ensures
            r == self.invert_spec(),
    ;

    /// Transposing twice gives the matrix back.
    proof fn lemma_transpose_involution(&self)
        ensures
            self.transposed().transposed() == *self,
    ;
}

} // verus!
