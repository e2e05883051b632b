//! Vectors, points, matrices, quaternions and planes for 3D work, and the
//! operations between them.
//!
//! # Components
//!
//! Every type is generic over its component type, a [`scalar::Scalar`]:
//! anything with the arithmetic operators, an order and the small
//! integers. Nothing here names a number type of its own. Each operation
//! is an expression over the component type's operators, and its contract
//! states that expression, operator by operator and in evaluation order.
//! For component types whose operators are specified (the integers are),
//! this pins every result down; see [`scalar::exact`].
//!
//! Square roots, sines and cosines are not among the operators. Where a
//! formula needs one, the function takes it as an argument
//! ([`mat3::Mat3::from_angle_x`], [`quat::Quat::from_mat3`]) or stops
//! short of it ([`geometry::sqr_dst_pt_line`]).
//!
//! # Layout
//!
//! A matrix is a sequence of columns `a`, `b`, `c` (and `d`), and
//! `m[i][j]` is component `j` of column `i`. Arrays convert to and from
//! the types in that same order.
//!
//! # Operators
//!
//! The arithmetic operators take their operands by value, and behind a
//! shared borrow as well ([`borrowed`]): `&a + &b` is `a + b`.
//!
//! # Preconditions
//!
//! Each arithmetic function asks that the operators accept the operands
//! they will meet: for an integer type, that nothing overflows and no
//! divisor is zero. The predicate named `..._req` beside each function
//! lists these demands in evaluation order. On given numbers a caller
//! proves it by evaluation; where an expression runs several products
//! deep, naming an intermediate vector in an assertion first spares the
//! solver the search.
//!
//! # Laws
//!
//! What the formulas are good for is proved for every component type that
//! is a [`field`], which is to say for exact arithmetic:
//!
//! - [`laws`]: a normalized vector has length one; projection and
//!   rejection part a vector into two that are orthogonal;
//! - [`inverse3`], [`inverse4`]: the determinant by cofactors is the one
//!   that the inversion divides by, the columns of an inverse are dual to
//!   those of the matrix, and the inverse of a symmetric matrix undoes it;
//! - [`affine`]: composing transforms multiplies their linear parts, the
//!   identity is neutral, the inverse of a transform undoes it, and a
//!   plane carried by a transform holds the points that land on the plane;
//! - [`roundtrip`]: from the matrix of a unit quaternion to a quaternion
//!   and back gives the matrix again;
//! - [`incidence`]: what the intersections return lies on the planes
//!   that were intersected.
//!
//! A component type that rounds obeys these laws up to rounding only.
//!
//! # Degenerate input
//!
//! Arithmetic does not guard its divisions: dividing by zero is whatever
//! the component type makes of it. Inversion and the intersections
//! instead test their denominator and return `None`.

pub mod affine;
pub mod borrowed;
pub mod field;
pub mod geometry;
pub mod incidence;
pub mod inverse3;
pub mod inverse4;
pub mod laws;
pub mod linear;
pub mod mat3;
pub mod mat4;
pub mod plane;
pub mod pt3;
pub mod quat;
pub mod roundtrip;
pub mod scalar;
pub mod structure;
pub mod transform4;
pub mod vec3;
pub mod vec4;
