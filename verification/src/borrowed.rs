//! The operators on borrowed operands.
//!
//! Each operator that takes its operands by value also takes them behind a
//! shared borrow, on either side or on both, and each assigning operator
//! takes a borrowed right operand. A form with a borrow does what the
//! by-value form does on the values behind it, and its contract says so:
//! its `..._req` and `..._spec` are those of the by-value form.

pub mod mat3;
pub mod mat4;
pub mod pt3;
pub mod quat;
pub mod vec3;
pub mod vec4;
