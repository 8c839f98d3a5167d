//! The groups that the harness is run over.
//!
//! Each module wraps one group, or one scalar field, of an established curve
//! library in a type of this crate and implements
//! [`crate::group::GroupElement`] or [`crate::field::FieldScalar`] for it.
//! The arithmetic itself is not verified here: each module lists, on its
//! private delegating functions, what is taken for granted about the library.
//!
//! Four things are taken for granted, and nothing else:
//!
//! - field arithmetic is arithmetic modulo the field's order, and a scalar
//!   made from an integer stands for that integer;
//! - the group operations are well defined on group elements: however an
//!   element is represented in memory, the encoding of a result depends only
//!   on the encodings of the operands, and on the value of the scalar;
//! - the neutral element and the generator encode as the byte strings
//!   written out in each module;
//! - equality holds exactly of values with the same encoding.
//!
//! No group law is assumed: that doubling agrees with adding an element to
//! itself, or that the neutral element is neutral, is for the curve
//! libraries to uphold, and the harness does not depend on it.

pub mod curve25519_scalar;
pub mod ed25519;
pub mod pallas;
pub mod pallas_scalar;
pub mod ristretto;
pub mod secp256k1;
pub mod secp256k1_scalar;
pub mod vesta;
pub mod vesta_scalar;
