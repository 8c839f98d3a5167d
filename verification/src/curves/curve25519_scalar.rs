//! The scalar field shared by Ed25519 and Ristretto: integers modulo the
//! order of the prime-order subgroup of Curve25519.

use crate::field::{add_mod, mul_mod, sub_mod, FieldScalar};
use pasta_curves::group::ff::Field;
use vstd::prelude::*;

verus! {

#[verifier::external_type_specification]
#[verifier::external_body]
pub struct ExCurve25519Scalar(dalek_ff_group::Scalar);

/// The subgroup order, 2^252 + 27742317777372353535851937790883648493.
pub open spec fn curve25519_order() -> nat {
    0x1000000000000000000000000000000014def9dea2f79cd65812631a5cf5d3ednat
}

/// The integer that a scalar stands for: its canonical 32 bytes read as a
/// little-endian number. The curve library keeps every scalar reduced, so this
/// is the representative below the order.
pub uninterp spec fn curve25519_scalar_value(s: dalek_ff_group::Scalar) -> nat;

/// `Field::ZERO` of `dalek_ff_group::Scalar`. Taken for granted: it stands for
/// the integer 0.
#[inline]
#[verifier::external_body]
fn raw_zero() -> (r: dalek_ff_group::Scalar)
    ensures
        curve25519_scalar_value(r) == 0,
{
    <dalek_ff_group::Scalar as Field>::ZERO
}

/// `Field::ONE` of `dalek_ff_group::Scalar`. Taken for granted: it stands for
/// the integer 1.
#[inline]
#[verifier::external_body]
fn raw_one() -> (r: dalek_ff_group::Scalar)
    ensures
        curve25519_scalar_value(r) == 1,
{
    <dalek_ff_group::Scalar as Field>::ONE
}

/// `From<u64>` of `dalek_ff_group::Scalar`. Taken for granted: the result
/// stands for the integer given, which is below the order.
#[inline]
#[verifier::external_body]
fn raw_from_u64(v: u64) -> (r: dalek_ff_group::Scalar)
    ensures
        curve25519_scalar_value(r) == v,
{
    <dalek_ff_group::Scalar>::from(v)
}

/// `+` of `dalek_ff_group::Scalar`. Taken for granted: addition modulo the
/// order.
#[inline]
#[verifier::external_body]
fn raw_plus(a: &dalek_ff_group::Scalar, b: &dalek_ff_group::Scalar) -> (r: dalek_ff_group::Scalar)
    ensures
        curve25519_scalar_value(r) == add_mod(
            curve25519_scalar_value(*a),
            curve25519_scalar_value(*b),
            curve25519_order(),
        ),
{
    *a + *b
}

/// `-` of `dalek_ff_group::Scalar`. Taken for granted: subtraction modulo the
/// order.
#[inline]
#[verifier::external_body]
fn raw_minus(a: &dalek_ff_group::Scalar, b: &dalek_ff_group::Scalar) -> (r: dalek_ff_group::Scalar)
    ensures
        curve25519_scalar_value(r) == sub_mod(
            curve25519_scalar_value(*a),
            curve25519_scalar_value(*b),
            curve25519_order(),
        ),
{
    *a - *b
}

/// `*` of `dalek_ff_group::Scalar`. Taken for granted: multiplication modulo
/// the order.
#[inline]
#[verifier::external_body]
fn raw_times(a: &dalek_ff_group::Scalar, b: &dalek_ff_group::Scalar) -> (r: dalek_ff_group::Scalar)
    ensures
        curve25519_scalar_value(r) == mul_mod(
            curve25519_scalar_value(*a),
            curve25519_scalar_value(*b),
            curve25519_order(),
        ),
{
    *a * *b
}

/// `==` of `dalek_ff_group::Scalar`, which compares the canonical bytes. Taken
/// for granted: it holds exactly of scalars with the same value.
#[inline]
#[verifier::external_body]
fn raw_equals(a: &dalek_ff_group::Scalar, b: &dalek_ff_group::Scalar) -> (same: bool)
    ensures
        same == (curve25519_scalar_value(*a) == curve25519_scalar_value(*b)),
{
    *a == *b
}

/// A scalar of Ed25519 and of Ristretto.
#[derive(Clone, Copy)]
pub struct Curve25519Scalar {
    inner: dalek_ff_group::Scalar,
}

impl Curve25519Scalar {
    /// The library value behind this scalar.
    #[inline]
    pub(crate) fn raw(&self) -> (r: &dalek_ff_group::Scalar)
        ensures
            curve25519_scalar_value(*r) == self.value(),
    {
        &self.inner
    }
}

impl FieldScalar for Curve25519Scalar {
    open spec fn modulus() -> nat {
        curve25519_order()
    }

    closed spec fn value(&self) -> nat {
        curve25519_scalar_value(self.inner)
    }

    proof fn modulus_exceeds_u64() {
    }

    #[inline]
    fn zero() -> (r: Self) {
        Curve25519Scalar { inner: raw_zero() }
    }

    #[inline]
    fn one() -> (r: Self) {
        Curve25519Scalar { inner: raw_one() }
    }

    #[inline]
    fn from_u64(v: u64) -> (r: Self) {
        Curve25519Scalar { inner: raw_from_u64(v) }
    }

    #[inline]
    fn plus(&self, rhs: &Self) -> (r: Self) {
        Curve25519Scalar { inner: raw_plus(&self.inner, &rhs.inner) }
    }

    #[inline]
    fn minus(&self, rhs: &Self) -> (r: Self) {
        Curve25519Scalar { inner: raw_minus(&self.inner, &rhs.inner) }
    }

    #[inline]
    fn times(&self, rhs: &Self) -> (r: Self) {
        Curve25519Scalar { inner: raw_times(&self.inner, &rhs.inner) }
    }

    #[inline]
    fn equals(&self, rhs: &Self) -> (same: bool) {
        raw_equals(&self.inner, &rhs.inner)
    }
}

} // verus!
