//! The scalar field of secp256k1: integers modulo the order of the curve.

use crate::field::{add_mod, mul_mod, sub_mod, FieldScalar};
use pasta_curves::group::ff::Field;
use vstd::prelude::*;

verus! {

#[verifier::external_type_specification]
#[verifier::external_body]
pub struct ExSecp256k1Scalar(k256::Scalar);

/// The order of secp256k1, 2^256 - 432420386565659656852420866394968145599.
pub open spec fn secp256k1_order() -> nat {
    0xfffffffffffffffffffffffffffffffebaaedce6af48a03bbfd25e8cd0364141nat
}

/// The integer that a scalar stands for: the representative below the order,
/// which the curve library holds as a reduced 256-bit number.
pub uninterp spec fn secp256k1_scalar_value(s: k256::Scalar) -> nat;

/// `Field::ZERO` of `k256::Scalar`. Taken for granted: it stands for the
/// integer 0.
#[inline]
#[verifier::external_body]
fn raw_zero() -> (r: k256::Scalar)
    ensures
        secp256k1_scalar_value(r) == 0,
{
    <k256::Scalar as Field>::ZERO
}

/// `Field::ONE` of `k256::Scalar`. Taken for granted: it stands for the integer
/// 1.
#[inline]
#[verifier::external_body]
fn raw_one() -> (r: k256::Scalar)
    ensures
        secp256k1_scalar_value(r) == 1,
{
    <k256::Scalar as Field>::ONE
}

/// `From<u64>` of `k256::Scalar`. Taken for granted: the result stands for the
/// integer given, which is below the order.
#[inline]
#[verifier::external_body]
fn raw_from_u64(v: u64) -> (r: k256::Scalar)
    ensures
        secp256k1_scalar_value(r) == v,
{
    <k256::Scalar>::from(v)
}

/// `+` of `k256::Scalar`. Taken for granted: addition modulo the order.
#[inline]
#[verifier::external_body]
fn raw_plus(a: &k256::Scalar, b: &k256::Scalar) -> (r: k256::Scalar)
    ensures
        secp256k1_scalar_value(r) == add_mod(
            secp256k1_scalar_value(*a),
            secp256k1_scalar_value(*b),
            secp256k1_order(),
        ),
{
    *a + *b
}

/// `-` of `k256::Scalar`. Taken for granted: subtraction modulo the order.
#[inline]
#[verifier::external_body]
fn raw_minus(a: &k256::Scalar, b: &k256::Scalar) -> (r: k256::Scalar)
    ensures
        secp256k1_scalar_value(r) == sub_mod(
            secp256k1_scalar_value(*a),
            secp256k1_scalar_value(*b),
            secp256k1_order(),
        ),
{
    *a - *b
}

/// `*` of `k256::Scalar`. Taken for granted: multiplication modulo the order.
#[inline]
#[verifier::external_body]
fn raw_times(a: &k256::Scalar, b: &k256::Scalar) -> (r: k256::Scalar)
    ensures
        secp256k1_scalar_value(r) == mul_mod(
            secp256k1_scalar_value(*a),
            secp256k1_scalar_value(*b),
            secp256k1_order(),
        ),
{
    *a * *b
}

/// `==` of `k256::Scalar`, which compares the reduced numbers. Taken for
/// granted: it holds exactly of scalars with the same value.
#[inline]
#[verifier::external_body]
fn raw_equals(a: &k256::Scalar, b: &k256::Scalar) -> (same: bool)
    ensures
        same == (secp256k1_scalar_value(*a) == secp256k1_scalar_value(*b)),
{
    *a == *b
}

/// A scalar of secp256k1.
#[derive(Clone, Copy)]
pub struct Secp256k1Scalar {
    inner: k256::Scalar,
}

impl Secp256k1Scalar {
    /// The library value behind this scalar.
    #[inline]
    pub(crate) fn raw(&self) -> (r: &k256::Scalar)
        ensures
            secp256k1_scalar_value(*r) == self.value(),
    {
        &self.inner
    }
}

impl FieldScalar for Secp256k1Scalar {
    open spec fn modulus() -> nat {
        secp256k1_order()
    }

    closed spec fn value(&self) -> nat {
        secp256k1_scalar_value(self.inner)
    }

    proof fn modulus_exceeds_u64() {
    }

    #[inline]
    fn zero() -> (r: Self) {
        Secp256k1Scalar { inner: raw_zero() }
    }

    #[inline]
    fn one() -> (r: Self) {
        Secp256k1Scalar { inner: raw_one() }
    }

    #[inline]
    fn from_u64(v: u64) -> (r: Self) {
        Secp256k1Scalar { inner: raw_from_u64(v) }
    }

    #[inline]
    fn plus(&self, rhs: &Self) -> (r: Self) {
        Secp256k1Scalar { inner: raw_plus(&self.inner, &rhs.inner) }
    }

    #[inline]
    fn minus(&self, rhs: &Self) -> (r: Self) {
        Secp256k1Scalar { inner: raw_minus(&self.inner, &rhs.inner) }
    }

    #[inline]
    fn times(&self, rhs: &Self) -> (r: Self) {
        Secp256k1Scalar { inner: raw_times(&self.inner, &rhs.inner) }
    }

    #[inline]
    fn equals(&self, rhs: &Self) -> (same: bool) {
        raw_equals(&self.inner, &rhs.inner)
    }
}

} // verus!
