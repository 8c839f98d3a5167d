//! The scalar field of Pallas: integers modulo the order of the Pallas group,
//! which is the base field of Vesta.

use crate::field::{add_mod, mul_mod, sub_mod, FieldScalar};
use pasta_curves::group::ff::Field;
use vstd::prelude::*;

verus! {

#[verifier::external_type_specification]
#[verifier::external_body]
pub struct ExPallasScalar(pasta_curves::pallas::Scalar);

/// The group order of Pallas, 2^254 + 45560315531506369815346746415080538113.
pub open spec fn pallas_order() -> nat {
    0x40000000000000000000000000000000224698fc0994a8dd8c46eb2100000001nat
}

/// The integer that a scalar stands for: the representative below the order,
/// which the curve library holds in Montgomery form, one form per element.
pub uninterp spec fn pallas_scalar_value(s: pasta_curves::pallas::Scalar) -> nat;

/// `Field::ZERO` of `pasta_curves::pallas::Scalar`. Taken for granted: it
/// stands for the integer 0.
#[inline]
#[verifier::external_body]
fn raw_zero() -> (r: pasta_curves::pallas::Scalar)
    ensures
        pallas_scalar_value(r) == 0,
{
    <pasta_curves::pallas::Scalar as Field>::ZERO
}

/// `Field::ONE` of `pasta_curves::pallas::Scalar`. Taken for granted: it stands
/// for the integer 1.
#[inline]
#[verifier::external_body]
fn raw_one() -> (r: pasta_curves::pallas::Scalar)
    ensures
        pallas_scalar_value(r) == 1,
{
    <pasta_curves::pallas::Scalar as Field>::ONE
}

/// `From<u64>` of `pasta_curves::pallas::Scalar`. Taken for granted: the result
/// stands for the integer given, which is below the order.
#[inline]
#[verifier::external_body]
fn raw_from_u64(v: u64) -> (r: pasta_curves::pallas::Scalar)
    ensures
        pallas_scalar_value(r) == v,
{
    <pasta_curves::pallas::Scalar>::from(v)
}

/// `+` of `pasta_curves::pallas::Scalar`. Taken for granted: addition modulo
/// the order.
#[inline]
#[verifier::external_body]
fn raw_plus(a: &pasta_curves::pallas::Scalar, b: &pasta_curves::pallas::Scalar) -> (r: pasta_curves::pallas::Scalar)
    ensures
        pallas_scalar_value(r) == add_mod(
            pallas_scalar_value(*a),
            pallas_scalar_value(*b),
            pallas_order(),
        ),
{
    *a + *b
}

/// `-` of `pasta_curves::pallas::Scalar`. Taken for granted: subtraction modulo
/// the order.
#[inline]
#[verifier::external_body]
fn raw_minus(a: &pasta_curves::pallas::Scalar, b: &pasta_curves::pallas::Scalar) -> (r: pasta_curves::pallas::Scalar)
    ensures
        pallas_scalar_value(r) == sub_mod(
            pallas_scalar_value(*a),
            pallas_scalar_value(*b),
            pallas_order(),
        ),
{
    *a - *b
}

/// `*` of `pasta_curves::pallas::Scalar`. Taken for granted: multiplication
/// modulo the order.
#[inline]
#[verifier::external_body]
fn raw_times(a: &pasta_curves::pallas::Scalar, b: &pasta_curves::pallas::Scalar) -> (r: pasta_curves::pallas::Scalar)
    ensures
        pallas_scalar_value(r) == mul_mod(
            pallas_scalar_value(*a),
            pallas_scalar_value(*b),
            pallas_order(),
        ),
{
    *a * *b
}

/// `==` of `pasta_curves::pallas::Scalar`, which compares the reduced limbs.
/// Taken for granted: it holds exactly of scalars with the same value.
#[inline]
#[verifier::external_body]
fn raw_equals(a: &pasta_curves::pallas::Scalar, b: &pasta_curves::pallas::Scalar) -> (same: bool)
    ensures
        same == (pallas_scalar_value(*a) == pallas_scalar_value(*b)),
{
    *a == *b
}

/// A scalar of Pallas.
#[derive(Clone, Copy)]
pub struct PallasScalar {
    inner: pasta_curves::pallas::Scalar,
}

impl PallasScalar {
    /// The library value behind this scalar.
    #[inline]
    pub(crate) fn raw(&self) -> (r: &pasta_curves::pallas::Scalar)
        ensures
            pallas_scalar_value(*r) == self.value(),
    {
        &self.inner
    }
}

impl FieldScalar for PallasScalar {
    open spec fn modulus() -> nat {
        pallas_order()
    }

    closed spec fn value(&self) -> nat {
        pallas_scalar_value(self.inner)
    }

    proof fn modulus_exceeds_u64() {
    }

    #[inline]
    fn zero() -> (r: Self) {
        PallasScalar { inner: raw_zero() }
    }

    #[inline]
    fn one() -> (r: Self) {
        PallasScalar { inner: raw_one() }
    }

    #[inline]
    fn from_u64(v: u64) -> (r: Self) {
        PallasScalar { inner: raw_from_u64(v) }
    }

    #[inline]
    fn plus(&self, rhs: &Self) -> (r: Self) {
        PallasScalar { inner: raw_plus(&self.inner, &rhs.inner) }
    }

    #[inline]
    fn minus(&self, rhs: &Self) -> (r: Self) {
        PallasScalar { inner: raw_minus(&self.inner, &rhs.inner) }
    }

    #[inline]
    fn times(&self, rhs: &Self) -> (r: Self) {
        PallasScalar { inner: raw_times(&self.inner, &rhs.inner) }
    }

    #[inline]
    fn equals(&self, rhs: &Self) -> (same: bool) {
        raw_equals(&self.inner, &rhs.inner)
    }
}

} // verus!
