//! The scalar field of Vesta: integers modulo the order of the Vesta group,
//! which is the base field of Pallas.

use crate::field::{add_mod, mul_mod, sub_mod, FieldScalar};
use pasta_curves::group::ff::Field;
use vstd::prelude::*;

verus! {

#[verifier::external_type_specification]
#[verifier::external_body]
pub struct ExVestaScalar(pasta_curves::vesta::Scalar);

/// The group order of Vesta, 2^254 + 45560315531419706090280762371685220353.
pub open spec fn vesta_order() -> nat {
    0x40000000000000000000000000000000224698fc094cf91b992d30ed00000001nat
}

/// The integer that a scalar stands for: the representative below the order,
/// which the curve library holds in Montgomery form, one form per element.
pub uninterp spec fn vesta_scalar_value(s: pasta_curves::vesta::Scalar) -> nat;

/// `Field::ZERO` of `pasta_curves::vesta::Scalar`. Taken for granted: it stands
/// for the integer 0.
#[inline]
#[verifier::external_body]
fn raw_zero() -> (r: pasta_curves::vesta::Scalar)
    ensures
        vesta_scalar_value(r) == 0,
{
    <pasta_curves::vesta::Scalar as Field>::ZERO
}

/// `Field::ONE` of `pasta_curves::vesta::Scalar`. Taken for granted: it stands
/// for the integer 1.
#[inline]
#[verifier::external_body]
fn raw_one() -> (r: pasta_curves::vesta::Scalar)
    ensures
        vesta_scalar_value(r) == 1,
{
    <pasta_curves::vesta::Scalar as Field>::ONE
}

/// `From<u64>` of `pasta_curves::vesta::Scalar`. Taken for granted: the result
/// stands for the integer given, which is below the order.
#[inline]
#[verifier::external_body]
fn raw_from_u64(v: u64) -> (r: pasta_curves::vesta::Scalar)
    ensures
        vesta_scalar_value(r) == v,
{
    <pasta_curves::vesta::Scalar>::from(v)
}

/// `+` of `pasta_curves::vesta::Scalar`. Taken for granted: addition modulo the
/// order.
#[inline]
#[verifier::external_body]
fn raw_plus(a: &pasta_curves::vesta::Scalar, b: &pasta_curves::vesta::Scalar) -> (r: pasta_curves::vesta::Scalar)
    ensures
        vesta_scalar_value(r) == add_mod(
            vesta_scalar_value(*a),
            vesta_scalar_value(*b),
            vesta_order(),
        ),
{
    *a + *b
}

/// `-` of `pasta_curves::vesta::Scalar`. Taken for granted: subtraction modulo
/// the order.
#[inline]
#[verifier::external_body]
fn raw_minus(a: &pasta_curves::vesta::Scalar, b: &pasta_curves::vesta::Scalar) -> (r: pasta_curves::vesta::Scalar)
    ensures
        vesta_scalar_value(r) == sub_mod(
            vesta_scalar_value(*a),
            vesta_scalar_value(*b),
            vesta_order(),
        ),
{
    *a - *b
}

/// `*` of `pasta_curves::vesta::Scalar`. Taken for granted: multiplication
/// modulo the order.
#[inline]
#[verifier::external_body]
fn raw_times(a: &pasta_curves::vesta::Scalar, b: &pasta_curves::vesta::Scalar) -> (r: pasta_curves::vesta::Scalar)
    ensures
        vesta_scalar_value(r) == mul_mod(
            vesta_scalar_value(*a),
            vesta_scalar_value(*b),
            vesta_order(),
        ),
{
    *a * *b
}

/// `==` of `pasta_curves::vesta::Scalar`, which compares the reduced limbs.
/// Taken for granted: it holds exactly of scalars with the same value.
#[inline]
#[verifier::external_body]
fn raw_equals(a: &pasta_curves::vesta::Scalar, b: &pasta_curves::vesta::Scalar) -> (same: bool)
    ensures
        same == (vesta_scalar_value(*a) == vesta_scalar_value(*b)),
{
    *a == *b
}

/// A scalar of Vesta.
#[derive(Clone, Copy)]
pub struct VestaScalar {
    inner: pasta_curves::vesta::Scalar,
}

impl VestaScalar {
    /// The library value behind this scalar.
    #[inline]
    pub(crate) fn raw(&self) -> (r: &pasta_curves::vesta::Scalar)
        ensures
            vesta_scalar_value(*r) == self.value(),
    {
        &self.inner
    }
}

impl FieldScalar for VestaScalar {
    open spec fn modulus() -> nat {
        vesta_order()
    }

    closed spec fn value(&self) -> nat {
        vesta_scalar_value(self.inner)
    }

    proof fn modulus_exceeds_u64() {
    }

    #[inline]
    fn zero() -> (r: Self) {
        VestaScalar { inner: raw_zero() }
    }

    #[inline]
    fn one() -> (r: Self) {
        VestaScalar { inner: raw_one() }
    }

    #[inline]
    fn from_u64(v: u64) -> (r: Self) {
        VestaScalar { inner: raw_from_u64(v) }
    }

    #[inline]
    fn plus(&self, rhs: &Self) -> (r: Self) {
        VestaScalar { inner: raw_plus(&self.inner, &rhs.inner) }
    }

    #[inline]
    fn minus(&self, rhs: &Self) -> (r: Self) {
        VestaScalar { inner: raw_minus(&self.inner, &rhs.inner) }
    }

    #[inline]
    fn times(&self, rhs: &Self) -> (r: Self) {
        VestaScalar { inner: raw_times(&self.inner, &rhs.inner) }
    }

    #[inline]
    fn equals(&self, rhs: &Self) -> (same: bool) {
        raw_equals(&self.inner, &rhs.inner)
    }
}

} // verus!
