//! Vesta: the curve y^2 = x^3 + 5 over the scalar field of Pallas, with a
//! 32-byte encoding.

use crate::curves::vesta_scalar::{vesta_scalar_value, VestaScalar};
use crate::group::GroupElement;
use pasta_curves::group::{Group, GroupEncoding};
use vstd::prelude::*;

verus! {

#[verifier::external_type_specification]
#[verifier::external_body]
pub struct ExVestaPoint(pasta_curves::vesta::Point);

/// The canonical encoding of a point: the 32 bytes that `to_bytes` gives, the
/// same for every representation of one point. They hold the x-coordinate,
/// little-endian, and the parity of y in the top bit.
pub uninterp spec fn vesta_encoding(p: pasta_curves::vesta::Point) -> Seq<u8>;

/// The encoding of the double of the point encoded by `p`.
pub uninterp spec fn vesta_doubled(p: Seq<u8>) -> Seq<u8>;

/// The encoding of the sum of the points encoded by `p` and `q`.
pub uninterp spec fn vesta_sum(p: Seq<u8>, q: Seq<u8>) -> Seq<u8>;

/// The encoding of the point encoded by `p`, multiplied by the integer `k`.
pub uninterp spec fn vesta_scaled(p: Seq<u8>, k: nat) -> Seq<u8>;

/// The encoding of the point that `bytes` decode to, if they are accepted.
pub uninterp spec fn vesta_decoded(bytes: Seq<u8>) -> Option<Seq<u8>>;

/// The encoding of the point at infinity: all zero.
pub open spec fn vesta_identity_bytes() -> Seq<u8> {
    seq![
        0x00u8, 0x00, 0x00, 0x00, 0x00, 0x00, 0x00, 0x00,
        0x00, 0x00, 0x00, 0x00, 0x00, 0x00, 0x00, 0x00,
        0x00, 0x00, 0x00, 0x00, 0x00, 0x00, 0x00, 0x00,
        0x00, 0x00, 0x00, 0x00, 0x00, 0x00, 0x00, 0x00,
    ]
}

/// The encoding of the generator (-1, 2): x is the base-field modulus less one,
/// y is even.
pub open spec fn vesta_generator_bytes() -> Seq<u8> {
    seq![
        0x00u8, 0x00, 0x00, 0x00, 0x21, 0xeb, 0x46, 0x8c,
        0xdd, 0xa8, 0x94, 0x09, 0xfc, 0x98, 0x46, 0x22,
        0x00, 0x00, 0x00, 0x00, 0x00, 0x00, 0x00, 0x00,
        0x00, 0x00, 0x00, 0x00, 0x00, 0x00, 0x00, 0x40,
    ]
}

/// `Group::identity` of `pasta_curves::vesta::Point`. Taken for granted: the
/// neutral element encodes as stated.
#[inline]
#[verifier::external_body]
fn raw_identity() -> (r: pasta_curves::vesta::Point)
    ensures
        vesta_encoding(r) == vesta_identity_bytes(),
{
    <pasta_curves::vesta::Point as Group>::identity()
}

/// `Group::generator` of `pasta_curves::vesta::Point`. Taken for granted: it is
/// the point (-1, 2), which encodes as stated.
#[inline]
#[verifier::external_body]
fn raw_generator() -> (r: pasta_curves::vesta::Point)
    ensures
        vesta_encoding(r) == vesta_generator_bytes(),
{
    <pasta_curves::vesta::Point as Group>::generator()
}

/// `Group::double` of `pasta_curves::vesta::Point`. Taken for granted: the
/// encoding of the result depends on the encoding of the argument alone.
#[inline]
#[verifier::external_body]
fn raw_double(p: &pasta_curves::vesta::Point) -> (r: pasta_curves::vesta::Point)
    ensures
        vesta_encoding(r) == vesta_doubled(vesta_encoding(*p)),
{
    Group::double(p)
}

/// `+` of `pasta_curves::vesta::Point`. Taken for granted: the encoding of the
/// result depends on the encodings of the arguments alone.
#[inline]
#[verifier::external_body]
fn raw_plus(p: &pasta_curves::vesta::Point, q: &pasta_curves::vesta::Point) -> (r: pasta_curves::vesta::Point)
    ensures
        vesta_encoding(r) == vesta_sum(vesta_encoding(*p), vesta_encoding(*q)),
{
    *p + *q
}

/// `*` of `pasta_curves::vesta::Point` by a scalar. Taken for granted: the
/// encoding of the result depends on the encoding of the point and on the value
/// of the scalar alone.
#[inline]
#[verifier::external_body]
fn raw_scale(p: &pasta_curves::vesta::Point, k: &pasta_curves::vesta::Scalar) -> (r: pasta_curves::vesta::Point)
    ensures
        vesta_encoding(r) == vesta_scaled(vesta_encoding(*p), vesta_scalar_value(*k)),
{
    *p * *k
}

/// `GroupEncoding::to_bytes` of `pasta_curves::vesta::Point`: the encoding of
/// the point.
#[inline]
#[verifier::external_body]
fn raw_to_bytes(p: &pasta_curves::vesta::Point) -> (e: [u8; 32])
    ensures
        e@ == vesta_encoding(*p),
{
    GroupEncoding::to_bytes(p)
}

/// `GroupEncoding::from_bytes` of `pasta_curves::vesta::Point`. Taken for
/// granted: whether the bytes are accepted, and the encoding of the point they
/// give, depend on the bytes alone.
#[inline]
#[verifier::external_body]
fn raw_from_bytes(e: &[u8; 32]) -> (r: Option<pasta_curves::vesta::Point>)
    ensures
        match r {
            Some(p) => vesta_decoded(e@) == Some(vesta_encoding(p)),
            None => vesta_decoded(e@) is None,
        },
{
    <pasta_curves::vesta::Point as GroupEncoding>::from_bytes(e).into()
}

/// `==` of `pasta_curves::vesta::Point`, which compares the points in
/// projective coordinates. Taken for granted: it holds exactly of values with
/// the same encoding, the encoding being one per point.
#[inline]
#[verifier::external_body]
fn raw_equals(p: &pasta_curves::vesta::Point, q: &pasta_curves::vesta::Point) -> (same: bool)
    ensures
        same == (vesta_encoding(*p) == vesta_encoding(*q)),
{
    *p == *q
}

/// A point of the Vesta curve.
#[derive(Clone, Copy)]
pub struct VestaPoint {
    inner: pasta_curves::vesta::Point,
}

impl GroupElement for VestaPoint {
    type Scalar = VestaScalar;

    type Encoding = [u8; 32];

    open spec fn encoding_len() -> nat {
        32
    }

    open spec fn bytes_of(e: &[u8; 32]) -> Seq<u8> {
        e@
    }

    closed spec fn encoding(&self) -> Seq<u8> {
        vesta_encoding(self.inner)
    }

    open spec fn identity_encoding() -> Seq<u8> {
        vesta_identity_bytes()
    }

    open spec fn generator_encoding() -> Seq<u8> {
        vesta_generator_bytes()
    }

    open spec fn doubled(p: Seq<u8>) -> Seq<u8> {
        vesta_doubled(p)
    }

    open spec fn sum(p: Seq<u8>, q: Seq<u8>) -> Seq<u8> {
        vesta_sum(p, q)
    }

    open spec fn scaled(p: Seq<u8>, k: nat) -> Seq<u8> {
        vesta_scaled(p, k)
    }

    open spec fn decoded(bytes: Seq<u8>) -> Option<Seq<u8>> {
        vesta_decoded(bytes)
    }

    proof fn encoding_is_fixed_width(e: &[u8; 32]) {
    }

    proof fn generator_is_not_identity() {
        assert(vesta_generator_bytes()[31] != vesta_identity_bytes()[31]);
    }

    #[inline]
    fn identity() -> (r: Self) {
        VestaPoint { inner: raw_identity() }
    }

    #[inline]
    fn generator() -> (r: Self) {
        VestaPoint { inner: raw_generator() }
    }

    #[inline]
    fn double(&self) -> (r: Self) {
        VestaPoint { inner: raw_double(&self.inner) }
    }

    #[inline]
    fn plus(&self, rhs: &Self) -> (r: Self) {
        VestaPoint { inner: raw_plus(&self.inner, &rhs.inner) }
    }

    #[inline]
    fn scale(&self, k: &VestaScalar) -> (r: Self) {
        VestaPoint { inner: raw_scale(&self.inner, k.raw()) }
    }

    #[inline]
    fn to_bytes(&self) -> (e: [u8; 32]) {
        raw_to_bytes(&self.inner)
    }

    #[inline]
    fn from_bytes(e: &[u8; 32]) -> (r: Option<Self>) {
        match raw_from_bytes(e) {
            Some(p) => Some(VestaPoint { inner: p }),
            None => None,
        }
    }

    #[inline]
    fn equals(&self, rhs: &Self) -> (same: bool) {
        raw_equals(&self.inner, &rhs.inner)
    }
}

} // verus!
