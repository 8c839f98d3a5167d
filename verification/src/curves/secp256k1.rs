//! secp256k1: the curve y^2 = x^3 + 7 of SEC 2, with the 33-byte compressed
//! encoding of SEC 1.

use crate::curves::secp256k1_scalar::{secp256k1_scalar_value, Secp256k1Scalar};
use crate::group::GroupElement;
use pasta_curves::group::{Group, GroupEncoding};
use vstd::prelude::*;

verus! {

#[verifier::external_type_specification]
#[verifier::external_body]
pub struct ExSecp256k1Point(k256::ProjectivePoint);

/// The canonical encoding of a point: the 33 bytes that `to_bytes` gives, the
/// same for every representation of one point. They hold a tag for the parity
/// of y, then the x-coordinate, big-endian.
pub uninterp spec fn secp256k1_encoding(p: k256::ProjectivePoint) -> Seq<u8>;

/// The encoding of the double of the point encoded by `p`.
pub uninterp spec fn secp256k1_doubled(p: Seq<u8>) -> Seq<u8>;

/// The encoding of the sum of the points encoded by `p` and `q`.
pub uninterp spec fn secp256k1_sum(p: Seq<u8>, q: Seq<u8>) -> Seq<u8>;

/// The encoding of the point encoded by `p`, multiplied by the integer `k`.
pub uninterp spec fn secp256k1_scaled(p: Seq<u8>, k: nat) -> Seq<u8>;

/// The encoding of the point that `bytes` decode to, if they are accepted.
pub uninterp spec fn secp256k1_decoded(bytes: Seq<u8>) -> Option<Seq<u8>>;

/// The encoding of the point at infinity: all zero.
pub open spec fn secp256k1_identity_bytes() -> Seq<u8> {
    seq![
        0x00u8, 0x00, 0x00, 0x00, 0x00, 0x00, 0x00, 0x00,
        0x00, 0x00, 0x00, 0x00, 0x00, 0x00, 0x00, 0x00,
        0x00, 0x00, 0x00, 0x00, 0x00, 0x00, 0x00, 0x00,
        0x00, 0x00, 0x00, 0x00, 0x00, 0x00, 0x00, 0x00,
        0x00,
    ]
}

/// The encoding of the base point: the tag for an even y, then its
/// x-coordinate.
pub open spec fn secp256k1_generator_bytes() -> Seq<u8> {
    seq![
        0x02u8, 0x79, 0xbe, 0x66, 0x7e, 0xf9, 0xdc, 0xbb,
        0xac, 0x55, 0xa0, 0x62, 0x95, 0xce, 0x87, 0x0b,
        0x07, 0x02, 0x9b, 0xfc, 0xdb, 0x2d, 0xce, 0x28,
        0xd9, 0x59, 0xf2, 0x81, 0x5b, 0x16, 0xf8, 0x17,
        0x98,
    ]
}

/// `Group::identity` of `k256::ProjectivePoint`. Taken for granted: the neutral
/// element encodes as stated.
#[inline]
#[verifier::external_body]
fn raw_identity() -> (r: k256::ProjectivePoint)
    ensures
        secp256k1_encoding(r) == secp256k1_identity_bytes(),
{
    <k256::ProjectivePoint as Group>::identity()
}

/// `Group::generator` of `k256::ProjectivePoint`. Taken for granted: it is the
/// base point of SEC 2, which encodes as stated.
#[inline]
#[verifier::external_body]
fn raw_generator() -> (r: k256::ProjectivePoint)
    ensures
        secp256k1_encoding(r) == secp256k1_generator_bytes(),
{
    <k256::ProjectivePoint as Group>::generator()
}

/// `Group::double` of `k256::ProjectivePoint`. Taken for granted: the encoding
/// of the result depends on the encoding of the argument alone.
#[inline]
#[verifier::external_body]
fn raw_double(p: &k256::ProjectivePoint) -> (r: k256::ProjectivePoint)
    ensures
        secp256k1_encoding(r) == secp256k1_doubled(secp256k1_encoding(*p)),
{
    Group::double(p)
}

/// `+` of `k256::ProjectivePoint`. Taken for granted: the encoding of the
/// result depends on the encodings of the arguments alone.
#[inline]
#[verifier::external_body]
fn raw_plus(p: &k256::ProjectivePoint, q: &k256::ProjectivePoint) -> (r: k256::ProjectivePoint)
    ensures
        secp256k1_encoding(r) == secp256k1_sum(secp256k1_encoding(*p), secp256k1_encoding(*q)),
{
    *p + *q
}

/// `*` of `k256::ProjectivePoint` by a scalar. Taken for granted: the encoding
/// of the result depends on the encoding of the point and on the value of the
/// scalar alone.
#[inline]
#[verifier::external_body]
fn raw_scale(p: &k256::ProjectivePoint, k: &k256::Scalar) -> (r: k256::ProjectivePoint)
    ensures
        secp256k1_encoding(r) == secp256k1_scaled(secp256k1_encoding(*p), secp256k1_scalar_value(*k)),
{
    *p * *k
}

/// `GroupEncoding::to_bytes` of `k256::ProjectivePoint`: the encoding of the
/// point.
#[inline]
#[verifier::external_body]
fn raw_to_bytes(p: &k256::ProjectivePoint) -> (e: [u8; 33])
    ensures
        e@ == secp256k1_encoding(*p),
{
    GroupEncoding::to_bytes(p).into()
}

/// `GroupEncoding::from_bytes` of `k256::ProjectivePoint`. Taken for granted:
/// whether the bytes are accepted, and the encoding of the point they give,
/// depend on the bytes alone.
#[inline]
#[verifier::external_body]
fn raw_from_bytes(e: &[u8; 33]) -> (r: Option<k256::ProjectivePoint>)
    ensures
        match r {
            Some(p) => secp256k1_decoded(e@) == Some(secp256k1_encoding(p)),
            None => secp256k1_decoded(e@) is None,
        },
{
    <k256::ProjectivePoint as GroupEncoding>::from_bytes(&(*e).into()).into()
}

/// `==` of `k256::ProjectivePoint`, which compares the points in projective
/// coordinates. Taken for granted: it holds exactly of values with the same
/// encoding, the encoding being one per point.
#[inline]
#[verifier::external_body]
fn raw_equals(p: &k256::ProjectivePoint, q: &k256::ProjectivePoint) -> (same: bool)
    ensures
        same == (secp256k1_encoding(*p) == secp256k1_encoding(*q)),
{
    *p == *q
}

/// A point of the secp256k1 curve.
#[derive(Clone, Copy)]
pub struct Secp256k1Point {
    inner: k256::ProjectivePoint,
}

impl GroupElement for Secp256k1Point {
    type Scalar = Secp256k1Scalar;

    type Encoding = [u8; 33];

    open spec fn encoding_len() -> nat {
        33
    }

    open spec fn bytes_of(e: &[u8; 33]) -> Seq<u8> {
        e@
    }

    closed spec fn encoding(&self) -> Seq<u8> {
        secp256k1_encoding(self.inner)
    }

    open spec fn identity_encoding() -> Seq<u8> {
        secp256k1_identity_bytes()
    }

    open spec fn generator_encoding() -> Seq<u8> {
        secp256k1_generator_bytes()
    }

    open spec fn doubled(p: Seq<u8>) -> Seq<u8> {
        secp256k1_doubled(p)
    }

    open spec fn sum(p: Seq<u8>, q: Seq<u8>) -> Seq<u8> {
        secp256k1_sum(p, q)
    }

    open spec fn scaled(p: Seq<u8>, k: nat) -> Seq<u8> {
        secp256k1_scaled(p, k)
    }

    open spec fn decoded(bytes: Seq<u8>) -> Option<Seq<u8>> {
        secp256k1_decoded(bytes)
    }

    proof fn encoding_is_fixed_width(e: &[u8; 33]) {
    }

    proof fn generator_is_not_identity() {
        assert(secp256k1_generator_bytes()[0] != secp256k1_identity_bytes()[0]);
    }

    #[inline]
    fn identity() -> (r: Self) {
        Secp256k1Point { inner: raw_identity() }
    }

    #[inline]
    fn generator() -> (r: Self) {
        Secp256k1Point { inner: raw_generator() }
    }

    #[inline]
    fn double(&self) -> (r: Self) {
        Secp256k1Point { inner: raw_double(&self.inner) }
    }

    #[inline]
    fn plus(&self, rhs: &Self) -> (r: Self) {
        Secp256k1Point { inner: raw_plus(&self.inner, &rhs.inner) }
    }

    #[inline]
    fn scale(&self, k: &Secp256k1Scalar) -> (r: Self) {
        Secp256k1Point { inner: raw_scale(&self.inner, k.raw()) }
    }

    #[inline]
    fn to_bytes(&self) -> (e: [u8; 33]) {
        raw_to_bytes(&self.inner)
    }

    #[inline]
    fn from_bytes(e: &[u8; 33]) -> (r: Option<Self>) {
        match raw_from_bytes(e) {
            Some(p) => Some(Secp256k1Point { inner: p }),
            None => None,
        }
    }

    #[inline]
    fn equals(&self, rhs: &Self) -> (same: bool) {
        raw_equals(&self.inner, &rhs.inner)
    }
}

} // verus!
