//! Ed25519: the prime-order subgroup of the twisted Edwards form of
//! Curve25519, with the 32-byte encoding of RFC 8032.
//!
//! Decoding checks that the point lies in the prime-order subgroup, which
//! costs a scalar multiplication; the decoding battery is slow accordingly.
//! Doubling may be carried out as an addition by the curve library.

use crate::curves::curve25519_scalar::{curve25519_scalar_value, Curve25519Scalar};
use crate::group::GroupElement;
use pasta_curves::group::{Group, GroupEncoding};
use vstd::prelude::*;

verus! {

#[verifier::external_type_specification]
#[verifier::external_body]
pub struct ExEd25519Point(dalek_ff_group::EdwardsPoint);

/// The canonical encoding of a point: the 32 bytes that `to_bytes` gives, the
/// same for every representation of one point. They hold the y-coordinate,
/// little-endian, and the sign of x in the top bit.
pub uninterp spec fn ed25519_encoding(p: dalek_ff_group::EdwardsPoint) -> Seq<u8>;

/// The encoding of the double of the point encoded by `p`.
pub uninterp spec fn ed25519_doubled(p: Seq<u8>) -> Seq<u8>;

/// The encoding of the sum of the points encoded by `p` and `q`.
pub uninterp spec fn ed25519_sum(p: Seq<u8>, q: Seq<u8>) -> Seq<u8>;

/// The encoding of the point encoded by `p`, multiplied by the integer `k`.
pub uninterp spec fn ed25519_scaled(p: Seq<u8>, k: nat) -> Seq<u8>;

/// The encoding of the point that `bytes` decode to, if they are accepted.
pub uninterp spec fn ed25519_decoded(bytes: Seq<u8>) -> Option<Seq<u8>>;

/// The encoding of the neutral element (0, 1): y = 1, sign bit clear.
pub open spec fn ed25519_identity_bytes() -> Seq<u8> {
    seq![
        0x01u8, 0x00, 0x00, 0x00, 0x00, 0x00, 0x00, 0x00,
        0x00, 0x00, 0x00, 0x00, 0x00, 0x00, 0x00, 0x00,
        0x00, 0x00, 0x00, 0x00, 0x00, 0x00, 0x00, 0x00,
        0x00, 0x00, 0x00, 0x00, 0x00, 0x00, 0x00, 0x00,
    ]
}

/// The encoding of the base point, whose y-coordinate is 4/5.
pub open spec fn ed25519_generator_bytes() -> Seq<u8> {
    seq![
        0x58u8, 0x66, 0x66, 0x66, 0x66, 0x66, 0x66, 0x66,
        0x66, 0x66, 0x66, 0x66, 0x66, 0x66, 0x66, 0x66,
        0x66, 0x66, 0x66, 0x66, 0x66, 0x66, 0x66, 0x66,
        0x66, 0x66, 0x66, 0x66, 0x66, 0x66, 0x66, 0x66,
    ]
}

/// `Group::identity` of `dalek_ff_group::EdwardsPoint`. Taken for granted: the
/// neutral element encodes as stated.
#[inline]
#[verifier::external_body]
fn raw_identity() -> (r: dalek_ff_group::EdwardsPoint)
    ensures
        ed25519_encoding(r) == ed25519_identity_bytes(),
{
    <dalek_ff_group::EdwardsPoint as Group>::identity()
}

/// `Group::generator` of `dalek_ff_group::EdwardsPoint`. Taken for granted: it
/// is the Ed25519 base point, which encodes as stated.
#[inline]
#[verifier::external_body]
fn raw_generator() -> (r: dalek_ff_group::EdwardsPoint)
    ensures
        ed25519_encoding(r) == ed25519_generator_bytes(),
{
    <dalek_ff_group::EdwardsPoint as Group>::generator()
}

/// `Group::double` of `dalek_ff_group::EdwardsPoint`. Taken for granted: the
/// encoding of the result depends on the encoding of the argument alone.
#[inline]
#[verifier::external_body]
fn raw_double(p: &dalek_ff_group::EdwardsPoint) -> (r: dalek_ff_group::EdwardsPoint)
    ensures
        ed25519_encoding(r) == ed25519_doubled(ed25519_encoding(*p)),
{
    Group::double(p)
}

/// `+` of `dalek_ff_group::EdwardsPoint`. Taken for granted: the encoding of
/// the result depends on the encodings of the arguments alone.
#[inline]
#[verifier::external_body]
fn raw_plus(p: &dalek_ff_group::EdwardsPoint, q: &dalek_ff_group::EdwardsPoint) -> (r: dalek_ff_group::EdwardsPoint)
    ensures
        ed25519_encoding(r) == ed25519_sum(ed25519_encoding(*p), ed25519_encoding(*q)),
{
    *p + *q
}

/// `*` of `dalek_ff_group::EdwardsPoint` by a scalar. Taken for granted: the
/// encoding of the result depends on the encoding of the point and on the value
/// of the scalar alone.
#[inline]
#[verifier::external_body]
fn raw_scale(p: &dalek_ff_group::EdwardsPoint, k: &dalek_ff_group::Scalar) -> (r: dalek_ff_group::EdwardsPoint)
    ensures
        ed25519_encoding(r) == ed25519_scaled(ed25519_encoding(*p), curve25519_scalar_value(*k)),
{
    *p * *k
}

/// `GroupEncoding::to_bytes` of `dalek_ff_group::EdwardsPoint`: the encoding of
/// the point.
#[inline]
#[verifier::external_body]
fn raw_to_bytes(p: &dalek_ff_group::EdwardsPoint) -> (e: [u8; 32])
    ensures
        e@ == ed25519_encoding(*p),
{
    GroupEncoding::to_bytes(p)
}

/// `GroupEncoding::from_bytes` of `dalek_ff_group::EdwardsPoint`. Taken for
/// granted: whether the bytes are accepted, and the encoding of the point they
/// give, depend on the bytes alone.
#[inline]
#[verifier::external_body]
fn raw_from_bytes(e: &[u8; 32]) -> (r: Option<dalek_ff_group::EdwardsPoint>)
    ensures
        match r {
            Some(p) => ed25519_decoded(e@) == Some(ed25519_encoding(p)),
            None => ed25519_decoded(e@) is None,
        },
{
    <dalek_ff_group::EdwardsPoint as GroupEncoding>::from_bytes(e).into()
}

/// `==` of `dalek_ff_group::EdwardsPoint`, which compares the points in
/// projective coordinates. Taken for granted: it holds exactly of values with
/// the same encoding, the encoding being one per point.
#[inline]
#[verifier::external_body]
fn raw_equals(p: &dalek_ff_group::EdwardsPoint, q: &dalek_ff_group::EdwardsPoint) -> (same: bool)
    ensures
        same == (ed25519_encoding(*p) == ed25519_encoding(*q)),
{
    *p == *q
}

/// A point of the Ed25519 group.
#[derive(Clone, Copy)]
pub struct Ed25519Point {
    inner: dalek_ff_group::EdwardsPoint,
}

impl GroupElement for Ed25519Point {
    type Scalar = Curve25519Scalar;

    type Encoding = [u8; 32];

    open spec fn encoding_len() -> nat {
        32
    }

    open spec fn bytes_of(e: &[u8; 32]) -> Seq<u8> {
        e@
    }

    closed spec fn encoding(&self) -> Seq<u8> {
        ed25519_encoding(self.inner)
    }

    open spec fn identity_encoding() -> Seq<u8> {
        ed25519_identity_bytes()
    }

    open spec fn generator_encoding() -> Seq<u8> {
        ed25519_generator_bytes()
    }

    open spec fn doubled(p: Seq<u8>) -> Seq<u8> {
        ed25519_doubled(p)
    }

    open spec fn sum(p: Seq<u8>, q: Seq<u8>) -> Seq<u8> {
        ed25519_sum(p, q)
    }

    open spec fn scaled(p: Seq<u8>, k: nat) -> Seq<u8> {
        ed25519_scaled(p, k)
    }

    open spec fn decoded(bytes: Seq<u8>) -> Option<Seq<u8>> {
        ed25519_decoded(bytes)
    }

    proof fn encoding_is_fixed_width(e: &[u8; 32]) {
    }

    proof fn generator_is_not_identity() {
        assert(ed25519_generator_bytes()[0] != ed25519_identity_bytes()[0]);
    }

    #[inline]
    fn identity() -> (r: Self) {
        Ed25519Point { inner: raw_identity() }
    }

    #[inline]
    fn generator() -> (r: Self) {
        Ed25519Point { inner: raw_generator() }
    }

    #[inline]
    fn double(&self) -> (r: Self) {
        Ed25519Point { inner: raw_double(&self.inner) }
    }

    #[inline]
    fn plus(&self, rhs: &Self) -> (r: Self) {
        Ed25519Point { inner: raw_plus(&self.inner, &rhs.inner) }
    }

    #[inline]
    fn scale(&self, k: &Curve25519Scalar) -> (r: Self) {
        Ed25519Point { inner: raw_scale(&self.inner, k.raw()) }
    }

    #[inline]
    fn to_bytes(&self) -> (e: [u8; 32]) {
        raw_to_bytes(&self.inner)
    }

    #[inline]
    fn from_bytes(e: &[u8; 32]) -> (r: Option<Self>) {
        match raw_from_bytes(e) {
            Some(p) => Some(Ed25519Point { inner: p }),
            None => None,
        }
    }

    #[inline]
    fn equals(&self, rhs: &Self) -> (same: bool) {
        raw_equals(&self.inner, &rhs.inner)
    }
}

} // verus!
