//! Ristretto: the prime-order group built over Curve25519, with its canonical
//! 32-byte encoding.

use crate::curves::curve25519_scalar::{curve25519_scalar_value, Curve25519Scalar};
use crate::group::GroupElement;
use pasta_curves::group::{Group, GroupEncoding};
use vstd::prelude::*;

verus! {

#[verifier::external_type_specification]
#[verifier::external_body]
pub struct ExRistrettoPoint(dalek_ff_group::RistrettoPoint);

/// The canonical encoding of a group element: the 32 bytes that `to_bytes`
/// gives, the same for every curve point that represents one element.
pub uninterp spec fn ristretto_encoding(p: dalek_ff_group::RistrettoPoint) -> Seq<u8>;

/// The encoding of the double of the point encoded by `p`.
pub uninterp spec fn ristretto_doubled(p: Seq<u8>) -> Seq<u8>;

/// The encoding of the sum of the points encoded by `p` and `q`.
pub uninterp spec fn ristretto_sum(p: Seq<u8>, q: Seq<u8>) -> Seq<u8>;

/// The encoding of the point encoded by `p`, multiplied by the integer `k`.
pub uninterp spec fn ristretto_scaled(p: Seq<u8>, k: nat) -> Seq<u8>;

/// The encoding of the point that `bytes` decode to, if they are accepted.
pub uninterp spec fn ristretto_decoded(bytes: Seq<u8>) -> Option<Seq<u8>>;

/// The encoding of the neutral element: all zero.
pub open spec fn ristretto_identity_bytes() -> Seq<u8> {
    seq![
        0x00u8, 0x00, 0x00, 0x00, 0x00, 0x00, 0x00, 0x00,
        0x00, 0x00, 0x00, 0x00, 0x00, 0x00, 0x00, 0x00,
        0x00, 0x00, 0x00, 0x00, 0x00, 0x00, 0x00, 0x00,
        0x00, 0x00, 0x00, 0x00, 0x00, 0x00, 0x00, 0x00,
    ]
}

/// The encoding of the Ristretto base point.
pub open spec fn ristretto_generator_bytes() -> Seq<u8> {
    seq![
        0xe2u8, 0xf2, 0xae, 0x0a, 0x6a, 0xbc, 0x4e, 0x71,
        0xa8, 0x84, 0xa9, 0x61, 0xc5, 0x00, 0x51, 0x5f,
        0x58, 0xe3, 0x0b, 0x6a, 0xa5, 0x82, 0xdd, 0x8d,
        0xb6, 0xa6, 0x59, 0x45, 0xe0, 0x8d, 0x2d, 0x76,
    ]
}

/// `Group::identity` of `dalek_ff_group::RistrettoPoint`. Taken for granted:
/// the neutral element encodes as stated.
#[inline]
#[verifier::external_body]
fn raw_identity() -> (r: dalek_ff_group::RistrettoPoint)
    ensures
        ristretto_encoding(r) == ristretto_identity_bytes(),
{
    <dalek_ff_group::RistrettoPoint as Group>::identity()
}

/// `Group::generator` of `dalek_ff_group::RistrettoPoint`. Taken for granted:
/// it is the Ristretto base point, which encodes as stated.
#[inline]
#[verifier::external_body]
fn raw_generator() -> (r: dalek_ff_group::RistrettoPoint)
    ensures
        ristretto_encoding(r) == ristretto_generator_bytes(),
{
    <dalek_ff_group::RistrettoPoint as Group>::generator()
}

/// `Group::double` of `dalek_ff_group::RistrettoPoint`. Taken for granted: the
/// encoding of the result depends on the encoding of the argument alone.
#[inline]
#[verifier::external_body]
fn raw_double(p: &dalek_ff_group::RistrettoPoint) -> (r: dalek_ff_group::RistrettoPoint)
    ensures
        ristretto_encoding(r) == ristretto_doubled(ristretto_encoding(*p)),
{
    Group::double(p)
}

/// `+` of `dalek_ff_group::RistrettoPoint`. Taken for granted: the encoding of
/// the result depends on the encodings of the arguments alone.
#[inline]
#[verifier::external_body]
fn raw_plus(p: &dalek_ff_group::RistrettoPoint, q: &dalek_ff_group::RistrettoPoint) -> (r: dalek_ff_group::RistrettoPoint)
    ensures
        ristretto_encoding(r) == ristretto_sum(ristretto_encoding(*p), ristretto_encoding(*q)),
{
    *p + *q
}

/// `*` of `dalek_ff_group::RistrettoPoint` by a scalar. Taken for granted: the
/// encoding of the result depends on the encoding of the point and on the value
/// of the scalar alone.
#[inline]
#[verifier::external_body]
fn raw_scale(p: &dalek_ff_group::RistrettoPoint, k: &dalek_ff_group::Scalar) -> (r: dalek_ff_group::RistrettoPoint)
    ensures
        ristretto_encoding(r) == ristretto_scaled(ristretto_encoding(*p), curve25519_scalar_value(*k)),
{
    *p * *k
}

/// `GroupEncoding::to_bytes` of `dalek_ff_group::RistrettoPoint`: the encoding
/// of the point.
#[inline]
#[verifier::external_body]
fn raw_to_bytes(p: &dalek_ff_group::RistrettoPoint) -> (e: [u8; 32])
    ensures
        e@ == ristretto_encoding(*p),
{
    GroupEncoding::to_bytes(p)
}

/// `GroupEncoding::from_bytes` of `dalek_ff_group::RistrettoPoint`. Taken for
/// granted: whether the bytes are accepted, and the encoding of the point they
/// give, depend on the bytes alone.
#[inline]
#[verifier::external_body]
fn raw_from_bytes(e: &[u8; 32]) -> (r: Option<dalek_ff_group::RistrettoPoint>)
    ensures
        match r {
            Some(p) => ristretto_decoded(e@) == Some(ristretto_encoding(p)),
            None => ristretto_decoded(e@) is None,
        },
{
    <dalek_ff_group::RistrettoPoint as GroupEncoding>::from_bytes(e).into()
}

/// `==` of `dalek_ff_group::RistrettoPoint`, which compares the elements, not
/// the curve points that represent them. Taken for granted: it holds exactly of
/// values with the same encoding, the encoding being one per point.
#[inline]
#[verifier::external_body]
fn raw_equals(p: &dalek_ff_group::RistrettoPoint, q: &dalek_ff_group::RistrettoPoint) -> (same: bool)
    ensures
        same == (ristretto_encoding(*p) == ristretto_encoding(*q)),
{
    *p == *q
}

/// An element of the Ristretto group.
#[derive(Clone, Copy)]
pub struct RistrettoElement {
    inner: dalek_ff_group::RistrettoPoint,
}

impl GroupElement for RistrettoElement {
    type Scalar = Curve25519Scalar;

    type Encoding = [u8; 32];

    open spec fn encoding_len() -> nat {
        32
    }

    open spec fn bytes_of(e: &[u8; 32]) -> Seq<u8> {
        e@
    }

    closed spec fn encoding(&self) -> Seq<u8> {
        ristretto_encoding(self.inner)
    }

    open spec fn identity_encoding() -> Seq<u8> {
        ristretto_identity_bytes()
    }

    open spec fn generator_encoding() -> Seq<u8> {
        ristretto_generator_bytes()
    }

    open spec fn doubled(p: Seq<u8>) -> Seq<u8> {
        ristretto_doubled(p)
    }

    open spec fn sum(p: Seq<u8>, q: Seq<u8>) -> Seq<u8> {
        ristretto_sum(p, q)
    }

    open spec fn scaled(p: Seq<u8>, k: nat) -> Seq<u8> {
        ristretto_scaled(p, k)
    }

    open spec fn decoded(bytes: Seq<u8>) -> Option<Seq<u8>> {
        ristretto_decoded(bytes)
    }

    proof fn encoding_is_fixed_width(e: &[u8; 32]) {
    }

    proof fn generator_is_not_identity() {
        assert(ristretto_generator_bytes()[0] != ristretto_identity_bytes()[0]);
    }

    #[inline]
    fn identity() -> (r: Self) {
        RistrettoElement { inner: raw_identity() }
    }

    #[inline]
    fn generator() -> (r: Self) {
        RistrettoElement { inner: raw_generator() }
    }

    #[inline]
    fn double(&self) -> (r: Self) {
        RistrettoElement { inner: raw_double(&self.inner) }
    }

    #[inline]
    fn plus(&self, rhs: &Self) -> (r: Self) {
        RistrettoElement { inner: raw_plus(&self.inner, &rhs.inner) }
    }

    #[inline]
    fn scale(&self, k: &Curve25519Scalar) -> (r: Self) {
        RistrettoElement { inner: raw_scale(&self.inner, k.raw()) }
    }

    #[inline]
    fn to_bytes(&self) -> (e: [u8; 32]) {
        raw_to_bytes(&self.inner)
    }

    #[inline]
    fn from_bytes(e: &[u8; 32]) -> (r: Option<Self>) {
        match raw_from_bytes(e) {
            Some(p) => Some(RistrettoElement { inner: p }),
            None => None,
        }
    }

    #[inline]
    fn equals(&self, rhs: &Self) -> (same: bool) {
        raw_equals(&self.inner, &rhs.inner)
    }
}

} // verus!
