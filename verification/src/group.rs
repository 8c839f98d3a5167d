//! Group elements: points of a prime-order group with a fixed-width encoding.
//!
//! A group element is modelled by its canonical byte encoding, the string
//! that `to_bytes` produces for it. Two elements are equal exactly when
//! their encodings are. What the group law does to encodings is left to each
//! implementation, which names it; the harness only relies on the law being
//! a function of the encodings.

use crate::field::FieldScalar;
use vstd::prelude::*;

verus! {

/// An element of an algebraic group, with its scalar field and encoding.
pub trait GroupElement: Sized {
    /// The field that scales elements of this group.
    type Scalar: FieldScalar;

    /// The fixed-width byte string that holds an encoded element.
    type Encoding;

    /// The width of an encoding, in bytes.
    spec fn encoding_len() -> nat;

    /// The bytes held by an encoding.
    spec fn bytes_of(e: &Self::Encoding) -> Seq<u8>;

    /// The canonical encoding of this element.
    spec fn encoding(&self) -> Seq<u8>;

    /// The encoding of the neutral element.
    spec fn identity_encoding() -> Seq<u8>;

    /// The encoding of the distinguished generator.
    spec fn generator_encoding() -> Seq<u8>;

    /// The encoding of `P + P`, given that of `P`, as `double` computes it.
    spec fn doubled(p: Seq<u8>) -> Seq<u8>;

    /// The encoding of `P + Q`, given those of `P` and `Q`.
    spec fn sum(p: Seq<u8>, q: Seq<u8>) -> Seq<u8>;

    /// The encoding of `k * P`, given that of `P` and the value of `k`.
    spec fn scaled(p: Seq<u8>, k: nat) -> Seq<u8>;

    /// The encoding of the element that `bytes` decodes to, or `None` where
    /// `bytes` is rejected.
    spec fn decoded(bytes: Seq<u8>) -> Option<Seq<u8>>;

    /// Every encoding has the same width.
    proof fn encoding_is_fixed_width(e: &Self::Encoding)
        ensures
            Self::bytes_of(e).len() == Self::encoding_len(),
    ;

    /// The generator is not the neutral element.
    proof fn generator_is_not_identity()
        ensures
            Self::generator_encoding() != Self::identity_encoding(),
    ;

    /// The neutral element.
    fn identity() -> (r: Self)
        ensures
            r.encoding() == Self::identity_encoding(),
    ;

    /// The distinguished generator, the same on every call.
    fn generator() -> (r: Self)
        ensures
            r.encoding() == Self::generator_encoding(),
    ;

    /// This element added to itself.
    fn double(&self) -> (r: Self)
        ensures
            r.encoding() == Self::doubled(self.encoding()),
    ;

    /// The group operation.
    fn plus(&self, rhs: &Self) -> (r: Self)
        ensures
            r.encoding() == Self::sum(self.encoding(), rhs.encoding()),
    ;

    /// Scalar multiplication.
    fn scale(&self, k: &Self::Scalar) -> (r: Self)
        ensures
            r.encoding() == Self::scaled(self.encoding(), k.value()),
    ;

    /// Serialises this element.
    fn to_bytes(&self) -> (e: Self::Encoding)
        ensures
            Self::bytes_of(&e) == self.encoding(),
    ;

    /// Deserialises an element, or rejects the bytes.
    fn from_bytes(e: &Self::Encoding) -> (r: Option<Self>)
        ensures
            match r {
                Some(p) => Self::decoded(Self::bytes_of(e)) == Some(p.encoding()),
                None => Self::decoded(Self::bytes_of(e)) is None,
            },
    ;

    /// Whether two values are the same group element.
    fn equals(&self, rhs: &Self) -> (same: bool)
        ensures
            same == (self.encoding() == rhs.encoding()),
    ;
}

/// The encoding reached from `p` by doubling `n` times.
pub open spec fn doubled_times<G: GroupElement>(p: Seq<u8>, n: nat) -> Seq<u8>
    decreases n,
{
    if n == 0 {
        p
    } else {
        G::doubled(doubled_times::<G>(p, (n - 1) as nat))
    }
}

/// The encoding reached from `acc` by adding `p` to it `n` times.
pub open spec fn added_times<G: GroupElement>(acc: Seq<u8>, p: Seq<u8>, n: nat) -> Seq<u8>
    decreases n,
{
    if n == 0 {
        acc
    } else {
        G::sum(added_times::<G>(acc, p, (n - 1) as nat), p)
    }
}

/// The encoding reached from `p` by scaling by `k`, `n` times over.
pub open spec fn scaled_times<G: GroupElement>(p: Seq<u8>, k: nat, n: nat) -> Seq<u8>
    decreases n,
{
    if n == 0 {
        p
    } else {
        G::scaled(scaled_times::<G>(p, k, (n - 1) as nat), k)
    }
}

} // verus!
