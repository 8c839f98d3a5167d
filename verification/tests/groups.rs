//! The group and field facts that the harness relies on, checked on each of
//! the five groups.

use group_bench::curves::ed25519::Ed25519Point;
use group_bench::curves::pallas::PallasPoint;
use group_bench::curves::ristretto::RistrettoElement;
use group_bench::curves::secp256k1::Secp256k1Point;
use group_bench::curves::vesta::VestaPoint;
use group_bench::field::FieldScalar;
use group_bench::group::GroupElement;

fn generator_is_not_identity<G: GroupElement>() {
    assert!(!G::generator().equals(&G::identity()));
    assert!(!G::identity().equals(&G::generator()));
    assert!(G::generator().equals(&G::generator()));
    assert!(G::identity().equals(&G::identity()));
}

fn generator_round_trips<G: GroupElement>() {
    let g = G::generator();
    let decoded = G::from_bytes(&g.to_bytes());
    assert!(decoded.is_some());
    assert!(decoded.unwrap().equals(&g));
}

fn identity_round_trips<G: GroupElement>() {
    let o = G::identity();
    let decoded = G::from_bytes(&o.to_bytes());
    assert!(decoded.is_some());
    assert!(decoded.unwrap().equals(&o));
}

fn double_is_self_addition<G: GroupElement>() {
    let g = G::generator();
    assert!(g.double().equals(&g.plus(&g)));
    assert!(!g.double().equals(&g));
    let o = G::identity();
    assert!(o.double().equals(&o.plus(&o)));
    assert!(o.double().equals(&o));
}

fn identity_is_neutral<G: GroupElement>() {
    let g = G::generator();
    let o = G::identity();
    assert!(o.plus(&g).equals(&g));
    assert!(g.plus(&o).equals(&g));
}

fn scalar_field_basics<S: FieldScalar>() {
    let two = S::zero().plus(&S::one()).plus(&S::one());
    assert!(two.equals(&S::from_u64(2)));
    assert!(!two.equals(&S::one()));
    assert!(!S::zero().equals(&S::one()));
    assert!(S::from_u64(0).equals(&S::zero()));
    assert!(S::from_u64(1).equals(&S::one()));

    let minus_one = S::zero().minus(&S::one());
    assert!(minus_one.plus(&S::one()).equals(&S::zero()));
    assert!(!minus_one.equals(&S::one()));
    assert!(!minus_one.equals(&S::zero()));
    assert!(S::one().minus(&S::one()).equals(&S::zero()));
    assert!(S::from_u64(7).minus(&S::from_u64(5)).equals(&S::from_u64(2)));

    assert!(minus_one.times(&minus_one).equals(&S::one()));
    assert!(S::from_u64(6).times(&S::from_u64(7)).equals(&S::from_u64(42)));
    assert!(S::from_u64(u64::MAX).plus(&S::one()).equals(
        &S::from_u64(1 << 32).times(&S::from_u64(1 << 32))
    ));
    assert!(!S::from_u64(u64::MAX).plus(&S::one()).equals(&S::zero()));
}

fn minus_generator_cancels_generator<G: GroupElement>() {
    let minus_one = G::Scalar::zero().minus(&G::Scalar::one());
    let g = G::generator();
    let sum = g.scale(&minus_one).plus(&g.scale(&G::Scalar::one()));
    assert!(sum.equals(&G::identity()));
    assert!(g.scale(&G::Scalar::one()).equals(&g));
    assert!(!g.scale(&minus_one).equals(&g));
    assert!(g.scale(&G::Scalar::from_u64(2)).equals(&g.double()));
    assert!(g.scale(&G::Scalar::zero()).equals(&G::identity()));
}

#[test]
fn ed25519_generator_is_not_identity() {
    generator_is_not_identity::<Ed25519Point>();
}

#[test]
fn ristretto_generator_is_not_identity() {
    generator_is_not_identity::<RistrettoElement>();
}

#[test]
fn pallas_generator_is_not_identity() {
    generator_is_not_identity::<PallasPoint>();
}

#[test]
fn vesta_generator_is_not_identity() {
    generator_is_not_identity::<VestaPoint>();
}

#[test]
fn secp256k1_generator_is_not_identity() {
    generator_is_not_identity::<Secp256k1Point>();
}

#[test]
fn ed25519_generator_round_trips() {
    generator_round_trips::<Ed25519Point>();
    identity_round_trips::<Ed25519Point>();
}

#[test]
fn ristretto_generator_round_trips() {
    generator_round_trips::<RistrettoElement>();
    identity_round_trips::<RistrettoElement>();
}

#[test]
fn pallas_generator_round_trips() {
    generator_round_trips::<PallasPoint>();
    identity_round_trips::<PallasPoint>();
}

#[test]
fn vesta_generator_round_trips() {
    generator_round_trips::<VestaPoint>();
    identity_round_trips::<VestaPoint>();
}

#[test]
fn secp256k1_generator_round_trips() {
    generator_round_trips::<Secp256k1Point>();
    identity_round_trips::<Secp256k1Point>();
}

#[test]
fn ed25519_double_is_self_addition() {
    double_is_self_addition::<Ed25519Point>();
}

#[test]
fn ristretto_double_is_self_addition() {
    double_is_self_addition::<RistrettoElement>();
}

#[test]
fn pallas_double_is_self_addition() {
    double_is_self_addition::<PallasPoint>();
}

#[test]
fn vesta_double_is_self_addition() {
    double_is_self_addition::<VestaPoint>();
}

#[test]
fn secp256k1_double_is_self_addition() {
    double_is_self_addition::<Secp256k1Point>();
}

#[test]
fn ed25519_identity_is_neutral() {
    identity_is_neutral::<Ed25519Point>();
}

#[test]
fn ristretto_identity_is_neutral() {
    identity_is_neutral::<RistrettoElement>();
}

#[test]
fn pallas_identity_is_neutral() {
    identity_is_neutral::<PallasPoint>();
}

#[test]
fn vesta_identity_is_neutral() {
    identity_is_neutral::<VestaPoint>();
}

#[test]
fn secp256k1_identity_is_neutral() {
    identity_is_neutral::<Secp256k1Point>();
}

#[test]
fn curve25519_scalar_field_basics() {
    scalar_field_basics::<<Ed25519Point as GroupElement>::Scalar>();
    scalar_field_basics::<<RistrettoElement as GroupElement>::Scalar>();
}

#[test]
fn pallas_scalar_field_basics() {
    scalar_field_basics::<<PallasPoint as GroupElement>::Scalar>();
}

#[test]
fn vesta_scalar_field_basics() {
    scalar_field_basics::<<VestaPoint as GroupElement>::Scalar>();
}

#[test]
fn secp256k1_scalar_field_basics() {
    scalar_field_basics::<<Secp256k1Point as GroupElement>::Scalar>();
}

#[test]
fn ed25519_minus_generator_cancels_generator() {
    minus_generator_cancels_generator::<Ed25519Point>();
}

#[test]
fn ristretto_minus_generator_cancels_generator() {
    minus_generator_cancels_generator::<RistrettoElement>();
}

#[test]
fn pallas_minus_generator_cancels_generator() {
    minus_generator_cancels_generator::<PallasPoint>();
}

#[test]
fn vesta_minus_generator_cancels_generator() {
    minus_generator_cancels_generator::<VestaPoint>();
}

#[test]
fn secp256k1_minus_generator_cancels_generator() {
    minus_generator_cancels_generator::<Secp256k1Point>();
}

#[test]
fn ristretto_rejects_all_ones() {
    assert!(RistrettoElement::from_bytes(&[0xff; 32]).is_none());
}

#[test]
fn pallas_rejects_all_ones() {
    assert!(PallasPoint::from_bytes(&[0xff; 32]).is_none());
}

#[test]
fn vesta_rejects_all_ones() {
    assert!(VestaPoint::from_bytes(&[0xff; 32]).is_none());
}

#[test]
fn secp256k1_rejects_all_ones() {
    assert!(Secp256k1Point::from_bytes(&[0xff; 33]).is_none());
}

#[test]
fn ed25519_rejects_all_ones() {
    assert!(Ed25519Point::from_bytes(&[0xff; 32]).is_none());
}

#[test]
fn ed25519_rejects_a_point_outside_the_prime_order_subgroup() {
    // (0, -1) has order two: y = p - 1, little-endian, sign bit clear.
    let mut bytes = [0xff; 32];
    bytes[0] = 0xec;
    bytes[31] = 0x7f;
    assert!(Ed25519Point::from_bytes(&bytes).is_none());
}
