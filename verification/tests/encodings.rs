//! The encodings of the neutral element and of the generator of each group,
//! byte for byte.

use group_bench::curves::ed25519::Ed25519Point;
use group_bench::curves::pallas::PallasPoint;
use group_bench::curves::ristretto::RistrettoElement;
use group_bench::curves::secp256k1::Secp256k1Point;
use group_bench::curves::vesta::VestaPoint;
use group_bench::group::GroupElement;

#[test]
fn ed25519_encodings() {
    let mut identity = [0u8; 32];
    identity[0] = 1;
    assert_eq!(Ed25519Point::identity().to_bytes(), identity);
    let mut generator = [0x66u8; 32];
    generator[0] = 0x58;
    assert_eq!(Ed25519Point::generator().to_bytes(), generator);
}

#[test]
fn ristretto_encodings() {
    assert_eq!(RistrettoElement::identity().to_bytes(), [0u8; 32]);
    assert_eq!(
        RistrettoElement::generator().to_bytes(),
        [
            0xe2, 0xf2, 0xae, 0x0a, 0x6a, 0xbc, 0x4e, 0x71, 0xa8, 0x84, 0xa9, 0x61, 0xc5, 0x00,
            0x51, 0x5f, 0x58, 0xe3, 0x0b, 0x6a, 0xa5, 0x82, 0xdd, 0x8d, 0xb6, 0xa6, 0x59, 0x45,
            0xe0, 0x8d, 0x2d, 0x76,
        ]
    );
}

#[test]
fn pallas_encodings() {
    assert_eq!(PallasPoint::identity().to_bytes(), [0u8; 32]);
    assert_eq!(
        PallasPoint::generator().to_bytes(),
        [
            0x00, 0x00, 0x00, 0x00, 0xed, 0x30, 0x2d, 0x99, 0x1b, 0xf9, 0x4c, 0x09, 0xfc, 0x98,
            0x46, 0x22, 0x00, 0x00, 0x00, 0x00, 0x00, 0x00, 0x00, 0x00, 0x00, 0x00, 0x00, 0x00,
            0x00, 0x00, 0x00, 0x40,
        ]
    );
}

#[test]
fn vesta_encodings() {
    assert_eq!(VestaPoint::identity().to_bytes(), [0u8; 32]);
    assert_eq!(
        VestaPoint::generator().to_bytes(),
        [
            0x00, 0x00, 0x00, 0x00, 0x21, 0xeb, 0x46, 0x8c, 0xdd, 0xa8, 0x94, 0x09, 0xfc, 0x98,
            0x46, 0x22, 0x00, 0x00, 0x00, 0x00, 0x00, 0x00, 0x00, 0x00, 0x00, 0x00, 0x00, 0x00,
            0x00, 0x00, 0x00, 0x40,
        ]
    );
}

#[test]
fn secp256k1_encodings() {
    assert_eq!(Secp256k1Point::identity().to_bytes(), [0u8; 33]);
    assert_eq!(
        Secp256k1Point::generator().to_bytes(),
        [
            0x02, 0x79, 0xbe, 0x66, 0x7e, 0xf9, 0xdc, 0xbb, 0xac, 0x55, 0xa0, 0x62, 0x95, 0xce,
            0x87, 0x0b, 0x07, 0x02, 0x9b, 0xfc, 0xdb, 0x2d, 0xce, 0x28, 0xd9, 0x59, 0xf2, 0x81,
            0x5b, 0x16, 0xf8, 0x17, 0x98,
        ]
    );
}

#[test]
fn secp256k1_accepts_the_odd_twin_of_the_generator() {
    let mut bytes = Secp256k1Point::generator().to_bytes();
    bytes[0] = 0x03;
    let twin = Secp256k1Point::from_bytes(&bytes).unwrap();
    assert!(!twin.equals(&Secp256k1Point::generator()));
    assert!(twin.plus(&Secp256k1Point::generator()).equals(&Secp256k1Point::identity()));
    assert_eq!(twin.to_bytes(), bytes);
}

#[test]
fn pallas_accepts_the_odd_twin_of_the_generator() {
    let mut bytes = PallasPoint::generator().to_bytes();
    bytes[31] |= 0x80;
    let twin = PallasPoint::from_bytes(&bytes).unwrap();
    assert!(twin.plus(&PallasPoint::generator()).equals(&PallasPoint::identity()));
    assert_eq!(twin.to_bytes(), bytes);
}

#[test]
fn pasta_curves_have_no_point_that_encodes_like_the_identity() {
    // An x-coordinate of zero belongs to the point at infinity alone: with
    // the sign bit set, nothing decodes.
    let mut bytes = [0u8; 32];
    bytes[31] = 0x80;
    assert!(PallasPoint::from_bytes(&bytes).is_none());
    assert!(VestaPoint::from_bytes(&bytes).is_none());
    assert!(PallasPoint::from_bytes(&[0u8; 32]).unwrap().equals(&PallasPoint::identity()));
    assert!(VestaPoint::from_bytes(&[0u8; 32]).unwrap().equals(&VestaPoint::identity()));
}

#[test]
fn distinct_elements_have_distinct_encodings() {
    let g = Ed25519Point::generator();
    assert_ne!(g.to_bytes(), g.double().to_bytes());
    assert_ne!(g.to_bytes(), Ed25519Point::identity().to_bytes());
    let h = RistrettoElement::generator();
    assert_ne!(h.to_bytes(), h.double().to_bytes());
    let k = Secp256k1Point::generator();
    assert_ne!(k.to_bytes(), k.double().to_bytes());
    assert_eq!(k.plus(&k).to_bytes(), k.double().to_bytes());
}
