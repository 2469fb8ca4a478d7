use crypto_line::{
    Curve, Line, LineValid, PublicKey, Scalar, Secp256k1Signature, SecretKey, Signature,
    compress_round_trip, line_round_trip, sign_then_verify,
};

fn scalar_from(bytes: [u8; 32]) -> SecretKey {
    SecretKey::try_clone_array(&bytes).unwrap()
}

fn scalar_of_u64(v: u64) -> SecretKey {
    let mut bytes = [0u8; 32];
    bytes[24..].copy_from_slice(&v.to_be_bytes());
    scalar_from(bytes)
}

// The group order, big-endian.
const ORDER: [u8; 32] = [
    0xFF, 0xFF, 0xFF, 0xFF, 0xFF, 0xFF, 0xFF, 0xFF, 0xFF, 0xFF, 0xFF, 0xFF, 0xFF, 0xFF, 0xFF,
    0xFE, 0xBA, 0xAE, 0xDC, 0xE6, 0xAF, 0x48, 0xA0, 0x3B, 0xBF, 0xD2, 0x5E, 0x8C, 0xD0, 0x36,
    0x41, 0x41,
];

#[test]
fn scalar_name() {
    assert_eq!(<SecretKey as Scalar>::name(), "secp256k1");
}

#[test]
fn scalar_decode_boundaries() {
    // Zero is rejected.
    assert!(SecretKey::try_clone_array(&[0u8; 32]).is_err());
    // The group order itself is rejected.
    assert!(SecretKey::try_clone_array(&ORDER).is_err());
    // All ones is above the order and rejected.
    assert!(SecretKey::try_clone_array(&[0xFFu8; 32]).is_err());
    // One below the order is accepted.
    let mut below = ORDER;
    below[31] = 0x40;
    assert!(SecretKey::try_clone_array(&below).is_ok());
    // One is accepted.
    let mut one = [0u8; 32];
    one[31] = 1;
    assert!(SecretKey::try_clone_array(&one).is_ok());
}

#[test]
fn scalar_round_trip() {
    let sk = scalar_of_u64(0x0123_4567_89AB_CDEF);
    assert_eq!(line_round_trip(&sk), sk);
    let encoded = sk.clone_line();
    assert_eq!(SecretKey::clone_array(&encoded), sk);
}

#[test]
fn scalar_addition_exact() {
    let one = scalar_of_u64(1);
    let two = scalar_of_u64(2);
    let three = one.add_ff(&two);
    assert_eq!(three, scalar_of_u64(3));
}

#[test]
fn scalar_multiplication_exact() {
    let two = scalar_of_u64(2);
    let three = scalar_of_u64(3);
    assert_eq!(two.mul_ff(&three), scalar_of_u64(6));
}

#[test]
fn scalar_addition_reduces_modulo_order() {
    // (n - 1) + 2 == 1 mod n.
    let mut below = ORDER;
    below[31] = 0x40;
    let near = scalar_from(below);
    let two = scalar_of_u64(2);
    assert_eq!(near.add_ff(&two), scalar_of_u64(1));
}

#[test]
fn scalar_inversion_not_offered() {
    let sk = scalar_of_u64(7);
    assert!(sk.inv_ff().is_none());
}

#[test]
fn point_decode_boundaries() {
    // The all-zero coordinate pair is not on the curve.
    assert!(PublicKey::try_clone_array(&[0u8; 64]).is_err());
    // Coordinates at or above the field prime are rejected.
    assert!(PublicKey::try_clone_array(&[0xFFu8; 64]).is_err());
    // The generator is accepted.
    let base = PublicKey::base();
    let encoded = base.clone_line();
    assert_eq!(PublicKey::try_clone_array(&encoded).unwrap(), base);
}

#[test]
fn base_point_has_the_standard_encoding() {
    let expected: [u8; 64] = [
        0x79, 0xBE, 0x66, 0x7E, 0xF9, 0xDC, 0xBB, 0xAC, 0x55, 0xA0, 0x62, 0x95, 0xCE, 0x87, 0x0B,
        0x07, 0x02, 0x9B, 0xFC, 0xDB, 0x2D, 0xCE, 0x28, 0xD9, 0x59, 0xF2, 0x81, 0x5B, 0x16, 0xF8,
        0x17, 0x98, 0x48, 0x3A, 0xDA, 0x77, 0x26, 0xA3, 0xC4, 0x65, 0x5D, 0xA4, 0xFB, 0xFC, 0x0E,
        0x11, 0x08, 0xA8, 0xFD, 0x17, 0xB4, 0x48, 0xA6, 0x85, 0x54, 0x19, 0x9C, 0x47, 0xD0, 0x8F,
        0xFB, 0x10, 0xD4, 0xB8,
    ];
    assert_eq!(PublicKey::base().clone_line(), expected.to_vec());
}

#[test]
fn point_round_trip() {
    let base = PublicKey::base();
    assert_eq!(line_round_trip(&base), base);
}

#[test]
fn base_times_one_is_base() {
    let base = PublicKey::base();
    let one = scalar_of_u64(1);
    assert_eq!(base.exp_ec(&one), base);
}

#[test]
fn point_combination_not_offered() {
    let base = PublicKey::base();
    assert!(base.mul_ec(&base).is_none());
}

#[test]
fn exponentiation_matches_repeated_structure() {
    // (g^a)^b == (g^b)^a, both being g^(ab).
    let base = PublicKey::base();
    let a = scalar_of_u64(1234567);
    let b = scalar_of_u64(891011);
    let left = base.exp_ec(&a).exp_ec(&b);
    let right = base.exp_ec(&b).exp_ec(&a);
    assert_eq!(left, right);
    assert_eq!(base.exp_ec(&a.mul_ff(&b)), left);
}

#[test]
fn base_compression_round_trip() {
    let base = PublicKey::base();
    let packed = base.compress();
    assert_eq!(packed.len(), 33);
    // The generator's y coordinate is even, so the header is 0x02.
    assert_eq!(packed[0], 0x02);
    let unpacked = PublicKey::decompress(&packed).unwrap();
    assert_eq!(unpacked, base);
    assert_eq!(compress_round_trip(&base), base);
}

#[test]
fn compression_round_trip_many_points() {
    let base = PublicKey::base();
    // A simple deterministic generator for fifty scalars.
    let mut state: u64 = 0x9E37_79B9_7F4A_7C15;
    for _ in 0..50 {
        state = state.wrapping_mul(6364136223846793005).wrapping_add(1442695040888963407);
        let sk = scalar_of_u64(state | 1);
        let point = base.exp_ec(&sk);
        let packed = point.compress();
        let unpacked = PublicKey::decompress(&packed).unwrap();
        assert_eq!(unpacked, point);
        assert_eq!(compress_round_trip(&point), point);
    }
}

#[test]
fn decompress_rejects_invalid_encodings() {
    // A header that is neither 0x02 nor 0x03.
    let mut packed = PublicKey::base().compress();
    packed[0] = 0x05;
    assert!(PublicKey::decompress(&packed).is_err());
    // An x coordinate at or above the field prime.
    let mut high = vec![0x02u8];
    high.extend_from_slice(&[0xFFu8; 32]);
    assert!(PublicKey::decompress(&high).is_err());
}

#[test]
fn signature_round_trip_and_determinism() {
    let sk = scalar_of_u64(0xDEAD_BEEF);
    let msg = scalar_of_u64(0x1234_5678);
    let sig = Secp256k1Signature::sign(&sk, &msg);
    let sig_again = Secp256k1Signature::sign(&sk, &msg);
    assert_eq!(sig, sig_again);

    let encoded = sig.clone_line();
    assert_eq!(encoded.len(), 64);
    assert_eq!(Secp256k1Signature::try_clone_array(&encoded).unwrap(), sig);
    assert_eq!(line_round_trip(&sig), sig);
}

#[test]
fn signature_verifies_under_matching_key() {
    let sk = scalar_from([0xCDu8; 32]);
    let msg = scalar_from([0xABu8; 32]);
    let pk = PublicKey::base().exp_ec(&sk);
    let sig = Secp256k1Signature::sign(&sk, &msg);
    assert!(sig.verify(&pk, &msg).is_ok());
    assert!(sign_then_verify::<Secp256k1Signature>(&sk, &msg));
}

#[test]
fn signature_rejection() {
    let sk = scalar_of_u64(424242);
    let msg = scalar_of_u64(111111);
    let pk = PublicKey::base().exp_ec(&sk);
    let sig = Secp256k1Signature::sign(&sk, &msg);

    // A message altered by one bit.
    let altered = scalar_of_u64(111111 ^ 1);
    assert!(sig.verify(&pk, &altered).is_err());

    // A different secret key signed.
    let other_sk = scalar_of_u64(424243);
    let other_sig = Secp256k1Signature::sign(&other_sk, &msg);
    assert!(other_sig.verify(&pk, &msg).is_err());

    // A byte of the signature flipped.
    let mut bytes = sig.clone_line();
    bytes[40] ^= 0x01;
    if let Ok(bad) = Secp256k1Signature::try_clone_array(&bytes) {
        assert!(bad.verify(&pk, &msg).is_err());
    }
}

#[test]
fn signature_decode_rejects_overflowing_halves() {
    // Both halves at the group order or above are rejected.
    let mut bytes = [0u8; 64];
    bytes[..32].copy_from_slice(&ORDER);
    bytes[63] = 1;
    assert!(Secp256k1Signature::try_clone_array(&bytes).is_err());
    let all_ones = [0xFFu8; 64];
    assert!(Secp256k1Signature::try_clone_array(&all_ones).is_err());
}
