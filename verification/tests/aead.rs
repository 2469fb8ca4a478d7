use crypto_line::chacha20_poly1305_aead_m::Chacha20Poly1305AeadKey as LegacyChachaKey;
use crypto_line::{AesGcmAeadKey, Chacha20Poly1305AeadKey, Key, LineValid, encrypt_then_decrypt};

fn hello_block() -> Vec<u8> {
    let mut input = vec![0u8; 32];
    input[..5].copy_from_slice(b"hello");
    input
}

#[test]
fn algorithm_names() {
    assert_eq!(<AesGcmAeadKey as Key>::name(), "AESGCM");
    assert_eq!(<Chacha20Poly1305AeadKey as Key>::name(), "ChaChaPoly");
    assert_eq!(<LegacyChachaKey as Key>::name(), "ChaChaPoly");
}

#[test]
fn aes_gcm_hello_scenario() {
    let key = AesGcmAeadKey::try_clone_array(&[0x01u8; 32]).unwrap();
    let input = hello_block();
    let mut ciphertext = vec![0u8; input.len()];
    let tag = key.encrypt(1, &[], &input, &mut ciphertext);
    assert_eq!(tag.len(), 16);
    assert_ne!(ciphertext, input);

    let mut plaintext = vec![0u8; ciphertext.len()];
    key.decrypt(1, &[], &ciphertext, &mut plaintext, &tag).unwrap();
    assert_eq!(plaintext, input);

    let mut wrong = vec![0u8; ciphertext.len()];
    assert!(key.decrypt(2, &[], &ciphertext, &mut wrong, &tag).is_err());
}

#[test]
fn chacha_hello_scenario() {
    let key = Chacha20Poly1305AeadKey::try_clone_array(&[0x01u8; 32]).unwrap();
    let input = hello_block();
    let mut ciphertext = vec![0u8; input.len()];
    let tag = key.encrypt(1, &[], &input, &mut ciphertext);
    assert_eq!(tag.len(), 16);
    assert_ne!(ciphertext, input);

    let mut plaintext = vec![0u8; ciphertext.len()];
    key.decrypt(1, &[], &ciphertext, &mut plaintext, &tag).unwrap();
    assert_eq!(plaintext, input);

    let mut wrong = vec![0u8; ciphertext.len()];
    assert!(key.decrypt(2, &[], &ciphertext, &mut wrong, &tag).is_err());
}

#[test]
fn legacy_chacha_hello_scenario() {
    let key = LegacyChachaKey::try_clone_array(&[0x01u8; 32]).unwrap();
    let input = hello_block();
    let mut ciphertext = vec![0u8; input.len()];
    let tag = key.encrypt(1, &[], &input, &mut ciphertext);
    assert_eq!(tag.len(), 16);
    assert_ne!(ciphertext, input);

    let mut plaintext = vec![0u8; ciphertext.len()];
    key.decrypt(1, &[], &ciphertext, &mut plaintext, &tag).unwrap();
    assert_eq!(plaintext, input);

    let mut wrong = vec![0u8; ciphertext.len()];
    assert!(key.decrypt(2, &[], &ciphertext, &mut wrong, &tag).is_err());
}

#[test]
fn both_chacha_implementations_agree() {
    let modern = Chacha20Poly1305AeadKey::try_clone_array(&[0x23u8; 32]).unwrap();
    let legacy = LegacyChachaKey::try_clone_array(&[0x23u8; 32]).unwrap();
    let input = b"the same algorithm twice".to_vec();
    let aad = b"framing";

    let mut ct_modern = vec![0u8; input.len()];
    let tag_modern = modern.encrypt(7, aad, &input, &mut ct_modern);
    let mut ct_legacy = vec![0u8; input.len()];
    let tag_legacy = legacy.encrypt(7, aad, &input, &mut ct_legacy);

    assert_eq!(ct_modern, ct_legacy);
    assert_eq!(tag_modern, tag_legacy);
}

#[test]
fn aes_gcm_rejects_every_tag_bit_flip() {
    let key = AesGcmAeadKey::try_clone_array(&[0x55u8; 32]).unwrap();
    let input = b"hello".to_vec();
    let aad = b"header";
    let mut ciphertext = vec![0u8; input.len()];
    let tag = key.encrypt(9, aad, &input, &mut ciphertext);

    for byte in 0..tag.len() {
        for bit in 0..8 {
            let mut bad_tag = tag.clone();
            bad_tag[byte] ^= 1 << bit;
            let mut out = vec![0u8; ciphertext.len()];
            assert!(key.decrypt(9, aad, &ciphertext, &mut out, &bad_tag).is_err());
        }
    }
}

#[test]
fn aes_gcm_rejects_every_ciphertext_bit_flip() {
    let key = AesGcmAeadKey::try_clone_array(&[0x55u8; 32]).unwrap();
    let input = b"hello".to_vec();
    let mut ciphertext = vec![0u8; input.len()];
    let tag = key.encrypt(9, &[], &input, &mut ciphertext);

    for byte in 0..ciphertext.len() {
        for bit in 0..8 {
            let mut bad_ct = ciphertext.clone();
            bad_ct[byte] ^= 1 << bit;
            let mut out = vec![0u8; bad_ct.len()];
            assert!(key.decrypt(9, &[], &bad_ct, &mut out, &tag).is_err());
        }
    }
}

#[test]
fn chacha_rejects_tampering() {
    let key = Chacha20Poly1305AeadKey::try_clone_array(&[0x77u8; 32]).unwrap();
    let input = b"payload bytes".to_vec();
    let aad = b"aad";
    let mut ciphertext = vec![0u8; input.len()];
    let tag = key.encrypt(3, aad, &input, &mut ciphertext);

    // Flipped ciphertext bit.
    let mut bad_ct = ciphertext.clone();
    bad_ct[0] ^= 0x80;
    let mut out = vec![0u8; bad_ct.len()];
    assert!(key.decrypt(3, aad, &bad_ct, &mut out, &tag).is_err());

    // Flipped tag bit.
    let mut bad_tag = tag.clone();
    bad_tag[15] ^= 1;
    let mut out = vec![0u8; ciphertext.len()];
    assert!(key.decrypt(3, aad, &ciphertext, &mut out, &bad_tag).is_err());

    // Changed associated data.
    let mut out = vec![0u8; ciphertext.len()];
    assert!(key.decrypt(3, b"axd", &ciphertext, &mut out, &tag).is_err());

    // Changed nonce.
    let mut out = vec![0u8; ciphertext.len()];
    assert!(key.decrypt(4, aad, &ciphertext, &mut out, &tag).is_err());

    // Unchanged everything still accepts.
    let mut out = vec![0u8; ciphertext.len()];
    assert!(key.decrypt(3, aad, &ciphertext, &mut out, &tag).is_ok());
    assert_eq!(out, input);
}

#[test]
fn cross_algorithm_isolation() {
    let key_bytes = [0x44u8; 32];
    let aes = AesGcmAeadKey::try_clone_array(&key_bytes).unwrap();
    let chacha = Chacha20Poly1305AeadKey::try_clone_array(&key_bytes).unwrap();
    let input = b"isolated".to_vec();

    let mut aes_ct = vec![0u8; input.len()];
    let aes_tag = aes.encrypt(5, &[], &input, &mut aes_ct);
    let mut chacha_ct = vec![0u8; input.len()];
    let chacha_tag = chacha.encrypt(5, &[], &input, &mut chacha_ct);

    // The other algorithm must not accept this ciphertext and tag.
    let mut out = vec![0u8; input.len()];
    assert!(chacha.decrypt(5, &[], &aes_ct, &mut out, &aes_tag).is_err());
    let mut out = vec![0u8; input.len()];
    assert!(aes.decrypt(5, &[], &chacha_ct, &mut out, &chacha_tag).is_err());
}

#[test]
fn round_trip_law_on_each_backend() {
    let input = b"round trip payload".to_vec();
    let aad = b"context";
    let aes = AesGcmAeadKey::try_clone_array(&[0x31u8; 32]).unwrap();
    assert_eq!(encrypt_then_decrypt(&aes, 21, aad, &input), input);
    let chacha = Chacha20Poly1305AeadKey::try_clone_array(&[0x32u8; 32]).unwrap();
    assert_eq!(encrypt_then_decrypt(&chacha, 22, aad, &input), input);
    let legacy = LegacyChachaKey::try_clone_array(&[0x33u8; 32]).unwrap();
    assert_eq!(encrypt_then_decrypt(&legacy, 23, aad, &input), input);
}

#[test]
fn empty_input_round_trip() {
    let key = AesGcmAeadKey::try_clone_array(&[0x10u8; 32]).unwrap();
    let input: Vec<u8> = Vec::new();
    let mut ciphertext: Vec<u8> = Vec::new();
    let tag = key.encrypt(11, b"only aad", &input, &mut ciphertext);
    assert_eq!(ciphertext.len(), 0);
    let mut out: Vec<u8> = Vec::new();
    key.decrypt(11, b"only aad", &ciphertext, &mut out, &tag).unwrap();
    assert_eq!(out.len(), 0);
}
