use crypto_facade::errors::CryptoError;
use crypto_facade::facade::compute_mac;
use crypto_facade::facade::hash;
use crypto_facade::facade::to_hex;
use crypto_facade::facade::u64_from_le_bytes;
use crypto_facade::facade::verify_mac;
use crypto_facade::material::Algorithm;
use crypto_facade::material::SymmetricKey;

fn mac_key() -> SymmetricKey {
    SymmetricKey::new(vec![0x6bu8; 32], Algorithm::HmacSha256).unwrap()
}

#[test]
fn mac_round_trip_accepts() {
    let key = mac_key();
    let message = b"amount=100;to=alice";
    let tag = compute_mac(&key, message).unwrap();
    assert!(verify_mac(&key, message, &tag).unwrap());
}

#[test]
fn mac_rejects_any_single_altered_message_byte() {
    let key = mac_key();
    let message = b"amount=100;to=alice";
    let tag = compute_mac(&key, message).unwrap();
    for i in 0..message.len() {
        let mut altered = message.to_vec();
        altered[i] ^= 0x01;
        assert!(!verify_mac(&key, &altered, &tag).unwrap());
    }
}

#[test]
fn mac_rejects_altered_tag_and_wrong_key() {
    let key = mac_key();
    let message = b"amount=100;to=alice";
    let tag = compute_mac(&key, message).unwrap();

    let mut altered_tag = tag.clone();
    altered_tag[0] ^= 0x80;
    assert!(!verify_mac(&key, message, &altered_tag).unwrap());
    assert!(!verify_mac(&key, message, &tag[..31]).unwrap());

    let other_key = SymmetricKey::new(vec![0x6cu8; 32], Algorithm::HmacSha256).unwrap();
    assert!(!verify_mac(&other_key, message, &tag).unwrap());
}

#[test]
fn mac_is_deterministic_and_not_the_message() {
    let key = mac_key();
    let first = compute_mac(&key, b"same message").unwrap();
    let second = compute_mac(&key, b"same message").unwrap();
    assert_eq!(first, second);
    assert_ne!(first, b"same message".to_vec());
}

#[test]
fn mac_refuses_cipher_key() {
    let cipher_key = SymmetricKey::new(vec![1u8; 16], Algorithm::Aes128Cbc).unwrap();
    assert_eq!(compute_mac(&cipher_key, b"m"), Err(CryptoError::InvalidKeyLength));
    assert_eq!(verify_mac(&cipher_key, b"m", &[0u8; 32]), Err(CryptoError::InvalidKeyLength));
}

#[test]
fn sha256_matches_published_reference_digest() {
    let digest = hash(b"hello world");
    assert_eq!(
        to_hex(&digest),
        "b94d27b9934d3e08a52e52d7da7dabfac484efe37a5380ee9088f7ace2efcde9"
    );
}

#[test]
fn sha256_of_empty_input() {
    let digest = hash(b"");
    assert_eq!(
        to_hex(&digest),
        "e3b0c44298fc1c149afbf4c8996fb92427ae41e4649b934ca495991b7852b855"
    );
}

#[test]
fn sha256_is_deterministic() {
    assert_eq!(hash(b"content"), hash(b"content"));
    assert_ne!(hash(b"content"), hash(b"content!"));
}

#[test]
fn to_hex_renders_two_digits_per_byte() {
    assert_eq!(to_hex(&[]), "");
    assert_eq!(to_hex(&[0x00, 0xab, 0xff, 0x10]), "00abff10");
}

#[test]
fn u64_assembles_little_endian_bytes() {
    assert_eq!(u64_from_le_bytes(&vec![1, 0, 0, 0, 0, 0, 0, 0]), 1);
    assert_eq!(u64_from_le_bytes(&vec![0, 1, 0, 0, 0, 0, 0, 0]), 256);
    assert_eq!(u64_from_le_bytes(&vec![0xff; 8]), u64::MAX);
    assert_eq!(
        u64_from_le_bytes(&vec![0xef, 0xcd, 0xab, 0x89, 0x67, 0x45, 0x23, 0x01]),
        0x0123_4567_89ab_cdef
    );
}
