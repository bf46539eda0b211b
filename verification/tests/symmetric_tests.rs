use crypto_facade::errors::CryptoError;
use crypto_facade::facade::decrypt_symmetric;
use crypto_facade::facade::encrypt_symmetric;
use crypto_facade::material::Algorithm;
use crypto_facade::material::Nonce;
use crypto_facade::material::PaddingMode;
use crypto_facade::material::SymmetricKey;

fn cbc_key() -> SymmetricKey {
    SymmetricKey::new(b"verysecretkey123".to_vec(), Algorithm::Aes128Cbc).unwrap()
}

fn cbc_iv() -> Nonce {
    Nonce::new(b"uniqueinitvector".to_vec(), Algorithm::Aes128Cbc).unwrap()
}

fn chacha_key() -> SymmetricKey {
    SymmetricKey::new(b"an example very very secret key!".to_vec(), Algorithm::ChaCha20).unwrap()
}

fn chacha_nonce() -> Nonce {
    Nonce::new(b"unique nonce".to_vec(), Algorithm::ChaCha20).unwrap()
}

#[test]
fn aes_cbc_round_trip_fifteen_byte_message() {
    let key = cbc_key();
    let iv = cbc_iv();
    let plaintext = b"Attack at dawn!";
    assert_eq!(plaintext.len(), 15);

    let ciphertext = encrypt_symmetric(plaintext, &key, &iv, PaddingMode::Pkcs7).unwrap();
    assert_eq!(ciphertext.len(), 16);
    assert_ne!(&ciphertext[..15], &plaintext[..]);

    let decrypted = decrypt_symmetric(&ciphertext, &key, &iv, PaddingMode::Pkcs7).unwrap();
    assert_eq!(decrypted, plaintext.to_vec());
}

#[test]
fn aes_cbc_round_trip_exact_block_message() {
    let key = cbc_key();
    let iv = cbc_iv();
    let plaintext = b"sixteen bytes!!!";
    assert_eq!(plaintext.len(), 16);

    let ciphertext = encrypt_symmetric(plaintext, &key, &iv, PaddingMode::Pkcs7).unwrap();
    assert_eq!(ciphertext.len(), 32);

    let decrypted = decrypt_symmetric(&ciphertext, &key, &iv, PaddingMode::Pkcs7).unwrap();
    assert_eq!(decrypted, plaintext.to_vec());
}

#[test]
fn aes_cbc_round_trip_empty_message() {
    let key = cbc_key();
    let iv = cbc_iv();

    let ciphertext = encrypt_symmetric(b"", &key, &iv, PaddingMode::Pkcs7).unwrap();
    assert_eq!(ciphertext.len(), 16);

    let decrypted = decrypt_symmetric(&ciphertext, &key, &iv, PaddingMode::Pkcs7).unwrap();
    assert!(decrypted.is_empty());
}

#[test]
fn aes_cbc_decrypt_rejects_partial_block() {
    let key = cbc_key();
    let iv = cbc_iv();
    let result = decrypt_symmetric(&[0u8; 15], &key, &iv, PaddingMode::Pkcs7);
    assert_eq!(result, Err(CryptoError::InvalidPadding));
}

#[test]
fn aes_cbc_tampered_ciphertext_never_restores_plaintext() {
    let key = cbc_key();
    let iv = cbc_iv();
    let plaintext = b"Attack at dawn!";
    let mut ciphertext = encrypt_symmetric(plaintext, &key, &iv, PaddingMode::Pkcs7).unwrap();
    ciphertext[3] ^= 0x20;
    match decrypt_symmetric(&ciphertext, &key, &iv, PaddingMode::Pkcs7) {
        Ok(other) => assert_ne!(other, plaintext.to_vec()),
        Err(e) => assert_eq!(e, CryptoError::InvalidPadding),
    }
}

#[test]
fn chacha20_round_trip_example_message() {
    let key = chacha_key();
    let nonce = chacha_nonce();
    let plaintext = b"Secret meeting at midnight";

    let ciphertext = encrypt_symmetric(plaintext, &key, &nonce, PaddingMode::NoPadding).unwrap();
    assert_eq!(ciphertext.len(), plaintext.len());
    assert_ne!(ciphertext, plaintext.to_vec());

    let decrypted = decrypt_symmetric(&ciphertext, &key, &nonce, PaddingMode::NoPadding).unwrap();
    assert_eq!(decrypted, plaintext.to_vec());
}

#[test]
fn chacha20_round_trip_empty_message() {
    let key = chacha_key();
    let nonce = chacha_nonce();
    let ciphertext = encrypt_symmetric(b"", &key, &nonce, PaddingMode::NoPadding).unwrap();
    assert!(ciphertext.is_empty());
    let decrypted = decrypt_symmetric(&ciphertext, &key, &nonce, PaddingMode::NoPadding).unwrap();
    assert!(decrypted.is_empty());
}

#[test]
fn padding_mode_must_fit_the_algorithm() {
    let result = encrypt_symmetric(b"hi", &cbc_key(), &cbc_iv(), PaddingMode::NoPadding);
    assert_eq!(result, Err(CryptoError::InvalidPadding));

    let result = encrypt_symmetric(b"hi", &chacha_key(), &chacha_nonce(), PaddingMode::Pkcs7);
    assert_eq!(result, Err(CryptoError::InvalidPadding));

    let result = decrypt_symmetric(&[0u8; 16], &cbc_key(), &cbc_iv(), PaddingMode::NoPadding);
    assert_eq!(result, Err(CryptoError::InvalidPadding));
}

#[test]
fn symmetric_cipher_refuses_mac_key() {
    let mac_key = SymmetricKey::new(vec![1u8; 32], Algorithm::HmacSha256).unwrap();
    let iv = cbc_iv();
    let result = encrypt_symmetric(b"hi", &mac_key, &iv, PaddingMode::Pkcs7);
    assert_eq!(result, Err(CryptoError::InvalidKeyLength));
}

#[test]
fn symmetric_cipher_refuses_foreign_nonce() {
    let key = cbc_key();
    let nonce = chacha_nonce();
    let result = encrypt_symmetric(b"hi", &key, &nonce, PaddingMode::Pkcs7);
    assert_eq!(result, Err(CryptoError::InvalidNonceLength));

    let result = decrypt_symmetric(&[0u8; 16], &key, &nonce, PaddingMode::Pkcs7);
    assert_eq!(result, Err(CryptoError::InvalidNonceLength));
}
