use crypto_facade::errors::CryptoError;
use crypto_facade::facade::KdfParams;
use crypto_facade::facade::decrypt_aead;
use crypto_facade::facade::derive_aead_key;
use crypto_facade::facade::derive_key;
use crypto_facade::facade::encrypt_aead;
use crypto_facade::material::Algorithm;
use crypto_facade::material::Nonce;
use crypto_facade::facade::derive_password_key;
use crypto_facade::facade::hash_password;
use crypto_facade::facade::to_hex;
use crypto_facade::facade::verify_password;
use crypto_facade::material::Salt;

fn params_ok() -> KdfParams {
    KdfParams { m_cost: 8192, t_cost: 2, p_cost: 1, output_len: 32 }
}

#[test]
fn hkdf_matches_published_test_vector() {
    // RFC 5869, test case 1 for the SHA-256 variant.
    let ikm = vec![0x0bu8; 22];
    let salt = Salt::new(hex::decode("000102030405060708090a0b0c").unwrap()).unwrap();
    let info = hex::decode("f0f1f2f3f4f5f6f7f8f9").unwrap();
    let okm = derive_key(&ikm, &salt, &info, 42).unwrap();
    assert_eq!(
        to_hex(okm.bytes()),
        "3cb25f25faacd57a90434f64d0362f2a2d2d0a90cf1a5a4c5db02d56ecc4c5bf34007208d5b887185865"
    );
}

#[test]
fn derive_key_is_deterministic() {
    let salt = Salt::new(b"salty-salt".to_vec()).unwrap();
    let first = derive_key(b"source secret", &salt, b"label-a", 64).unwrap();
    let second = derive_key(b"source secret", &salt, b"label-a", 64).unwrap();
    assert_eq!(first.bytes(), second.bytes());
    assert_eq!(first.len(), 64);
}

#[test]
fn derive_key_distinct_info_labels_separate() {
    let salt = Salt::new(b"salty-salt".to_vec()).unwrap();
    let first = derive_key(b"source secret", &salt, b"label-a", 32).unwrap();
    let second = derive_key(b"source secret", &salt, b"label-b", 32).unwrap();
    assert_ne!(first.bytes(), second.bytes());
}

#[test]
fn derive_key_output_is_not_the_secret() {
    let salt = Salt::new(b"salty-salt".to_vec()).unwrap();
    let secret = b"32-byte secret material!========".to_vec();
    let okm = derive_key(&secret, &salt, b"", 32).unwrap();
    assert_ne!(okm.bytes(), &secret);
}

#[test]
fn derive_key_length_window() {
    let salt = Salt::new(b"salty-salt".to_vec()).unwrap();
    let result = derive_key(b"s", &salt, b"", 8161);
    assert!(matches!(result, Err(CryptoError::InvalidKeyLength)));
    let okm = derive_key(b"s", &salt, b"", 8160).unwrap();
    assert_eq!(okm.len(), 8160);
}

#[test]
fn derive_password_key_is_deterministic() {
    let salt = Salt::new(b"per-user-salt".to_vec()).unwrap();
    let first = derive_password_key(b"correct horse", &salt, &params_ok()).unwrap();
    let second = derive_password_key(b"correct horse", &salt, &params_ok()).unwrap();
    assert_eq!(first.bytes(), second.bytes());
    assert_eq!(first.len(), 32);
}

#[test]
fn derive_password_key_differs_per_password_and_salt() {
    let salt = Salt::new(b"per-user-salt".to_vec()).unwrap();
    let base = derive_password_key(b"correct horse", &salt, &params_ok()).unwrap();
    let other_pw = derive_password_key(b"correct force", &salt, &params_ok()).unwrap();
    assert_ne!(base.bytes(), other_pw.bytes());

    let other_salt = Salt::new(b"per-user-sal2".to_vec()).unwrap();
    let resalted = derive_password_key(b"correct horse", &other_salt, &params_ok()).unwrap();
    assert_ne!(base.bytes(), resalted.bytes());
}

#[test]
fn derive_password_key_enforces_work_factor_policy() {
    let salt = Salt::new(b"per-user-salt".to_vec()).unwrap();
    let weak_memory = KdfParams { m_cost: 8191, ..params_ok() };
    assert!(matches!(
        derive_password_key(b"pw", &salt, &weak_memory),
        Err(CryptoError::InsufficientEntropy)
    ));
    let weak_time = KdfParams { t_cost: 1, ..params_ok() };
    assert!(matches!(
        derive_password_key(b"pw", &salt, &weak_time),
        Err(CryptoError::InsufficientEntropy)
    ));
    let zero_parallelism = KdfParams { p_cost: 0, ..params_ok() };
    assert!(matches!(
        derive_password_key(b"pw", &salt, &zero_parallelism),
        Err(CryptoError::InsufficientEntropy)
    ));
    let excessive_parallelism = KdfParams { p_cost: 65, ..params_ok() };
    assert!(matches!(
        derive_password_key(b"pw", &salt, &excessive_parallelism),
        Err(CryptoError::InsufficientEntropy)
    ));
}

#[test]
fn derive_password_key_enforces_length_window() {
    let salt = Salt::new(b"per-user-salt".to_vec()).unwrap();
    let too_short = KdfParams { output_len: 3, ..params_ok() };
    assert!(matches!(
        derive_password_key(b"pw", &salt, &too_short),
        Err(CryptoError::InvalidKeyLength)
    ));
    let too_long = KdfParams { output_len: 1025, ..params_ok() };
    assert!(matches!(
        derive_password_key(b"pw", &salt, &too_long),
        Err(CryptoError::InvalidKeyLength)
    ));
}

#[test]
fn derived_key_feeds_aead_directly() {
    let salt = Salt::new(b"session-salt".to_vec()).unwrap();
    let key = derive_aead_key(b"master secret", &salt, b"session-encryption").unwrap();
    assert_eq!(key.alg(), Algorithm::ChaCha20Poly1305);

    let nonce = Nonce::new(b"abcdefghijkl".to_vec(), Algorithm::ChaCha20Poly1305).unwrap();
    let (ciphertext, tag) = encrypt_aead(b"sealed under a derived key", &key, &nonce, b"").unwrap();

    let same_key = derive_aead_key(b"master secret", &salt, b"session-encryption").unwrap();
    let decrypted = decrypt_aead(&ciphertext, &tag, &same_key, &nonce, b"").unwrap();
    assert_eq!(decrypted, b"sealed under a derived key".to_vec());

    let other_key = derive_aead_key(b"master secret", &salt, b"session-mac").unwrap();
    assert!(decrypt_aead(&ciphertext, &tag, &other_key, &nonce, b"").is_err());
}

#[test]
fn password_hash_verifies_itself() {
    let encoded = hash_password(b"hunter2, but longer").unwrap();
    assert!(verify_password(b"hunter2, but longer", &encoded));
}

#[test]
fn password_hash_rejects_other_password() {
    let encoded = hash_password(b"hunter2, but longer").unwrap();
    assert!(!verify_password(b"hunter3, but longer", &encoded));
    assert!(!verify_password(b"", &encoded));
}

#[test]
fn password_hash_is_self_describing() {
    let encoded = hash_password(b"pw").unwrap();
    assert!(encoded.starts_with("$argon2id$"));
}

#[test]
fn password_hashes_use_fresh_salts() {
    let first = hash_password(b"same password").unwrap();
    let second = hash_password(b"same password").unwrap();
    assert_ne!(first, second);
    assert!(verify_password(b"same password", &first));
    assert!(verify_password(b"same password", &second));
}

#[test]
fn unparsable_hash_string_verifies_false() {
    assert!(!verify_password(b"pw", "not a hash at all"));
    assert!(!verify_password(b"pw", ""));
}

#[test]
fn salt_length_window() {
    assert!(matches!(Salt::new(vec![1u8; 7]), Err(CryptoError::InvalidNonceLength)));
    assert!(matches!(Salt::new(vec![1u8; 49]), Err(CryptoError::InvalidNonceLength)));
    assert!(Salt::new(vec![1u8; 8]).is_ok());
    assert!(Salt::new(vec![1u8; 48]).is_ok());
}
