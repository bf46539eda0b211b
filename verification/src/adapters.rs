//! Trusted adapters, one per primitive family.
//!
//! Each adapter wraps exactly one operation of an external algorithm
//! provider. The wrapper bodies only convert arguments, make the call and
//! convert the result; their contracts state what the provider's source
//! documents, mostly through named results: an uninterpreted spec function
//! stands for what the primitive returns, since spelling out the algorithm
//! here would be an unauditable imitation, not a specification.

use vstd::prelude::*;

use argon2::PasswordHasher;
use argon2::password_hash::PasswordVerifier;
use cipher::BlockDecryptMut;
use cipher::BlockEncryptMut;
use cipher::KeyIvInit;
use cipher::StreamCipher;
use chacha20poly1305::KeyInit;
use chacha20poly1305::aead::Aead;
use hmac::Mac;
use sha2::Digest;
use subtle::ConstantTimeEq;

verus! {

/// The sequence of bytes held by an optional byte vector.
pub open spec fn opt_bytes_view(o: Option<Vec<u8>>) -> Option<Seq<u8>> {
    match o {
        Some(v) => Some(v@),
        None => None,
    }
}

/// The ciphertext AES-128-CBC with PKCS#7 padding produces from a 16-byte
/// key, a 16-byte IV and a plaintext.
pub uninterp spec fn aes128_cbc_pkcs7_encrypt_of(key: Seq<u8>, iv: Seq<u8>, pt: Seq<u8>) -> Seq<
    u8,
>;

/// The plaintext AES-128-CBC with PKCS#7 padding recovers from a
/// ciphertext, or `None` when the length is not a positive multiple of the
/// block size or the padding is malformed after deciphering.
pub uninterp spec fn aes128_cbc_pkcs7_decrypt_of(key: Seq<u8>, iv: Seq<u8>, ct: Seq<u8>) -> Option<
    Seq<u8>,
>;

/// Relies on `cbc::Encryptor::<aes::Aes128>` via
/// `cipher::BlockEncryptMut::encrypt_padded_vec_mut::<block_padding::Pkcs7>`:
/// deterministic in key, IV and plaintext; PKCS#7 always appends between 1
/// and 16 padding bytes, so the output is the plaintext length rounded up
/// to the next multiple of 16; decrypting the output with the same key and
/// IV recovers the plaintext exactly.
#[verifier::external_body]
pub(crate) fn aes128_cbc_pkcs7_encrypt(key: &[u8], iv: &[u8], pt: &[u8]) -> (r: Vec<u8>)
    requires
        key@.len() == 16,
        iv@.len() == 16,
        pt@.len() + 16 < usize::MAX,
    ensures
        r@ == aes128_cbc_pkcs7_encrypt_of(key@, iv@, pt@),
        r@.len() == (pt@.len() / 16 + 1) * 16,
        aes128_cbc_pkcs7_decrypt_of(key@, iv@, r@) == Some(pt@),
{
    let enc = cbc::Encryptor::<aes::Aes128>::new_from_slices(key, iv)
        .expect("lengths validated by the caller");
    enc.encrypt_padded_vec_mut::<block_padding::Pkcs7>(pt)
}

/// Relies on `cbc::Decryptor::<aes::Aes128>` via
/// `cipher::BlockDecryptMut::decrypt_padded_vec_mut::<block_padding::Pkcs7>`:
/// deterministic in key, IV and ciphertext; returns the unpadded plaintext,
/// or an unpadding error exactly when the input length is not a positive
/// multiple of 16 or the deciphered padding is malformed. Any output of the
/// encryptor under the same key and IV decrypts back to its plaintext.
#[verifier::external_body]
pub(crate) fn aes128_cbc_pkcs7_decrypt(key: &[u8], iv: &[u8], ct: &[u8]) -> (r: Option<Vec<u8>>)
    requires
        key@.len() == 16,
        iv@.len() == 16,
    ensures
        opt_bytes_view(r) == aes128_cbc_pkcs7_decrypt_of(key@, iv@, ct@),
        forall|p: Seq<u8>|
            ct@ == aes128_cbc_pkcs7_encrypt_of(key@, iv@, p) ==> opt_bytes_view(r) == Some(p),
{
    let dec = cbc::Decryptor::<aes::Aes128>::new_from_slices(key, iv)
        .expect("lengths validated by the caller");
    match dec.decrypt_padded_vec_mut::<block_padding::Pkcs7>(ct) {
        Ok(v) => Some(v),
        Err(_) => None,
    }
}

/// The XOR of `data` with the ChaCha20 keystream for a 32-byte key and a
/// 12-byte nonce, starting at block 0.
pub uninterp spec fn chacha20_xor_of(key: Seq<u8>, nonce: Seq<u8>, data: Seq<u8>) -> Seq<u8>;

/// Relies on `chacha20::ChaCha20` via
/// `cipher::StreamCipher::apply_keystream`: deterministic in key, nonce and
/// data; XORs the data with the keystream, keeping the length, so applying
/// it twice with the same key and nonce restores the input. The cipher's
/// 32-bit block counter yields at most 2^32 - 1 keystream blocks of 64
/// bytes and the call panics past that, so the length precondition is that
/// exact budget of 2^38 - 64 bytes.
#[verifier::external_body]
pub(crate) fn chacha20_xor(key: &[u8], nonce: &[u8], data: &[u8]) -> (r: Vec<u8>)
    requires
        key@.len() == 32,
        nonce@.len() == 12,
        data@.len() <= 0x3F_FFFF_FFC0,
    ensures
        r@ == chacha20_xor_of(key@, nonce@, data@),
        r@.len() == data@.len(),
        chacha20_xor_of(key@, nonce@, r@) == data@,
        forall|p: Seq<u8>| data@ == chacha20_xor_of(key@, nonce@, p) ==> r@ == p,
{
    let mut buf = data.to_vec();
    let mut cipher = chacha20::ChaCha20::new_from_slices(key, nonce)
        .expect("lengths validated by the caller");
    cipher.apply_keystream(&mut buf);
    buf
}

/// The ciphertext-with-trailing-tag ChaCha20-Poly1305 produces from a
/// 32-byte key, a 12-byte nonce, associated data and a plaintext.
pub uninterp spec fn aead_seal_of(key: Seq<u8>, nonce: Seq<u8>, aad: Seq<u8>, pt: Seq<u8>) -> Seq<
    u8,
>;

/// The plaintext ChaCha20-Poly1305 recovers from a ciphertext-with-tag, or
/// `None` when the tag does not verify under the key, nonce and associated
/// data, or the input is shorter than one tag.
pub uninterp spec fn aead_open_of(key: Seq<u8>, nonce: Seq<u8>, aad: Seq<u8>, ct: Seq<u8>) -> Option<
    Seq<u8>,
>;

/// Relies on `chacha20poly1305::ChaCha20Poly1305` via
/// `aead::Aead::encrypt`: deterministic in key, nonce, associated data and
/// plaintext; appends the 16-byte Poly1305 tag after the ciphertext, which
/// has the plaintext's length; decrypting the output under the same key,
/// nonce and associated data recovers the plaintext. The underlying stream
/// cipher's 32-bit block counter spends block 0 on the Poly1305 key,
/// leaving 2^32 - 2 blocks of 64 bytes for the payload before the call
/// panics or errs, so the length precondition is that exact budget of
/// 2^38 - 128 bytes.
#[verifier::external_body]
pub(crate) fn chacha20poly1305_seal(key: &[u8], nonce: &[u8], aad: &[u8], pt: &[u8]) -> (r: Vec<
    u8,
>)
    requires
        key@.len() == 32,
        nonce@.len() == 12,
        pt@.len() <= 0x3F_FFFF_FF80,
    ensures
        r@ == aead_seal_of(key@, nonce@, aad@, pt@),
        r@.len() == pt@.len() + 16,
        aead_open_of(key@, nonce@, aad@, r@) == Some(pt@),
{
    let aead = chacha20poly1305::ChaCha20Poly1305::new_from_slice(key)
        .expect("length validated by the caller");
    aead.encrypt(
        chacha20poly1305::Nonce::from_slice(nonce),
        chacha20poly1305::aead::Payload { msg: pt, aad },
    ).expect("the plaintext length bound keeps the keystream in range")
}

/// Relies on `chacha20poly1305::ChaCha20Poly1305` via
/// `aead::Aead::decrypt`: verifies the trailing 16-byte Poly1305 tag over
/// the associated data and ciphertext before releasing any plaintext, and
/// fails exactly when that verification fails; a success means the input
/// is the sealing of the returned plaintext under the same key, nonce and
/// associated data. An authentic ciphertext whose payload part exceeds the
/// keystream's 2^32 - 2 block budget would panic inside the call after the
/// tag verifies, so the input is capped at that budget (2^38 - 128 bytes of
/// payload) plus the 16-byte tag.
#[verifier::external_body]
pub(crate) fn chacha20poly1305_open(key: &[u8], nonce: &[u8], aad: &[u8], ct: &[u8]) -> (r: Option<
    Vec<u8>,
>)
    requires
        key@.len() == 32,
        nonce@.len() == 12,
        ct@.len() <= 0x3F_FFFF_FF90,
    ensures
        opt_bytes_view(r) == aead_open_of(key@, nonce@, aad@, ct@),
        forall|v: Seq<u8>|
            opt_bytes_view(r) == Some(v) ==> ct@ == aead_seal_of(key@, nonce@, aad@, v),
        forall|p: Seq<u8>|
            ct@ == aead_seal_of(key@, nonce@, aad@, p) ==> opt_bytes_view(r) == Some(p),
{
    let aead = chacha20poly1305::ChaCha20Poly1305::new_from_slice(key)
        .expect("length validated by the caller");
    match aead.decrypt(
        chacha20poly1305::Nonce::from_slice(nonce),
        chacha20poly1305::aead::Payload { msg: ct, aad },
    ) {
        Ok(v) => Some(v),
        Err(_) => None,
    }
}

/// The `n`-byte output of HKDF-SHA-256 for the given input keying
/// material, salt and info label.
pub uninterp spec fn hkdf_sha256_of(ikm: Seq<u8>, salt: Seq<u8>, info: Seq<u8>, n: nat) -> Seq<u8>;

/// Relies on `hkdf::Hkdf::<sha2::Sha256>::expand` after `Hkdf::new`:
/// deterministic in keying material, salt, info and length; fills exactly
/// the requested number of bytes and only refuses requests beyond 255
/// hash blocks, which the precondition rules out.
#[verifier::external_body]
pub(crate) fn hkdf_sha256_expand(ikm: &[u8], salt: &[u8], info: &[u8], n: usize) -> (r: Vec<u8>)
    requires
        n <= 8160,
    ensures
        r@ == hkdf_sha256_of(ikm@, salt@, info@, n as nat),
        r@.len() == n,
{
    let hk = hkdf::Hkdf::<sha2::Sha256>::new(Some(salt), ikm);
    let mut okm = vec![0u8; n];
    hk.expand(info, &mut okm).expect("the length bound keeps the request expandable");
    okm
}

/// The 32-byte HMAC-SHA-256 tag for a key and a message.
pub uninterp spec fn hmac_sha256_of(key: Seq<u8>, msg: Seq<u8>) -> Seq<u8>;

/// Relies on `hmac::Hmac::<sha2::Sha256>` via `digest::Mac`
/// (`new_from_slice`, `update`, `finalize`): deterministic in key and
/// message, accepts keys of any length and returns the 32-byte tag.
#[verifier::external_body]
pub(crate) fn hmac_sha256(key: &[u8], msg: &[u8]) -> (r: Vec<u8>)
    ensures
        r@ == hmac_sha256_of(key@, msg@),
        r@.len() == 32,
{
    let mut mac = <hmac::Hmac<sha2::Sha256> as Mac>::new_from_slice(key)
        .expect("HMAC accepts keys of any length");
    mac.update(msg);
    mac.finalize().into_bytes().to_vec()
}

/// The 32-byte SHA-256 digest of a message.
pub uninterp spec fn sha256_of(msg: Seq<u8>) -> Seq<u8>;

/// Relies on `sha2::Sha256` via `digest::Digest::digest`: deterministic in
/// the message and 32 bytes long.
#[verifier::external_body]
pub(crate) fn sha256_digest(msg: &[u8]) -> (r: Vec<u8>)
    ensures
        r@ == sha256_of(msg@),
        r@.len() == 32,
{
    sha2::Sha256::digest(msg).to_vec()
}

/// The `n`-byte Argon2id (version 0x13) output for a password, a salt and
/// the memory, time and parallelism cost parameters.
pub uninterp spec fn argon2id_of(
    pw: Seq<u8>,
    salt: Seq<u8>,
    m_cost: int,
    t_cost: int,
    p_cost: int,
    n: nat,
) -> Seq<u8>;

/// Relies on `argon2::Argon2::hash_password_into` with
/// `argon2::Params::new(m, t, p, Some(n))`, algorithm Argon2id, version
/// 0x13: deterministic in all arguments; the preconditions restate the
/// provider's own parameter validation, under which it fills exactly the
/// requested bytes.
#[verifier::external_body]
pub(crate) fn argon2id_derive(pw: &[u8], salt: &[u8], m_cost: u32, t_cost: u32, p_cost: u32, n: usize) -> (r:
    Vec<u8>)
    requires
        pw@.len() <= 0xFFFF_FFFF,
        8 <= salt@.len() <= 0xFFFF_FFFF,
        8 <= m_cost <= 0x40_0000,
        m_cost >= 8 * p_cost,
        t_cost >= 1,
        1 <= p_cost <= 0xFF_FFFF,
        4 <= n <= 0xFFFF_FFFF,
    ensures
        r@ == argon2id_of(pw@, salt@, m_cost as int, t_cost as int, p_cost as int, n as nat),
        r@.len() == n,
{
    let params = argon2::Params::new(m_cost, t_cost, p_cost, Some(n))
        .expect("parameters validated by the caller");
    let ctx = argon2::Argon2::new(argon2::Algorithm::Argon2id, argon2::Version::V0x13, params);
    let mut out = vec![0u8; n];
    ctx.hash_password_into(pw, salt, &mut out)
        .expect("password and salt lengths validated by the caller");
    out
}

/// The self-describing encoded hash string (PHC format) that the password
/// hasher produces from a password and a 16-byte salt under the provider's
/// default Argon2id parameters.
pub uninterp spec fn argon2_phc_of(pw: Seq<u8>, salt: Seq<u8>) -> Seq<char>;

/// Whether the password verifier accepts `encoded` as a hash of `pw`:
/// it parses the string, re-derives with the algorithm, version, salt and
/// parameters embedded there, and compares in constant time.
pub uninterp spec fn argon2_verifies(pw: Seq<u8>, encoded: Seq<char>) -> bool;

/// Relies on `argon2::Argon2::hash_password` (via
/// `password_hash::PasswordHasher`) with the salt encoded by
/// `SaltString::encode_b64`: deterministic in password and salt under the
/// provider's fixed default parameters; the encoded string embeds
/// algorithm, version, parameters and salt, so the provider's verifier,
/// which re-derives from exactly those fields, accepts it for the same
/// password.
#[verifier::external_body]
pub(crate) fn argon2_hash_encoded(pw: &[u8], salt: &[u8]) -> (r: String)
    requires
        pw@.len() <= 0xFFFF_FFFF,
        salt@.len() == 16,
    ensures
        r@ == argon2_phc_of(pw@, salt@),
        argon2_verifies(pw@, r@),
{
    let salt_string = argon2::password_hash::SaltString::encode_b64(salt)
        .expect("a 16-byte salt fits the encoding");
    let hash = argon2::Argon2::default()
        .hash_password(pw, &salt_string)
        .expect("password and salt lengths validated by the caller");
    hash.to_string()
}

/// Relies on `password_hash::PasswordHash::new` to parse the encoded
/// string and `argon2::Argon2::verify_password` (via
/// `password_hash::PasswordVerifier`) to check it: deterministic in
/// password and encoded string; an unparsable string verifies as false.
/// The work-factor parameters are read from the encoded string itself.
#[verifier::external_body]
pub(crate) fn argon2_verify(pw: &[u8], encoded: &str) -> (r: bool)
    ensures
        r == argon2_verifies(pw@, encoded@),
{
    match argon2::password_hash::PasswordHash::new(encoded) {
        Ok(parsed) => argon2::Argon2::default().verify_password(pw, &parsed).is_ok(),
        Err(_) => false,
    }
}

/// Relies on `subtle::ConstantTimeEq::ct_eq` for byte slices: decides
/// equality of the two slices in time independent of their contents
/// (short-circuiting only on a length difference).
#[verifier::external_body]
pub(crate) fn ct_eq_bytes(a: &[u8], b: &[u8]) -> (r: bool)
    ensures
        r == (a@ == b@),
{
    a.ct_eq(b).into()
}

/// Relies on `getrandom::getrandom`: fills the buffer from the operating
/// system's cryptographically secure source, or reports failure without
/// falling back to a weaker source. Nothing is stated about the bytes
/// themselves: they are random.
#[verifier::external_body]
pub(crate) fn os_random(n: usize) -> (r: Option<Vec<u8>>)
    ensures
        r matches Some(v) ==> v@.len() == n,
{
    let mut buf = vec![0u8; n];
    match getrandom::getrandom(&mut buf) {
        Ok(()) => Some(buf),
        Err(_) => None,
    }
}

/// The character standing for the hexadecimal digit `v`.
pub open spec fn hex_digit(v: u8) -> char
    recommends
        v < 16,
{
    if v < 10 {
        ((v + 0x30) as char)
    } else {
        ((v + 0x57) as char)
    }
}

/// The lowercase hexadecimal rendering of a byte sequence: two digits per
/// byte, high nibble first.
pub open spec fn hex_of(b: Seq<u8>) -> Seq<char>
    decreases b.len(),
{
    if b.len() == 0 {
        Seq::empty()
    } else {
        seq![hex_digit(b[0] / 16), hex_digit(b[0] % 16)] + hex_of(b.drop_first())
    }
}

/// Relies on `hex::encode`: renders each byte as two lowercase
/// hexadecimal digits, high nibble first, which is exactly `hex_of`.
#[verifier::external_body]
pub(crate) fn hex_encode(b: &[u8]) -> (r: String)
    ensures
        r@ == hex_of(b@),
{
    hex::encode(b)
}

} // verus!
