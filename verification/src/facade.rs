//! The facade: one public operation per primitive family.
//!
//! Every operation validates its inputs first and reports an error from the
//! single taxonomy before any cryptographic primitive executes. Results are
//! pinned to the adapter layer's named primitives, so a decryption is
//! proved to invert the matching encryption, and verification is proved to
//! accept exactly what the matching producer computed.

use vstd::prelude::*;

use crate::adapters::aead_open_of;
use crate::adapters::aead_seal_of;
use crate::adapters::aes128_cbc_pkcs7_decrypt;
use crate::adapters::aes128_cbc_pkcs7_decrypt_of;
use crate::adapters::aes128_cbc_pkcs7_encrypt;
use crate::adapters::aes128_cbc_pkcs7_encrypt_of;
use crate::adapters::argon2_hash_encoded;
use crate::adapters::argon2_phc_of;
use crate::adapters::argon2_verifies;
use crate::adapters::argon2_verify;
use crate::adapters::argon2id_derive;
use crate::adapters::argon2id_of;
use crate::adapters::chacha20_xor;
use crate::adapters::chacha20_xor_of;
use crate::adapters::chacha20poly1305_open;
use crate::adapters::chacha20poly1305_seal;
use crate::adapters::ct_eq_bytes;
use crate::adapters::hex_encode;
use crate::adapters::hex_of;
use crate::adapters::hkdf_sha256_expand;
use crate::adapters::hkdf_sha256_of;
use crate::adapters::hmac_sha256;
use crate::adapters::hmac_sha256_of;
use crate::adapters::os_random;
use crate::adapters::sha256_digest;
use crate::adapters::sha256_of;
use crate::errors::CryptoError;
use crate::material::Algorithm;
use crate::material::DerivedKey;
use crate::material::Nonce;
use crate::material::PaddingMode;
use crate::material::Salt;
use crate::material::SymmetricKey;
use crate::material::nonce_len;
use crate::material::spec_nonce_len;
use crate::material::takes_nonce;

verus! {

/// The longest message any cipher operation accepts, kept within every
/// primitive's keystream and buffer bounds.
pub const MAX_MESSAGE_LEN: usize = 0xFFFF_FF00;

/// The longest output the key derivation function can produce (255 hash
/// blocks of 32 bytes).
pub const MAX_OKM_LEN: usize = 8160;

/// The AEAD authentication tag length in bytes.
pub const TAG_LEN: usize = 16;

/// Whether `alg` is one of the two plain symmetric ciphers.
pub open spec fn is_symmetric_cipher(alg: Algorithm) -> bool {
    alg is Aes128Cbc || alg is ChaCha20
}

/// Whether `padding` is the mode `alg` works with: the block cipher needs
/// PKCS#7, the stream cipher none.
pub open spec fn padding_fits(alg: Algorithm, padding: PaddingMode) -> bool {
    match alg {
        Algorithm::Aes128Cbc => padding is Pkcs7,
        Algorithm::ChaCha20 => padding is NoPadding,
        Algorithm::ChaCha20Poly1305 => false,
        Algorithm::HmacSha256 => false,
    }
}

/// What symmetric encryption returns for a cipher algorithm.
pub open spec fn spec_encrypt_symmetric(
    alg: Algorithm,
    key: Seq<u8>,
    iv: Seq<u8>,
    pt: Seq<u8>,
) -> Seq<u8>
    recommends
        is_symmetric_cipher(alg),
{
    if alg is Aes128Cbc {
        aes128_cbc_pkcs7_encrypt_of(key, iv, pt)
    } else {
        chacha20_xor_of(key, iv, pt)
    }
}

/// What symmetric decryption returns for a cipher algorithm; `None` stands
/// for malformed block-cipher padding. The stream cipher always succeeds.
pub open spec fn spec_decrypt_symmetric(
    alg: Algorithm,
    key: Seq<u8>,
    iv: Seq<u8>,
    ct: Seq<u8>,
) -> Option<Seq<u8>>
    recommends
        is_symmetric_cipher(alg),
{
    if alg is Aes128Cbc {
        aes128_cbc_pkcs7_decrypt_of(key, iv, ct)
    } else {
        Some(chacha20_xor_of(key, iv, ct))
    }
}

/// Encrypts `plaintext` under a cipher key and a fresh IV.
///
/// Validation comes first: the key must belong to a plain symmetric
/// cipher, the IV must be bound to the same algorithm, and the padding
/// mode must fit it. Only then does the primitive run, and for every
/// plaintext the result decrypts back to it under the same key and IV.
pub fn encrypt_symmetric(
    plaintext: &[u8],
    key: &SymmetricKey,
    iv: &Nonce,
    padding: PaddingMode,
) -> (r: Result<Vec<u8>, CryptoError>)
    requires
        key.wf(),
        iv.wf(),
        plaintext@.len() <= MAX_MESSAGE_LEN,
    ensures
        !is_symmetric_cipher(key.spec_alg()) ==> r == Err::<Vec<u8>, CryptoError>(
            CryptoError::InvalidKeyLength,
        ),
        is_symmetric_cipher(key.spec_alg()) && iv.spec_alg() != key.spec_alg() ==> r == Err::<
            Vec<u8>,
            CryptoError,
        >(CryptoError::InvalidNonceLength),
        is_symmetric_cipher(key.spec_alg()) && iv.spec_alg() == key.spec_alg() && !padding_fits(
            key.spec_alg(),
            padding,
        ) ==> r == Err::<Vec<u8>, CryptoError>(CryptoError::InvalidPadding),
        is_symmetric_cipher(key.spec_alg()) && iv.spec_alg() == key.spec_alg() && padding_fits(
            key.spec_alg(),
            padding,
        ) ==> (r matches Ok(c) && c@ == spec_encrypt_symmetric(
            key.spec_alg(),
            key@,
            iv@,
            plaintext@,
        ) && c@.len() == (if key.spec_alg() is Aes128Cbc {
            (plaintext@.len() / 16 + 1) * 16
        } else {
            plaintext@.len()
        })),
{
    match key.alg() {
        Algorithm::Aes128Cbc => {
            if iv.alg() != Algorithm::Aes128Cbc {
                return Err(CryptoError::InvalidNonceLength);
            }
            if !matches!(padding, PaddingMode::Pkcs7) {
                return Err(CryptoError::InvalidPadding);
            }
            Ok(aes128_cbc_pkcs7_encrypt(key.bytes().as_slice(), iv.bytes().as_slice(), plaintext))
        },
        Algorithm::ChaCha20 => {
            if iv.alg() != Algorithm::ChaCha20 {
                return Err(CryptoError::InvalidNonceLength);
            }
            if !matches!(padding, PaddingMode::NoPadding) {
                return Err(CryptoError::InvalidPadding);
            }
            Ok(chacha20_xor(key.bytes().as_slice(), iv.bytes().as_slice(), plaintext))
        },
        _ => Err(CryptoError::InvalidKeyLength),
    }
}

/// Decrypts what `encrypt_symmetric` produced under the same key and IV.
///
/// After the same validation, the block cipher reports `InvalidPadding`
/// exactly when unpadding fails after deciphering; nothing distinguishes a
/// wrong key from corrupted data. Every ciphertext that the matching
/// encryption produced decrypts to its plaintext; the input cap allows one
/// padding block beyond the message cap, so every output of
/// `encrypt_symmetric` is accepted.
pub fn decrypt_symmetric(
    ciphertext: &[u8],
    key: &SymmetricKey,
    iv: &Nonce,
    padding: PaddingMode,
) -> (r: Result<Vec<u8>, CryptoError>)
    requires
        key.wf(),
        iv.wf(),
        ciphertext@.len() <= MAX_MESSAGE_LEN + 16,
    ensures
        !is_symmetric_cipher(key.spec_alg()) ==> r == Err::<Vec<u8>, CryptoError>(
            CryptoError::InvalidKeyLength,
        ),
        is_symmetric_cipher(key.spec_alg()) && iv.spec_alg() != key.spec_alg() ==> r == Err::<
            Vec<u8>,
            CryptoError,
        >(CryptoError::InvalidNonceLength),
        is_symmetric_cipher(key.spec_alg()) && iv.spec_alg() == key.spec_alg() && !padding_fits(
            key.spec_alg(),
            padding,
        ) ==> r == Err::<Vec<u8>, CryptoError>(CryptoError::InvalidPadding),
        is_symmetric_cipher(key.spec_alg()) && iv.spec_alg() == key.spec_alg() && padding_fits(
            key.spec_alg(),
            padding,
        ) ==> (match spec_decrypt_symmetric(key.spec_alg(), key@, iv@, ciphertext@) {
            Some(p) => r matches Ok(v) && v@ == p,
            None => r == Err::<Vec<u8>, CryptoError>(CryptoError::InvalidPadding),
        }),
        is_symmetric_cipher(key.spec_alg()) && iv.spec_alg() == key.spec_alg() && padding_fits(
            key.spec_alg(),
            padding,
        ) ==> (forall|p: Seq<u8>|
            ciphertext@ == spec_encrypt_symmetric(key.spec_alg(), key@, iv@, p) ==> (
            r matches Ok(v) && v@ == p)),
{
    match key.alg() {
        Algorithm::Aes128Cbc => {
            if iv.alg() != Algorithm::Aes128Cbc {
                return Err(CryptoError::InvalidNonceLength);
            }
            if !matches!(padding, PaddingMode::Pkcs7) {
                return Err(CryptoError::InvalidPadding);
            }
            match aes128_cbc_pkcs7_decrypt(
                key.bytes().as_slice(),
                iv.bytes().as_slice(),
                ciphertext,
            ) {
                Some(v) => Ok(v),
                None => Err(CryptoError::InvalidPadding),
            }
        },
        Algorithm::ChaCha20 => {
            if iv.alg() != Algorithm::ChaCha20 {
                return Err(CryptoError::InvalidNonceLength);
            }
            if !matches!(padding, PaddingMode::NoPadding) {
                return Err(CryptoError::InvalidPadding);
            }
            Ok(chacha20_xor(key.bytes().as_slice(), iv.bytes().as_slice(), ciphertext))
        },
        _ => Err(CryptoError::InvalidKeyLength),
    }
}

/// Encrypts and authenticates `plaintext`, binding the unencrypted
/// `associated_data` into the tag.
///
/// Returns the ciphertext, of the plaintext's length, and the 16-byte tag
/// as two distinct values; the nonce is never embedded and travels with
/// the caller. The pair decrypts back to the plaintext under the same key,
/// nonce and associated data.
pub fn encrypt_aead(
    plaintext: &[u8],
    key: &SymmetricKey,
    nonce: &Nonce,
    associated_data: &[u8],
) -> (r: Result<(Vec<u8>, Vec<u8>), CryptoError>)
    requires
        key.wf(),
        nonce.wf(),
        plaintext@.len() <= MAX_MESSAGE_LEN,
    ensures
        key.spec_alg() != Algorithm::ChaCha20Poly1305 ==> r == Err::<
            (Vec<u8>, Vec<u8>),
            CryptoError,
        >(CryptoError::InvalidKeyLength),
        key.spec_alg() == Algorithm::ChaCha20Poly1305 && nonce.spec_alg()
            != Algorithm::ChaCha20Poly1305 ==> r == Err::<(Vec<u8>, Vec<u8>), CryptoError>(
            CryptoError::InvalidNonceLength,
        ),
        key.spec_alg() == Algorithm::ChaCha20Poly1305 && nonce.spec_alg()
            == Algorithm::ChaCha20Poly1305 ==> (r matches Ok(ct) && ct.0@ + ct.1@ == aead_seal_of(
            key@,
            nonce@,
            associated_data@,
            plaintext@,
        ) && ct.0@.len() == plaintext@.len() && ct.1@.len() == TAG_LEN && aead_open_of(
            key@,
            nonce@,
            associated_data@,
            ct.0@ + ct.1@,
        ) == Some(plaintext@)),
{
    if key.alg() != Algorithm::ChaCha20Poly1305 {
        return Err(CryptoError::InvalidKeyLength);
    }
    if nonce.alg() != Algorithm::ChaCha20Poly1305 {
        return Err(CryptoError::InvalidNonceLength);
    }
    let mut sealed = chacha20poly1305_seal(
        key.bytes().as_slice(),
        nonce.bytes().as_slice(),
        associated_data,
        plaintext,
    );
    let split_at = sealed.len() - TAG_LEN;
    let tag = sealed.split_off(split_at);
    proof {
        assert(sealed@ + tag@ =~= aead_seal_of(key@, nonce@, associated_data@, plaintext@));
    }
    Ok((sealed, tag))
}

/// Decrypts an AEAD ciphertext, releasing the plaintext only after the
/// tag verifies over both the ciphertext and the associated data.
///
/// Any failure is the single opaque `AuthenticationFailed`: a tag
/// mismatch, corrupted ciphertext, a wrong key and a malformed tag length
/// are indistinguishable. A success certifies that the input pair is
/// exactly the sealing of the returned plaintext.
pub fn decrypt_aead(
    ciphertext: &[u8],
    tag: &[u8],
    key: &SymmetricKey,
    nonce: &Nonce,
    associated_data: &[u8],
) -> (r: Result<Vec<u8>, CryptoError>)
    requires
        key.wf(),
        nonce.wf(),
        ciphertext@.len() <= MAX_MESSAGE_LEN,
    ensures
        key.spec_alg() != Algorithm::ChaCha20Poly1305 ==> r == Err::<Vec<u8>, CryptoError>(
            CryptoError::InvalidKeyLength,
        ),
        key.spec_alg() == Algorithm::ChaCha20Poly1305 && nonce.spec_alg()
            != Algorithm::ChaCha20Poly1305 ==> r == Err::<Vec<u8>, CryptoError>(
            CryptoError::InvalidNonceLength,
        ),
        key.spec_alg() == Algorithm::ChaCha20Poly1305 && nonce.spec_alg()
            == Algorithm::ChaCha20Poly1305 && tag@.len() != TAG_LEN ==> r == Err::<
            Vec<u8>,
            CryptoError,
        >(CryptoError::AuthenticationFailed),
        key.spec_alg() == Algorithm::ChaCha20Poly1305 && nonce.spec_alg()
            == Algorithm::ChaCha20Poly1305 && tag@.len() == TAG_LEN ==> (match aead_open_of(
            key@,
            nonce@,
            associated_data@,
            ciphertext@ + tag@,
        ) {
            Some(p) => r matches Ok(v) && v@ == p,
            None => r == Err::<Vec<u8>, CryptoError>(CryptoError::AuthenticationFailed),
        }),
        key.spec_alg() == Algorithm::ChaCha20Poly1305 && nonce.spec_alg()
            == Algorithm::ChaCha20Poly1305 && tag@.len() == TAG_LEN ==> (forall|p: Seq<u8>|
            ciphertext@ + tag@ == aead_seal_of(key@, nonce@, associated_data@, p) ==> (
            r matches Ok(v) && v@ == p)),
        r matches Ok(v) ==> ciphertext@ + tag@ == aead_seal_of(
            key@,
            nonce@,
            associated_data@,
            v@,
        ),
{
    if key.alg() != Algorithm::ChaCha20Poly1305 {
        return Err(CryptoError::InvalidKeyLength);
    }
    if nonce.alg() != Algorithm::ChaCha20Poly1305 {
        return Err(CryptoError::InvalidNonceLength);
    }
    if tag.len() != TAG_LEN {
        return Err(CryptoError::AuthenticationFailed);
    }
    let mut combined: Vec<u8> = Vec::new();
    combined.extend_from_slice(ciphertext);
    combined.extend_from_slice(tag);
    proof {
        assert(combined@ =~= ciphertext@ + tag@);
    }
    match chacha20poly1305_open(
        key.bytes().as_slice(),
        nonce.bytes().as_slice(),
        associated_data,
        combined.as_slice(),
    ) {
        Some(v) => Ok(v),
        None => Err(CryptoError::AuthenticationFailed),
    }
}

/// Expands a source secret into `output_length` bytes of independent
/// keying material, bound to the `info` label (HKDF over SHA-256).
///
/// The result is a pure function of the four inputs, so equal inputs give
/// equal keys, and it can feed a downstream cipher directly without
/// re-exposing the source secret.
pub fn derive_key(secret: &[u8], salt: &Salt, info: &[u8], output_length: usize) -> (r: Result<
    DerivedKey,
    CryptoError,
>)
    requires
        salt.wf(),
    ensures
        output_length > MAX_OKM_LEN ==> r == Err::<DerivedKey, CryptoError>(
            CryptoError::InvalidKeyLength,
        ),
        output_length <= MAX_OKM_LEN ==> (r matches Ok(okm) && okm@ == hkdf_sha256_of(
            secret@,
            salt@,
            info@,
            output_length as nat,
        ) && okm@.len() == output_length),
{
    if output_length > MAX_OKM_LEN {
        return Err(CryptoError::InvalidKeyLength);
    }
    let okm = hkdf_sha256_expand(secret, salt.bytes().as_slice(), info, output_length);
    Ok(DerivedKey::from_bytes(okm))
}

/// Derives a 32-byte key from a source secret and binds it directly to
/// the AEAD family, so the derived bytes never cross the facade boundary
/// raw: the caller receives a typed key, feeds it to `encrypt_aead`, and
/// the source secret is never re-exposed.
pub fn derive_aead_key(secret: &[u8], salt: &Salt, info: &[u8]) -> (r: Result<
    SymmetricKey,
    CryptoError,
>)
    requires
        salt.wf(),
    ensures
        r matches Ok(k) && k.wf() && k.spec_alg() == Algorithm::ChaCha20Poly1305 && k@
            == hkdf_sha256_of(secret@, salt@, info@, 32),
{
    let okm = hkdf_sha256_expand(secret, salt.bytes().as_slice(), info, 32);
    match SymmetricKey::new(okm, Algorithm::ChaCha20Poly1305) {
        Ok(k) => Ok(k),
        Err(e) => {
            proof {
                assert(false);
            }
            Err(e)
        },
    }
}

/// Tunable work-factor parameters of the password key derivation.
#[derive(Clone, Copy, Debug, PartialEq, Eq, Structural)]
pub struct KdfParams {
    /// Memory cost in KiB blocks.
    pub m_cost: u32,
    /// Number of passes.
    pub t_cost: u32,
    /// Degree of parallelism.
    pub p_cost: u32,
    /// Requested key length in bytes.
    pub output_len: usize,
}

/// The policy minimum for the memory cost, in KiB.
pub const MIN_M_COST: u32 = 8192;

/// The policy maximum for the memory cost, in KiB.
pub const MAX_M_COST: u32 = 0x40_0000;

/// The policy minimum for the pass count.
pub const MIN_T_COST: u32 = 2;

/// The policy maximum for the parallelism degree.
pub const MAX_P_COST: u32 = 64;

/// The shortest derived key the password KDF hands out.
pub const MIN_DERIVED_LEN: usize = 4;

/// The longest derived key the password KDF hands out.
pub const MAX_DERIVED_LEN: usize = 1024;

/// The work factors lie within the configured policy window.
pub open spec fn work_factor_acceptable(params: KdfParams) -> bool {
    MIN_M_COST <= params.m_cost <= MAX_M_COST && params.t_cost >= MIN_T_COST && 1 <= params.p_cost
        <= MAX_P_COST
}

/// The requested key length lies within the accepted window.
pub open spec fn derived_len_acceptable(params: KdfParams) -> bool {
    MIN_DERIVED_LEN <= params.output_len <= MAX_DERIVED_LEN
}

/// Strengthens a password into key material with a tunable, CPU-and-memory
/// bound work factor (Argon2id).
///
/// Work factors below the policy minimum are refused with
/// `InsufficientEntropy` before any derivation runs; factors above the
/// policy maxima (a memory bound, a parallelism bound) are refused with
/// the same variant, the taxonomy naming no closer one. The result is a
/// pure function of password, salt and parameters.
pub fn derive_password_key(password: &[u8], salt: &Salt, params: &KdfParams) -> (r: Result<
    DerivedKey,
    CryptoError,
>)
    requires
        salt.wf(),
        password@.len() <= 0xFFFF_FFFF,
    ensures
        !work_factor_acceptable(*params) ==> r == Err::<DerivedKey, CryptoError>(
            CryptoError::InsufficientEntropy,
        ),
        work_factor_acceptable(*params) && !derived_len_acceptable(*params) ==> r == Err::<
            DerivedKey,
            CryptoError,
        >(CryptoError::InvalidKeyLength),
        work_factor_acceptable(*params) && derived_len_acceptable(*params) ==> (r matches Ok(dk)
            && dk@ == argon2id_of(
            password@,
            salt@,
            params.m_cost as int,
            params.t_cost as int,
            params.p_cost as int,
            params.output_len as nat,
        ) && dk@.len() == params.output_len),
{
    if params.m_cost < MIN_M_COST || params.m_cost > MAX_M_COST || params.t_cost < MIN_T_COST
        || params.p_cost < 1 || params.p_cost > MAX_P_COST {
        return Err(CryptoError::InsufficientEntropy);
    }
    if params.output_len < MIN_DERIVED_LEN || params.output_len > MAX_DERIVED_LEN {
        return Err(CryptoError::InvalidKeyLength);
    }
    let out = argon2id_derive(
        password,
        salt.bytes().as_slice(),
        params.m_cost,
        params.t_cost,
        params.p_cost,
        params.output_len,
    );
    Ok(DerivedKey::from_bytes(out))
}

/// Hashes a password into one self-describing encoded string that embeds
/// algorithm, version, work-factor parameters and a fresh 16-byte salt, so
/// verification needs no side-channel configuration.
///
/// The only failure is the entropy source: the salt is always drawn fresh,
/// never defaulted. Verifying the returned string with the same password
/// is proved to succeed.
pub fn hash_password(password: &[u8]) -> (r: Result<String, CryptoError>)
    requires
        password@.len() <= 0xFFFF_FFFF,
    ensures
        r matches Ok(h) ==> argon2_verifies(password@, h@),
        r matches Ok(h) ==> exists|s: Seq<u8>| s.len() == 16 && h@ == argon2_phc_of(password@, s),
        r matches Err(e) ==> e == CryptoError::RandomSourceUnavailable,
{
    match os_random(16) {
        Some(salt) => {
            let encoded = argon2_hash_encoded(password, salt.as_slice());
            proof {
                assert(salt@.len() == 16 && encoded@ == argon2_phc_of(password@, salt@));
            }
            Ok(encoded)
        },
        None => Err(CryptoError::RandomSourceUnavailable),
    }
}

/// Checks a password against a self-describing encoded hash: the string
/// itself names the algorithm, parameters and salt to re-derive with. An
/// unparsable string verifies as false rather than erring.
pub fn verify_password(password: &[u8], encoded: &str) -> (r: bool)
    ensures
        r == argon2_verifies(password@, encoded@),
{
    argon2_verify(password, encoded)
}

/// Whether `tag` is the MAC that `compute_mac` produces for this key and
/// message.
pub open spec fn mac_accepts(key: Seq<u8>, msg: Seq<u8>, tag: Seq<u8>) -> bool {
    tag == hmac_sha256_of(key, msg)
}

/// Computes the 32-byte HMAC-SHA-256 tag of `message` under a MAC key.
pub fn compute_mac(key: &SymmetricKey, message: &[u8]) -> (r: Result<Vec<u8>, CryptoError>)
    requires
        key.wf(),
    ensures
        key.spec_alg() != Algorithm::HmacSha256 ==> r == Err::<Vec<u8>, CryptoError>(
            CryptoError::InvalidKeyLength,
        ),
        key.spec_alg() == Algorithm::HmacSha256 ==> (r matches Ok(t) && t@ == hmac_sha256_of(
            key@,
            message@,
        ) && t@.len() == 32),
{
    if key.alg() != Algorithm::HmacSha256 {
        return Err(CryptoError::InvalidKeyLength);
    }
    Ok(hmac_sha256(key.bytes().as_slice(), message))
}

/// Verifies a MAC tag in constant time: the comparison never branches on
/// the tag bytes, so a mismatch leaks nothing about where it mismatched.
/// Acceptance is proved equivalent to `tag` being the tag `compute_mac`
/// returns for the same key and message.
pub fn verify_mac(key: &SymmetricKey, message: &[u8], tag: &[u8]) -> (r: Result<
    bool,
    CryptoError,
>)
    requires
        key.wf(),
    ensures
        key.spec_alg() != Algorithm::HmacSha256 ==> r == Err::<bool, CryptoError>(
            CryptoError::InvalidKeyLength,
        ),
        key.spec_alg() == Algorithm::HmacSha256 ==> (r matches Ok(b) && b == mac_accepts(
            key@,
            message@,
            tag@,
        )),
{
    if key.alg() != Algorithm::HmacSha256 {
        return Err(CryptoError::InvalidKeyLength);
    }
    let expected = hmac_sha256(key.bytes().as_slice(), message);
    let ok = ct_eq_bytes(expected.as_slice(), tag);
    Ok(ok)
}

/// Computes the unkeyed 32-byte SHA-256 digest of a message, for content
/// hashing.
pub fn hash(message: &[u8]) -> (r: Vec<u8>)
    ensures
        r@ == sha256_of(message@),
        r@.len() == 32,
{
    sha256_digest(message)
}

/// Renders bytes as lowercase hexadecimal, two digits per byte, high
/// nibble first.
pub fn to_hex(bytes: &[u8]) -> (r: String)
    ensures
        r@ == hex_of(bytes@),
{
    hex_encode(bytes)
}

/// Draws `n` bytes from the operating system's cryptographically secure
/// source; an entropy failure is surfaced, never papered over by a weaker
/// generator.
pub fn random_bytes(n: usize) -> (r: Result<Vec<u8>, CryptoError>)
    ensures
        r matches Ok(v) ==> v@.len() == n,
        r matches Err(e) ==> e == CryptoError::RandomSourceUnavailable,
{
    match os_random(n) {
        Some(v) => Ok(v),
        None => Err(CryptoError::RandomSourceUnavailable),
    }
}

/// The integer a little-endian 8-byte sequence encodes.
pub open spec fn le_u64_of(b: Seq<u8>) -> int
    recommends
        b.len() == 8,
{
    b[0] + 0x100 * b[1] + 0x1_0000 * b[2] + 0x100_0000 * b[3] + 0x1_0000_0000 * b[4]
        + 0x100_0000_0000 * b[5] + 0x1_0000_0000_0000 * b[6] + 0x100_0000_0000_0000 * b[7]
}

/// Assembles a `u64` from 8 little-endian bytes.
pub fn u64_from_le_bytes(b: &Vec<u8>) -> (r: u64)
    requires
        b@.len() == 8,
    ensures
        r as int == le_u64_of(b@),
{
    (b[0] as u64) + 0x100u64 * (b[1] as u64) + 0x1_0000u64 * (b[2] as u64) + 0x100_0000u64 * (
    b[3] as u64) + 0x1_0000_0000u64 * (b[4] as u64) + 0x100_0000_0000u64 * (b[5] as u64)
        + 0x1_0000_0000_0000u64 * (b[6] as u64) + 0x100_0000_0000_0000u64 * (b[7] as u64)
}

/// Draws a uniformly random 64-bit integer from the operating system's
/// secure source. No seed can be supplied: there is no reproducible mode.
pub fn random_u64() -> (r: Result<u64, CryptoError>)
    ensures
        r matches Err(e) ==> e == CryptoError::RandomSourceUnavailable,
{
    match os_random(8) {
        Some(v) => Ok(u64_from_le_bytes(&v)),
        None => Err(CryptoError::RandomSourceUnavailable),
    }
}

/// Generates a fresh nonce of the right length for `alg` from the secure
/// source; the default for every encryption unless the caller explicitly
/// runs a counter scheme of its own.
pub fn generate_nonce(alg: Algorithm) -> (r: Result<Nonce, CryptoError>)
    requires
        takes_nonce(alg),
    ensures
        r matches Ok(n) ==> n.wf() && n.spec_alg() == alg && n@.len() == spec_nonce_len(alg),
        r matches Err(e) ==> e == CryptoError::RandomSourceUnavailable,
{
    match os_random(nonce_len(alg)) {
        Some(bytes) => Ok(Nonce::from_fresh(bytes, alg)),
        None => Err(CryptoError::RandomSourceUnavailable),
    }
}

/// Generates a fresh 16-byte salt from the secure source, one per subject.
pub fn generate_salt() -> (r: Result<Salt, CryptoError>)
    ensures
        r matches Ok(s) ==> s.wf() && s@.len() == 16,
        r matches Err(e) ==> e == CryptoError::RandomSourceUnavailable,
{
    match os_random(16) {
        Some(bytes) => match Salt::new(bytes) {
            Ok(s) => Ok(s),
            Err(_) => Err(CryptoError::RandomSourceUnavailable),
        },
        None => Err(CryptoError::RandomSourceUnavailable),
    }
}

} // verus!
