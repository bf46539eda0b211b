//! Typed key, nonce and salt material.
//!
//! Constructors validate byte lengths against the target algorithm at
//! construction time, so misuse is rejected before any cryptographic
//! primitive executes. Secret-carrying values offer explicit zeroization,
//! proved to overwrite every byte while keeping the length.

use vstd::prelude::*;

use crate::errors::CryptoError;

verus! {

/// The algorithm families a key or nonce can be bound to.
#[derive(Clone, Copy, Debug, PartialEq, Eq, Structural)]
pub enum Algorithm {
    /// AES-128 in CBC mode with PKCS#7 padding: 16-byte key, 16-byte IV.
    Aes128Cbc,
    /// The ChaCha20 stream cipher: 32-byte key, 12-byte nonce.
    ChaCha20,
    /// The ChaCha20-Poly1305 AEAD: 32-byte key, 12-byte nonce, 16-byte tag.
    ChaCha20Poly1305,
    /// HMAC over SHA-256: the facade fixes the key at 32 bytes.
    HmacSha256,
}

/// The padding mode a symmetric-cipher call asks for.
#[derive(Clone, Copy, Debug, PartialEq, Eq, Structural)]
pub enum PaddingMode {
    /// PKCS#7 block padding; required by the block cipher.
    Pkcs7,
    /// No padding; required by the stream cipher.
    NoPadding,
}

/// The key length, in bytes, that `alg` requires.
pub open spec fn spec_key_len(alg: Algorithm) -> usize {
    match alg {
        Algorithm::Aes128Cbc => 16,
        Algorithm::ChaCha20 => 32,
        Algorithm::ChaCha20Poly1305 => 32,
        Algorithm::HmacSha256 => 32,
    }
}

/// The key length, in bytes, that `alg` requires.
pub fn key_len(alg: Algorithm) -> (n: usize)
    ensures
        n == spec_key_len(alg),
{
    match alg {
        Algorithm::Aes128Cbc => 16,
        Algorithm::ChaCha20 => 32,
        Algorithm::ChaCha20Poly1305 => 32,
        Algorithm::HmacSha256 => 32,
    }
}

/// The nonce or IV length, in bytes, that `alg` requires. The MAC family
/// takes no nonce at all, so no nonce can be built for it.
pub open spec fn spec_nonce_len(alg: Algorithm) -> usize {
    match alg {
        Algorithm::Aes128Cbc => 16,
        Algorithm::ChaCha20 => 12,
        Algorithm::ChaCha20Poly1305 => 12,
        Algorithm::HmacSha256 => 0,
    }
}

/// The nonce or IV length, in bytes, that `alg` requires.
pub fn nonce_len(alg: Algorithm) -> (n: usize)
    ensures
        n == spec_nonce_len(alg),
{
    match alg {
        Algorithm::Aes128Cbc => 16,
        Algorithm::ChaCha20 => 12,
        Algorithm::ChaCha20Poly1305 => 12,
        Algorithm::HmacSha256 => 0,
    }
}

/// Whether `alg` is one of the nonce-taking cipher families.
pub open spec fn takes_nonce(alg: Algorithm) -> bool {
    !(alg is HmacSha256)
}

/// Every byte of `s` is zero.
pub open spec fn all_zero(s: Seq<u8>) -> bool {
    forall|i: int| 0 <= i < s.len() ==> s[i] == 0
}

/// Decides whether every byte of `bytes` is zero.
pub fn is_all_zero(bytes: &[u8]) -> (r: bool)
    ensures
        r == all_zero(bytes@),
{
    let n = bytes.len();
    let mut i: usize = 0;
    while i < n
        invariant
            i <= n,
            n == bytes@.len(),
            forall|j: int| 0 <= j < i ==> bytes@[j] == 0,
        decreases n - i,
    {
        if bytes[i] != 0 {
            return false;
        }
        i = i + 1;
    }
    true
}

/// Overwrites every byte of `buf` with zero, keeping the length.
pub fn zeroize_bytes(buf: &mut Vec<u8>)
    ensures
        final(buf)@.len() == old(buf)@.len(),
        all_zero(final(buf)@),
{
    let n = buf.len();
    let mut i: usize = 0;
    while i < n
        invariant
            i <= n,
            n == buf@.len(),
            forall|j: int| 0 <= j < i ==> buf@[j] == 0,
        decreases n - i,
    {
        buf[i] = 0;
        i = i + 1;
    }
}

/// Secret key material bound to one algorithm.
///
/// The byte length is validated at construction, so a well-formed key can
/// be fed to the facade without a second length check. The bytes are owned
/// exclusively and can be wiped when the key's lifetime ends.
pub struct SymmetricKey {
    alg: Algorithm,
    bytes: Vec<u8>,
}

impl View for SymmetricKey {
    type V = Seq<u8>;

    closed spec fn view(&self) -> Seq<u8> {
        self.bytes@
    }
}

impl SymmetricKey {
    /// The algorithm this key is bound to.
    pub closed spec fn spec_alg(&self) -> Algorithm {
        self.alg
    }

    /// The key has exactly the length its algorithm requires.
    pub open spec fn wf(&self) -> bool {
        self@.len() == spec_key_len(self.spec_alg())
    }

    /// Validates `bytes` against `alg`'s required key size and wraps it.
    /// Fails fast with `InvalidKeyLength`, before any primitive runs.
    pub fn new(bytes: Vec<u8>, alg: Algorithm) -> (r: Result<SymmetricKey, CryptoError>)
        ensures
            bytes@.len() == spec_key_len(alg) ==> (r matches Ok(k) && k@ == bytes@
                && k.spec_alg() == alg && k.wf()),
            bytes@.len() != spec_key_len(alg) ==> r == Err::<SymmetricKey, CryptoError>(
                CryptoError::InvalidKeyLength,
            ),
    {
        if bytes.len() == key_len(alg) {
            Ok(SymmetricKey { alg, bytes })
        } else {
            Err(CryptoError::InvalidKeyLength)
        }
    }

    /// The algorithm this key is bound to.
    pub fn alg(&self) -> (a: Algorithm)
        ensures
            a == self.spec_alg(),
    {
        self.alg
    }

    /// Borrows the key bytes; only the facade's own operations need this.
    pub fn bytes(&self) -> (b: &Vec<u8>)
        ensures
            b@ == self@,
    {
        &self.bytes
    }

    /// Overwrites the key bytes with zeros, keeping length and algorithm,
    /// so the secret does not outlive its owning operation.
    pub fn wipe(&mut self)
        ensures
            final(self)@.len() == old(self)@.len(),
            all_zero(final(self)@),
            final(self).spec_alg() == old(self).spec_alg(),
    {
        zeroize_bytes(&mut self.bytes);
    }
}

/// A per-operation uniqueness value (nonce or IV) bound to one algorithm.
///
/// A nonce must never repeat for the same key under the same algorithm.
/// The facade cannot detect reuse, but it refuses all-zero nonces unless
/// the caller explicitly opts into the deterministic mode for testing.
pub struct Nonce {
    alg: Algorithm,
    bytes: Vec<u8>,
}

impl View for Nonce {
    type V = Seq<u8>;

    closed spec fn view(&self) -> Seq<u8> {
        self.bytes@
    }
}

impl Nonce {
    /// The algorithm this nonce is bound to.
    pub closed spec fn spec_alg(&self) -> Algorithm {
        self.alg
    }

    /// The nonce has exactly the length its algorithm requires.
    pub open spec fn wf(&self) -> bool {
        self@.len() == spec_nonce_len(self.spec_alg())
    }

    /// Validates `bytes` against `alg`'s nonce size and refuses all-zero
    /// values, which almost always indicate a missing nonce-generation
    /// step. Both failures report `InvalidNonceLength`.
    pub fn new(bytes: Vec<u8>, alg: Algorithm) -> (r: Result<Nonce, CryptoError>)
        ensures
            (bytes@.len() == spec_nonce_len(alg) && !all_zero(bytes@)) ==> (r matches Ok(n)
                && n@ == bytes@ && n.spec_alg() == alg && n.wf()),
            (bytes@.len() != spec_nonce_len(alg) || all_zero(bytes@)) ==> r == Err::<
                Nonce,
                CryptoError,
            >(CryptoError::InvalidNonceLength),
    {
        if bytes.len() == nonce_len(alg) && !is_all_zero(bytes.as_slice()) {
            Ok(Nonce { alg, bytes })
        } else {
            Err(CryptoError::InvalidNonceLength)
        }
    }

    /// Deterministic-nonce mode: validates the length only, accepting even
    /// an all-zero value. This is an explicit opt-in for tests and known
    /// answer vectors; production callers use `new` or `generate_nonce`.
    pub fn new_for_testing(bytes: Vec<u8>, alg: Algorithm) -> (r: Result<Nonce, CryptoError>)
        ensures
            bytes@.len() == spec_nonce_len(alg) ==> (r matches Ok(n) && n@ == bytes@
                && n.spec_alg() == alg && n.wf()),
            bytes@.len() != spec_nonce_len(alg) ==> r == Err::<Nonce, CryptoError>(
                CryptoError::InvalidNonceLength,
            ),
    {
        if bytes.len() == nonce_len(alg) {
            Ok(Nonce { alg, bytes })
        } else {
            Err(CryptoError::InvalidNonceLength)
        }
    }

    /// Wraps freshly drawn nonce bytes of the right length; the facade's
    /// generator is the only caller.
    pub(crate) fn from_fresh(bytes: Vec<u8>, alg: Algorithm) -> (r: Nonce)
        requires
            bytes@.len() == spec_nonce_len(alg),
        ensures
            r@ == bytes@,
            r.spec_alg() == alg,
            r.wf(),
    {
        Nonce { alg, bytes }
    }

    /// The algorithm this nonce is bound to.
    pub fn alg(&self) -> (a: Algorithm)
        ensures
            a == self.spec_alg(),
    {
        self.alg
    }

    /// Borrows the nonce bytes. A nonce is not secret and may travel next
    /// to the ciphertext.
    pub fn bytes(&self) -> (b: &Vec<u8>)
        ensures
            b@ == self@,
    {
        &self.bytes
    }
}

/// Non-secret randomization input to a KDF or password hash.
///
/// The length window fits both the raw-salt key derivation path and the
/// encoded password-hash path.
pub struct Salt {
    bytes: Vec<u8>,
}

/// The shortest salt the facade accepts: the password hasher's own
/// minimum, applied to every derivation path.
pub const MIN_SALT_LEN: usize = 8;

/// The longest salt the facade accepts. One window serves every path, and
/// its top is what the self-describing password-hash encoding can carry
/// (64 base64 characters, so 48 raw bytes); the other derivations accept
/// more, but a salt that fits every facade use keeps salts interchangeable
/// across them.
pub const MAX_SALT_LEN: usize = 48;

impl View for Salt {
    type V = Seq<u8>;

    closed spec fn view(&self) -> Seq<u8> {
        self.bytes@
    }
}

impl Salt {
    /// The salt length lies in the accepted window.
    pub open spec fn wf(&self) -> bool {
        MIN_SALT_LEN <= self@.len() <= MAX_SALT_LEN
    }

    /// Validates the salt length. A salt is nonce-like randomization
    /// input, so a bad length reports `InvalidNonceLength`.
    pub fn new(bytes: Vec<u8>) -> (r: Result<Salt, CryptoError>)
        ensures
            (MIN_SALT_LEN <= bytes@.len() <= MAX_SALT_LEN) ==> (r matches Ok(s) && s@ == bytes@
                && s.wf()),
            !(MIN_SALT_LEN <= bytes@.len() <= MAX_SALT_LEN) ==> r == Err::<Salt, CryptoError>(
                CryptoError::InvalidNonceLength,
            ),
    {
        if MIN_SALT_LEN <= bytes.len() && bytes.len() <= MAX_SALT_LEN {
            Ok(Salt { bytes })
        } else {
            Err(CryptoError::InvalidNonceLength)
        }
    }

    /// Borrows the salt bytes; a salt is stored alongside what it salted.
    pub fn bytes(&self) -> (b: &Vec<u8>)
        ensures
            b@ == self@,
    {
        &self.bytes
    }
}

/// Output keying material of a KDF, owned by the caller once returned.
///
/// The caller is responsible for its lifetime and can wipe it when the
/// downstream construction is done with it.
pub struct DerivedKey {
    bytes: Vec<u8>,
}

impl View for DerivedKey {
    type V = Seq<u8>;

    closed spec fn view(&self) -> Seq<u8> {
        self.bytes@
    }
}

impl DerivedKey {
    /// Wraps freshly derived keying material; the facade's KDF operations
    /// are the only callers.
    pub(crate) fn from_bytes(bytes: Vec<u8>) -> (r: DerivedKey)
        ensures
            r@ == bytes@,
    {
        DerivedKey { bytes }
    }

    /// Borrows the derived bytes for a downstream cipher or MAC.
    pub fn bytes(&self) -> (b: &Vec<u8>)
        ensures
            b@ == self@,
    {
        &self.bytes
    }

    /// The derived length in bytes.
    pub fn len(&self) -> (n: usize)
        ensures
            n == self@.len(),
    {
        self.bytes.len()
    }

    /// Overwrites the derived bytes with zeros, keeping the length.
    pub fn wipe(&mut self)
        ensures
            final(self)@.len() == old(self)@.len(),
            all_zero(final(self)@),
    {
        zeroize_bytes(&mut self.bytes);
    }
}

} // verus!
