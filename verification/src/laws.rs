//! Properties that relate several facade operations, stated once and
//! proved from the operations' own contracts.

use vstd::prelude::*;

use crate::adapters::hkdf_sha256_of;
use crate::adapters::hmac_sha256_of;
use crate::facade::mac_accepts;

verus! {

/// Determinism of key derivation: two derivations from an identical
/// secret, salt, info label and length yield identical keying material.
pub proof fn lemma_derive_key_deterministic(
    secret: Seq<u8>,
    salt: Seq<u8>,
    info: Seq<u8>,
    n: nat,
    first: Seq<u8>,
    second: Seq<u8>,
)
    requires
        first == hkdf_sha256_of(secret, salt, info, n),
        second == hkdf_sha256_of(secret, salt, info, n),
    ensures
        first == second,
{
}

/// MAC integrity, accepting direction: the tag computed for a key and a
/// message is accepted by verification under that same key and message.
pub proof fn lemma_mac_self_verifies(key: Seq<u8>, msg: Seq<u8>)
    ensures
        mac_accepts(key, msg, hmac_sha256_of(key, msg)),
{
}

} // verus!
