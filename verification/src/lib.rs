//! A unified cryptographic primitives facade.
//!
//! Exposes six primitive families (symmetric cipher, authenticated
//! encryption, key derivation, message authentication, hashing, secure
//! randomness) behind one consistent, misuse-resistant interface, with
//! typed key and nonce material, a single error taxonomy, and explicit
//! zeroization of secret buffers.

pub mod adapters;
pub mod errors;
pub mod facade;
pub mod laws;
pub mod material;
