//! Deterministic cryptographic identity derived from human credentials.
//!
//! The crate turns (context bytes, email, password) into a 32-byte seed by a
//! memory-hard, domain-separated derivation, builds an Ed25519 keypair from
//! such a seed, signs and verifies messages with it, and renders a public key
//! as a short self-describing identifier string with built-in corruption
//! detection.

use vstd::prelude::*;

pub mod hcs0;
pub mod key_manager;
pub mod seed_from;

pub use key_manager::KeyManager;
pub use seed_from::derive_seed_from;

verus! {

/// Errors reported by the fallible operations of this crate.
#[derive(Clone, Copy, Debug, PartialEq, Eq, Structural)]
pub enum KeyError {
    /// The password-hashing primitive rejected its parameters or an
    /// over-length input.
    ConfigRejected,
    /// A seed of a length other than 32 bytes was supplied.
    InvalidSeedLength,
    /// The seed bytes were rejected by the curve's secret-key validation.
    /// The Ed25519 backend used here accepts every 32-byte seed, so this
    /// variant is never produced by this crate; it is kept so that callers
    /// can match the full failure taxonomy of the key manager.
    InvalidSeedEncoding,
    /// A signature that is not a well-formed 64-byte Ed25519 signature.
    InvalidSignatureEncoding,
    /// Public key bytes that are not a valid Ed25519 point encoding.
    InvalidPublicKeyEncoding,
    /// The identifier codec was handed bytes it cannot encode.
    EncodingFailed,
    /// The identifier string failed length, alphabet, prefix or parity checks.
    DecodeFailed,
}

} // verus!
