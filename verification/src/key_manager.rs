//! Ed25519 key management: build a keypair from a 32-byte seed, expose the
//! public key, sign messages, and verify signatures either against the owned
//! key or against externally supplied public key bytes.

use vstd::prelude::*;

use crate::KeyError;
use ed25519_dalek::Keypair;
use ed25519_dalek::PublicKey;
use ed25519_dalek::SecretKey;
use ed25519_dalek::Signature;
use ed25519_dalek::Signer;
use ed25519_dalek::Verifier;

verus! {

/// The Ed25519 public key derived from a 32-byte seed, a pure function of
/// the seed.
pub uninterp spec fn public_key_of(seed: Seq<u8>) -> Seq<u8>;

/// Whether 32 bytes are the encoding of a valid curve point, that is,
/// whether ed25519_dalek::PublicKey::from_bytes accepts them.
pub uninterp spec fn is_valid_public_key(public_key: Seq<u8>) -> bool;

/// The Ed25519 signature that the keypair of the given seed produces over a
/// message; Ed25519 signing is deterministic, so this is a pure function of
/// seed and message.
pub uninterp spec fn signature_of(seed: Seq<u8>, message: Seq<u8>) -> Seq<u8>;

/// Whether a signature is accepted for the given public key and message,
/// that is, what ed25519_dalek::PublicKey::verify returns; a pure function
/// of its three arguments.
pub uninterp spec fn verify_ok(public_key: Seq<u8>, message: Seq<u8>, signature: Seq<u8>) -> bool;

/// A structurally well-formed signature: exactly 64 bytes whose scalar half
/// passes the partial reduction check (the top three bits of the last byte
/// are clear). Signature parsing accepts exactly these byte strings.
pub open spec fn is_wellformed_signature(signature: Seq<u8>) -> bool {
    signature.len() == 64 && signature[63] & 0xE0 == 0
}

/// Relies on ed25519_dalek::SecretKey::from_bytes, which accepts every
/// 32-byte string, and ed25519_dalek::PublicKey::From<&SecretKey>: the
/// public key is derived deterministically from the seed, is 32 bytes, and
/// is the compressed encoding of a curve point, so parsing it back succeeds.
#[verifier::external_body]
fn ed25519_public_key(seed: &[u8]) -> (r: Vec<u8>)
    requires
        seed@.len() == 32,
    ensures
        r@ == public_key_of(seed@),
        r@.len() == 32,
        is_valid_public_key(r@),
{
    let secret = SecretKey::from_bytes(seed).unwrap();
    let public = PublicKey::from(&secret);
    public.to_bytes().to_vec()
}

/// Relies on ed25519_dalek::SecretKey::from_bytes, which accepts every
/// 32-byte string, PublicKey::From<&SecretKey>, and Keypair::sign: the
/// signature is deterministic in seed and message, 64 bytes long with a
/// reduced scalar, and valid for the keypair's own public key.
#[verifier::external_body]
fn ed25519_sign(seed: &[u8], message: &[u8]) -> (r: Vec<u8>)
    requires
        seed@.len() == 32,
    ensures
        r@ == signature_of(seed@, message@),
        is_wellformed_signature(r@),
        verify_ok(public_key_of(seed@), message@, r@),
{
    let secret = SecretKey::from_bytes(seed).unwrap();
    let public = PublicKey::from(&secret);
    let keypair = Keypair { secret, public };
    keypair.sign(message).to_bytes().to_vec()
}

/// Relies on ed25519_dalek::PublicKey::from_bytes, ed25519::Signature::
/// from_bytes and ed25519_dalek::PublicKey::verify: the public key parses
/// exactly when the bytes encode a curve point, the signature parses exactly
/// when it is structurally well-formed (checked after the key), and the
/// verdict is a pure function of key, message and signature.
#[verifier::external_body]
fn ed25519_verify(
    public_key: &[u8],
    message: &[u8],
    signature_bytes: &[u8],
) -> (r: Result<bool, KeyError>)
    ensures
        r is Ok <==> (is_valid_public_key(public_key@) && is_wellformed_signature(signature_bytes@)),
        r is Ok ==> r->Ok_0 == verify_ok(public_key@, message@, signature_bytes@),
        (r is Err && r->Err_0 == KeyError::InvalidPublicKeyEncoding) <==> !is_valid_public_key(public_key@),
        (r is Err && r->Err_0 == KeyError::InvalidSignatureEncoding) <==> (is_valid_public_key(public_key@) && !is_wellformed_signature(signature_bytes@)),
{
    let public = match PublicKey::from_bytes(public_key) {
        Ok(p) => p,
        Err(_) => return Err(KeyError::InvalidPublicKeyEncoding),
    };
    let signature = match Signature::from_bytes(signature_bytes) {
        Ok(s) => s,
        Err(_) => return Err(KeyError::InvalidSignatureEncoding),
    };
    Ok(public.verify(message, &signature).is_ok())
}

/// An Ed25519 keypair built from a 32-byte seed. The public half is always
/// derived from the secret half at construction and never settable on its
/// own.
pub struct KeyManager {
    secret: Vec<u8>,
    public: Vec<u8>,
}

impl KeyManager {
    /// The seed this key manager was built from.
    pub closed spec fn seed(&self) -> Seq<u8> {
        self.secret@
    }

    #[verifier::type_invariant]
    closed spec fn wf(&self) -> bool {
        &&& self.secret@.len() == 32
        &&& self.public@.len() == 32
        &&& self.public@ == public_key_of(self.secret@)
        &&& is_valid_public_key(self.public@)
    }

    /// Build a key manager from a seed. Succeeds exactly on 32-byte seeds;
    /// the public key is derived from the seed at once, so equal seeds give
    /// managers with equal public keys.
    pub fn new(seed: &[u8]) -> (r: Result<KeyManager, KeyError>)
        ensures
            r is Ok <==> seed@.len() == 32,
            r matches Ok(km) ==> km.seed() == seed@,
            r matches Err(e) ==> e == KeyError::InvalidSeedLength,
    {
        if seed.len() != 32 {
            return Err(KeyError::InvalidSeedLength);
        }
        let public = ed25519_public_key(seed);
        let secret = vstd::slice::slice_to_vec(seed);
        Ok(KeyManager { secret, public })
    }

    /// The 32-byte public key, a pure function of the seed.
    pub fn public_key(&self) -> (r: Vec<u8>)
        ensures
            r@ == public_key_of(self.seed()),
            r@.len() == 32,
    {
        proof {
            use_type_invariant(self);
        }
        vstd::slice::slice_to_vec(self.public.as_slice())
    }

    /// Sign a message (the empty message included) with the owned keypair.
    /// Deterministic: the same seed and message always give the same 64-byte
    /// signature, and that signature verifies against this manager's public
    /// key.
    pub fn sign(&self, message: &[u8]) -> (r: Vec<u8>)
        ensures
            r@ == signature_of(self.seed(), message@),
            is_wellformed_signature(r@),
            verify_ok(public_key_of(self.seed()), message@, r@),
    {
        proof {
            use_type_invariant(self);
        }
        ed25519_sign(self.secret.as_slice(), message)
    }

    /// Verify a signature over a message against this manager's own public
    /// key. A structurally malformed signature is an error; a well-formed
    /// but wrong signature is a plain false verdict, never an error.
    pub fn verify(&self, message: &[u8], signature_bytes: &[u8]) -> (r: Result<bool, KeyError>)
        ensures
            r is Ok <==> is_wellformed_signature(signature_bytes@),
            r matches Ok(b) ==> b == verify_ok(
                public_key_of(self.seed()),
                message@,
                signature_bytes@,
            ),
            r matches Err(e) ==> e == KeyError::InvalidSignatureEncoding,
    {
        proof {
            use_type_invariant(self);
        }
        ed25519_verify(self.public.as_slice(), message, signature_bytes)
    }

    /// Verify a signature against externally supplied public key bytes, with
    /// no key manager instance needed. Public key bytes that encode no curve
    /// point are rejected first, then a structurally malformed signature;
    /// otherwise the verdict is returned as a plain boolean.
    pub fn verify_with_public_key(
        message: &[u8],
        signature_bytes: &[u8],
        public_key_bytes: &[u8],
    ) -> (r: Result<bool, KeyError>)
        ensures
            r is Ok <==> (is_valid_public_key(public_key_bytes@) && is_wellformed_signature(signature_bytes@)),
            r matches Ok(b) ==> b == verify_ok(public_key_bytes@, message@, signature_bytes@),
            (r is Err && r->Err_0 == KeyError::InvalidPublicKeyEncoding) <==> !is_valid_public_key(public_key_bytes@),
            (r is Err && r->Err_0 == KeyError::InvalidSignatureEncoding) <==> (is_valid_public_key(public_key_bytes@) && !is_wellformed_signature(signature_bytes@)),
    {
        ed25519_verify(public_key_bytes, message, signature_bytes)
    }

    /// Law: a signature this manager produces always verifies against its
    /// own public key, for every message, the empty one included. The result
    /// is proved to be true on every call.
    pub fn sign_and_verify_roundtrip(&self, message: &[u8]) -> (r: bool)
        ensures
            r,
    {
        let signature = self.sign(message);
        match self.verify(message, signature.as_slice()) {
            Ok(b) => b,
            Err(_) => false,
        }
    }
}

/// Law: keypair construction is deterministic. Two key managers built from
/// the same seed expose the same public key and sign every message
/// identically.
pub proof fn lemma_keypair_deterministic(a: KeyManager, b: KeyManager, message: Seq<u8>)
    requires
        a.seed() == b.seed(),
    ensures
        public_key_of(a.seed()) == public_key_of(b.seed()),
        signature_of(a.seed(), message) == signature_of(b.seed(), message),
{
}

} // verus!
