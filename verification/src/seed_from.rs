//! Seed derivation: maps (context bytes, email, password) to a 32-byte seed.
//!
//! The salt is the SHA-512 digest of the email's UTF-8 bytes, so that even an
//! empty email yields a salt far above the password hash's 8-byte minimum.
//! The seed is Argon2id over the password with that salt, the context bytes
//! as the secret-key parameter, and a fixed domain-separation tag as the
//! associated data, with time cost 2, 4 lanes, 64 MiB of memory and a
//! 32-byte output.

use vstd::prelude::*;

use crate::KeyError;
use sha2::Digest;
use sha2::Sha512;

verus! {

use vstd::utf8::encode_utf8;

/// The SHA-512 digest of a byte string, a pure function of its input.
pub uninterp spec fn sha512_of(data: Seq<u8>) -> Seq<u8>;

/// Relies on sha2::Sha512::digest: deterministic in the input bytes,
/// always producing a 64-byte digest.
#[verifier::external_body]
fn sha512_digest(data: &[u8]) -> (r: Vec<u8>)
    ensures
        r@ == sha512_of(data@),
        r@.len() == 64,
{
    Sha512::digest(data).to_vec()
}

/// The Argon2id (version 0x13) hash for the given cost parameters, password,
/// salt, secret-key bytes and associated data, a pure function of those
/// arguments.
pub uninterp spec fn argon2id_of(
    time_cost: u32,
    lanes: u32,
    mem_cost: u32,
    hash_length: u32,
    password: Seq<u8>,
    salt: Seq<u8>,
    secret: Seq<u8>,
    ad: Seq<u8>,
) -> Seq<u8>;

/// Parameter combinations that the Argon2 implementation accepts on every
/// platform: lane, memory, time and output-length ranges, and input lengths
/// that fit in 32 bits.
pub open spec fn argon2_params_ok(
    time_cost: u32,
    lanes: u32,
    mem_cost: u32,
    hash_length: u32,
    password_len: nat,
    salt_len: nat,
    secret_len: nat,
    ad_len: nat,
) -> bool {
    &&& 1 <= lanes <= 0xFF_FFFF
    &&& 8 <= mem_cost <= 0x20_0000
    &&& mem_cost >= 8 * lanes
    &&& 1 <= time_cost
    &&& 4 <= hash_length
    &&& password_len <= 0xFFFF_FFFF
    &&& 8 <= salt_len <= 0xFFFF_FFFF
    &&& secret_len <= 0xFFFF_FFFF
    &&& ad_len <= 0xFFFF_FFFF
}

/// Relies on argon2::hash_raw of the rust-argon2 crate, called with
/// Variant::Argon2id and Version::Version13: the hash is deterministic in the
/// remaining arguments and hash_length bytes long; the crate's context
/// validation accepts every combination that argon2_params_ok admits and
/// rejects any input whose length exceeds 32 bits or any salt shorter than
/// 8 bytes.
#[verifier::external_body]
fn argon2id_hash(
    time_cost: u32,
    lanes: u32,
    mem_cost: u32,
    hash_length: u32,
    password: &[u8],
    salt: &[u8],
    secret: &[u8],
    ad: &[u8],
) -> (r: Result<Vec<u8>, KeyError>)
    ensures
        argon2_params_ok(
            time_cost,
            lanes,
            mem_cost,
            hash_length,
            password@.len(),
            salt@.len(),
            secret@.len(),
            ad@.len(),
        ) ==> r is Ok,
        password@.len() > 0xFFFF_FFFF || salt@.len() < 8 || salt@.len() > 0xFFFF_FFFF
            || secret@.len() > 0xFFFF_FFFF || ad@.len() > 0xFFFF_FFFF ==> r is Err,
        r matches Ok(h) ==> h@ == argon2id_of(
            time_cost,
            lanes,
            mem_cost,
            hash_length,
            password@,
            salt@,
            secret@,
            ad@,
        ) && h@.len() == hash_length,
        r matches Err(e) ==> e == KeyError::ConfigRejected,
{
    let config = argon2::Config {
        ad,
        hash_length,
        lanes,
        mem_cost,
        secret,
        thread_mode: argon2::ThreadMode::Sequential,
        time_cost,
        variant: argon2::Variant::Argon2id,
        version: argon2::Version::Version13,
    };
    argon2::hash_raw(password, salt, &config).map_err(|_| KeyError::ConfigRejected)
}

/// The fixed domain-separation tag mixed into every derivation, so that the
/// seeds of this scheme collide with no other use of the same password hash.
pub open spec fn domain_tag() -> Seq<char> {
    "holo chaperone web user ed25519 key v1"@
}

/// The seed that derive_seed_from produces for the given context bytes,
/// email and password.
pub open spec fn derived_seed_spec(context: Seq<u8>, email: Seq<char>, password: Seq<char>) -> Seq<u8> {
    argon2id_of(
        2,
        4,
        65536,
        32,
        encode_utf8(password),
        sha512_of(encode_utf8(email)),
        context,
        encode_utf8(domain_tag()),
    )
}

/// Derive a 32-byte seed from application context bytes, an email (salt
/// source only, not a secret) and a password. Deterministic: equal inputs
/// give byte-identical seeds. Both the email and the password may be empty;
/// the derivation fails only when an input is too long for the password
/// hash, which reports itself as a configuration error.
pub fn derive_seed_from(hha_id: &[u8], email: &str, password: &str) -> (r: Result<
    Vec<u8>,
    KeyError,
>)
    ensures
        r is Ok <==> encode_utf8(password@).len() <= 0xFFFF_FFFF && hha_id@.len() <= 0xFFFF_FFFF,
        r matches Ok(seed) ==> seed@ == derived_seed_spec(hha_id@, email@, password@)
            && seed@.len() == 32,
        r matches Err(e) ==> e == KeyError::ConfigRejected,
{
    let salt = sha512_digest(email.as_bytes());
    let tag = "holo chaperone web user ed25519 key v1";
    proof {
        reveal_strlit("holo chaperone web user ed25519 key v1");
        assert(vstd::utf8::is_ascii_chars(domain_tag()));
        vstd::utf8::is_ascii_chars_encode_utf8(domain_tag());
        assert(encode_utf8(domain_tag()).len() == 38);
    }
    argon2id_hash(
        2,
        4,
        65536,
        32,
        password.as_bytes(),
        salt.as_slice(),
        hha_id,
        tag.as_bytes(),
    )
}

/// Law: seed derivation is deterministic. The derived seed is a pure
/// function of (context, email, password), so two derivations from equal
/// inputs yield identical bytes.
pub proof fn lemma_derive_seed_deterministic(
    context1: Seq<u8>,
    email1: Seq<char>,
    password1: Seq<char>,
    context2: Seq<u8>,
    email2: Seq<char>,
    password2: Seq<char>,
)
    requires
        context1 == context2,
        email1 == email2,
        password1 == password2,
    ensures
        derived_seed_spec(context1, email1, password1) == derived_seed_spec(
            context2,
            email2,
            password2,
        ),
{
}

} // verus!
