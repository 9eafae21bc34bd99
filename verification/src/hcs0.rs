//! Self-describing identifier codec for public keys, kind "hcs0".
//!
//! A 32-byte public key is rendered as a 63-character base32 string: a fixed
//! prefix naming the kind, the key bytes, and Reed-Solomon parity appended
//! over the payload, partly carried in the letter casing. Decoding checks
//! length, alphabet, prefix and parity before any bytes are handed back, so
//! a corrupted identifier is either repaired from the parity or rejected,
//! never silently decoded to a different key.

use vstd::prelude::*;

use crate::KeyError;
use hcid::HcidEncoding;

verus! {

/// The identifier string that the "hcs0" codec renders for a 32-byte key,
/// a pure function of the key bytes.
pub uninterp spec fn hcs0_encoding_of(key: Seq<u8>) -> Seq<char>;

/// Whether the "hcs0" codec accepts an identifier string, a pure function of
/// the string: true exactly when length, alphabet, prefix and parity checks
/// all pass (possibly after parity-guided repair).
pub uninterp spec fn hcs0_decodable(identifier: Seq<char>) -> bool;

/// Relies on hcid::HcidEncoding::with_kind("hcs0"), which always succeeds
/// for this kind, and hcid::HcidEncoding::encode: deterministic in the key
/// bytes, 63 characters long, and never failing on 32-byte input.
#[verifier::external_body]
fn hcs0_encode(key: &[u8]) -> (r: String)
    requires
        key@.len() == 32,
    ensures
        r@ == hcs0_encoding_of(key@),
        r@.len() == 63,
{
    let codec = HcidEncoding::with_kind("hcs0").unwrap();
    codec.encode(key).unwrap()
}

/// Relies on hcid::HcidEncoding::with_kind("hcs0") and
/// hcid::HcidEncoding::decode: success depends on the string alone; a
/// successful decode yields the 32 key bytes; and decode inverts encode, so
/// an identifier that encode produced for some key decodes to that key.
#[verifier::external_body]
fn hcs0_decode(identifier: &str) -> (r: Result<Vec<u8>, KeyError>)
    ensures
        r is Ok <==> hcs0_decodable(identifier@),
        r matches Ok(k) ==> k@.len() == 32,
        forall|key: Seq<u8>| key.len() == 32 && identifier@ == hcs0_encoding_of(key) ==> (r is Ok && r->Ok_0@ == key),
        r matches Err(e) ==> e == KeyError::DecodeFailed,
{
    let codec = HcidEncoding::with_kind("hcs0").unwrap();
    codec.decode(identifier).map_err(|_| KeyError::DecodeFailed)
}

/// Encode 32 public-key bytes as an "hcs0" agent identifier. Succeeds
/// exactly on 32-byte input and is deterministic in the key bytes.
pub fn to_hcs0(public_key_bytes: &[u8]) -> (r: Result<String, KeyError>)
    ensures
        r is Ok <==> public_key_bytes@.len() == 32,
        r matches Ok(s) ==> s@ == hcs0_encoding_of(public_key_bytes@) && s@.len() == 63,
        r matches Err(e) ==> e == KeyError::EncodingFailed,
{
    if public_key_bytes.len() != 32 {
        return Err(KeyError::EncodingFailed);
    }
    Ok(hcs0_encode(public_key_bytes))
}

/// Decode an "hcs0" agent identifier back to the 32 public-key bytes it
/// carries. Any string that the codec's integrity checks reject is an error,
/// and an identifier produced by to_hcs0 always decodes to the original key.
pub fn from_hcs0(public_key_hcid: &str) -> (r: Result<Vec<u8>, KeyError>)
    ensures
        r is Ok <==> hcs0_decodable(public_key_hcid@),
        r matches Ok(k) ==> k@.len() == 32,
        forall|key: Seq<u8>| key.len() == 32 && public_key_hcid@ == hcs0_encoding_of(key) ==> (r is Ok && r->Ok_0@ == key),
        r matches Err(e) ==> e == KeyError::DecodeFailed,
{
    hcs0_decode(public_key_hcid)
}

/// Law: the codec round-trips. Encoding any 32-byte key and decoding the
/// resulting identifier yields the original key bytes; the result is proved
/// to be a success carrying exactly those bytes.
pub fn identifier_round_trip(public_key_bytes: &[u8]) -> (r: Result<Vec<u8>, KeyError>)
    requires
        public_key_bytes@.len() == 32,
    ensures
        r is Ok,
        r matches Ok(k) ==> k@ == public_key_bytes@,
{
    let encoded = match to_hcs0(public_key_bytes) {
        Ok(s) => s,
        Err(e) => {
            return Err(e);
        },
    };
    from_hcs0(encoded.as_str())
}

} // verus!
