use agent_keys::hcs0::from_hcs0;
use agent_keys::hcs0::identifier_round_trip;
use agent_keys::hcs0::to_hcs0;
use agent_keys::KeyError;
use agent_keys::KeyManager;

fn sample_key() -> [u8; 32] {
    let mut key = [0u8; 32];
    let mut i: usize = 0;
    while i < 32 {
        key[i] = (i as u8).wrapping_mul(11).wrapping_add(5);
        i += 1;
    }
    key
}

#[test]
fn encode_zero_key_vector() {
    let id = to_hcs0(&[0u8; 32]).unwrap();
    assert_eq!(
        id,
        "HcSciaaaaaaaaaaaaaaaaaaaaaaaaaaaaaaaaaaaaaaaaaaaaaaaaaaaaaaaaaa"
    );
}

#[test]
fn codec_roundtrip() {
    let key = sample_key();
    let id = to_hcs0(&key).unwrap();
    assert_eq!(id.len(), 63);
    assert!(id.starts_with("HcS"));
    let back = from_hcs0(&id).unwrap();
    assert_eq!(back, key.to_vec());
    assert_eq!(identifier_round_trip(&key).unwrap(), key.to_vec());
}

#[test]
fn codec_roundtrip_of_derived_public_key() {
    let km = KeyManager::new(&sample_key()).unwrap();
    let public_key = km.public_key();
    let id = to_hcs0(&public_key).unwrap();
    let back = from_hcs0(&id).unwrap();
    assert_eq!(back, public_key);
}

#[test]
fn encode_wrong_length_rejected() {
    assert_eq!(to_hcs0(&[0u8; 31]).err(), Some(KeyError::EncodingFailed));
    assert_eq!(to_hcs0(&[0u8; 33]).err(), Some(KeyError::EncodingFailed));
    assert_eq!(to_hcs0(&[0u8; 0]).err(), Some(KeyError::EncodingFailed));
}

#[test]
fn decode_malformed_rejected() {
    // wrong length
    assert_eq!(from_hcs0("HcSci").err(), Some(KeyError::DecodeFailed));
    assert_eq!(from_hcs0("").err(), Some(KeyError::DecodeFailed));
    // right length, wrong kind prefix
    let id = to_hcs0(&sample_key()).unwrap();
    let mut chars: Vec<char> = id.chars().collect();
    chars[2] = 'K';
    let wrong_kind: String = chars.iter().collect();
    assert_eq!(from_hcs0(&wrong_kind).err(), Some(KeyError::DecodeFailed));
}

#[test]
fn corrupted_identifier_never_wrong_key() {
    // Mutating any single character either fails the decode outright or is
    // repaired from the parity back to the original key; a corrupted
    // identifier is never decoded to different key bytes.
    let key = sample_key();
    let id = to_hcs0(&key).unwrap();
    let chars: Vec<char> = id.chars().collect();
    for position in 0..chars.len() {
        let mut mutated = chars.clone();
        mutated[position] = if chars[position] != 'x' { 'x' } else { 'y' };
        let candidate: String = mutated.iter().collect();
        match from_hcs0(&candidate) {
            Ok(bytes) => assert_eq!(bytes, key.to_vec()),
            Err(e) => assert_eq!(e, KeyError::DecodeFailed),
        }
    }
}
