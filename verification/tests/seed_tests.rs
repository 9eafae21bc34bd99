use agent_keys::derive_seed_from;

#[test]
fn derive_seed_deterministic() {
    let context = [7u8; 32];
    let first = derive_seed_from(&context, "user@example.com", "hunter2").unwrap();
    let second = derive_seed_from(&context, "user@example.com", "hunter2").unwrap();
    assert_eq!(first, second);
    assert_eq!(first.len(), 32);
}

#[test]
fn derive_seed_email_sensitivity() {
    let context = [0u8; 32];
    let a = derive_seed_from(&context, "a@example.com", "pw").unwrap();
    let b = derive_seed_from(&context, "b@example.com", "pw").unwrap();
    assert_ne!(a, b);
}

#[test]
fn derive_seed_password_sensitivity() {
    let context = [0u8; 32];
    let a = derive_seed_from(&context, "a@example.com", "pw").unwrap();
    let b = derive_seed_from(&context, "a@example.com", "pw2").unwrap();
    assert_ne!(a, b);
}

#[test]
fn derive_seed_context_sensitivity() {
    let context_a = [0u8; 32];
    let mut context_b = [0u8; 32];
    context_b[0] = 1;
    let a = derive_seed_from(&context_a, "a@example.com", "pw").unwrap();
    let b = derive_seed_from(&context_b, "a@example.com", "pw").unwrap();
    assert_ne!(a, b);
}

#[test]
fn derive_seed_empty_email() {
    let context = [3u8; 32];
    let seed = derive_seed_from(&context, "", "pw").unwrap();
    assert_eq!(seed.len(), 32);
}

#[test]
fn derive_seed_empty_password() {
    let context = [3u8; 32];
    let seed = derive_seed_from(&context, "a@example.com", "").unwrap();
    assert_eq!(seed.len(), 32);
}

#[test]
fn derive_seed_known_vector() {
    let context = [0u8; 32];
    let seed = derive_seed_from(&context, "example@holo.host", "password").unwrap();
    let expected: [u8; 32] = [
        44, 164, 142, 37, 82, 142, 250, 139, 95, 209, 221, 73, 26, 58, 159, 69, 115, 131, 36,
        233, 93, 171, 186, 124, 106, 52, 65, 232, 138, 132, 99, 68,
    ];
    assert_eq!(seed, expected.to_vec());
}
