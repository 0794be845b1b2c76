use api_switch::auth::{generate_token, hash_password, token_from_seed};

fn is_lower_hex(s: &str) -> bool {
    s.chars().all(|c| c.is_ascii_digit() || ('a'..='f').contains(&c))
}

#[test]
fn hash_of_default_password() {
    assert_eq!(
        hash_password("admin"),
        "336c3dbc4c6ccce96d74b77bb0b33749f09ce960ab16579fbc95d9c9426e21e0"
    );
}

#[test]
fn hash_of_other_password() {
    assert_eq!(
        hash_password("secret"),
        "8ff1eb6c79f3068232a8997eb841237b2433fcb477e2ff3f2d4252c2f3494886"
    );
}

#[test]
fn hash_of_empty_password_is_hash_of_salt() {
    assert_eq!(
        hash_password(""),
        "ea3f03dc8d5b842a8cfe725c8b38b867eadb37d8eb8ef12a59d97d188509cae6"
    );
}

#[test]
fn hash_is_deterministic() {
    assert_eq!(hash_password("p@ss wörd"), hash_password("p@ss wörd"));
    assert_ne!(hash_password("a"), hash_password("b"));
}

#[test]
fn hash_is_64_lower_hex_digits() {
    let h = hash_password("anything");
    assert_eq!(h.len(), 64);
    assert!(is_lower_hex(&h));
}

#[test]
fn token_from_zero_seed_and_zero_time() {
    assert_eq!(
        token_from_seed(&[0u8; 32], 0),
        "2c34ce1df23b838c5abf2a7f6437cca3d3067ed509ff25f11df6b11b582b51eb"
    );
}

#[test]
fn token_from_seed_and_time() {
    let mut seed = [0u8; 32];
    for (i, b) in seed.iter_mut().enumerate() {
        *b = i as u8;
    }
    assert_eq!(
        token_from_seed(&seed, 1700000000123456789),
        "9822b5591301008f2c5addd314a16778747066d8c14f129b07636f669b0e0cc1"
    );
}

#[test]
fn token_from_negative_time_uses_twos_complement() {
    assert_eq!(
        token_from_seed(&[0u8; 32], -1),
        "44877601a9bfc8f71d76dbaee2f6a11d0899b3f5cdaad15978247de80c7d2a44"
    );
}

#[test]
fn generated_tokens_are_hex_and_differ() {
    let a = generate_token();
    let b = generate_token();
    assert_eq!(a.len(), 64);
    assert!(is_lower_hex(&a));
    assert_ne!(a, b);
}
