use catas::bootstrap::{
    generate_password, prepare_default_admin, provisioned_password, DEFAULT_ADMIN_USERNAME,
    DEFAULT_PASSWORD_LEN,
};
use catas::password::verify_password;
use catas::role::Roles;

const ALPHABET: &str = "ABCDEFGHIJKLMNOPQRSTUVWXYZabcdefghijklmnopqrstuvwxyz0123456789)(*&%$#@!";

#[test]
fn generated_password_has_length_and_alphabet() {
    assert_eq!(ALPHABET.len(), 71);
    for len in [0usize, 1, 12, 64] {
        let p = generate_password(len);
        assert_eq!(p.chars().count(), len);
        assert!(p.chars().all(|c| ALPHABET.contains(c)), "{}", p);
    }
}

#[test]
fn generated_passwords_differ() {
    assert_ne!(generate_password(32), generate_password(32));
}

#[test]
fn admin_seed_is_the_default_administrator() {
    let seed = prepare_default_admin().unwrap();
    assert_eq!(seed.username, "admin");
    assert_eq!(seed.username, DEFAULT_ADMIN_USERNAME);
    assert_eq!(seed.role, Roles::PriorDelBarril);
    assert_eq!(seed.password.len(), DEFAULT_PASSWORD_LEN);
    assert_eq!(seed.password.len(), 12);
    assert!(seed.password.chars().all(|c| ALPHABET.contains(c)));
    assert_ne!(seed.password_hash, seed.password);
    assert_eq!(verify_password(seed.password.as_bytes(), &seed.password_hash), Ok(true));
}

#[test]
fn password_is_surfaced_only_when_a_row_was_created() {
    let seed = prepare_default_admin().unwrap();
    let pw = seed.password.clone();
    assert_eq!(provisioned_password(seed, 1), Some(pw));
    let seed = prepare_default_admin().unwrap();
    assert_eq!(provisioned_password(seed, 0), None);
}
