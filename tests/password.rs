use catas::password::{hash_password, outcome_of_verdict, verify_password, PasswordError};

#[test]
fn hashed_password_verifies() {
    let h = hash_password(b"cerveza-negra").unwrap();
    assert_ne!(h.as_bytes(), b"cerveza-negra");
    assert!(h.starts_with("$argon2"));
    assert_eq!(verify_password(b"cerveza-negra", &h), Ok(true));
}

#[test]
fn hashing_twice_gives_different_strings() {
    let a = hash_password(b"lupulo").unwrap();
    let b = hash_password(b"lupulo").unwrap();
    assert_ne!(a, b);
}

#[test]
fn other_password_does_not_verify() {
    let h = hash_password(b"malta").unwrap();
    assert_eq!(verify_password(b"malto", &h), Ok(false));
    assert_eq!(verify_password(b"", &h), Ok(false));
}

#[test]
fn empty_password_hashes_and_verifies() {
    let h = hash_password(b"").unwrap();
    assert_eq!(verify_password(b"", &h), Ok(true));
}

#[test]
fn malformed_hash_is_an_error() {
    assert_eq!(verify_password(b"x", "not a hash"), Err(PasswordError::MalformedHash));
    assert_eq!(verify_password(b"x", ""), Err(PasswordError::MalformedHash));
}

#[test]
fn verdicts_map_to_outcomes() {
    assert_eq!(outcome_of_verdict(Some(true)), Ok(true));
    assert_eq!(outcome_of_verdict(Some(false)), Ok(false));
    assert_eq!(outcome_of_verdict(None), Err(PasswordError::MalformedHash));
}
