use catas::auth::{login, login_with_check, AuthError, Rejection, PLACEHOLDER_TOKEN};
use catas::password::{hash_password, PasswordError};
use catas::role::Roles;
use catas::user::{StoreError, User};

fn user_with_hash(password_hash: String) -> User {
    User {
        id: 1,
        username: "admin".to_string(),
        password_hash,
        role: Roles::PriorDelBarril,
        created_at: String::new(),
        updated_at: String::new(),
    }
}

#[test]
fn login_succeeds_with_the_right_password() {
    let u = user_with_hash(hash_password(b"correcta").unwrap());
    let resp = login(Ok(Some(u)), b"correcta").unwrap();
    assert_eq!(resp.token, "dummy_token");
    assert_eq!(resp.token, PLACEHOLDER_TOKEN);
}

#[test]
fn wrong_password_and_unknown_user_look_alike() {
    let u = user_with_hash(hash_password(b"correcta").unwrap());
    let bad = login(Ok(Some(u)), b"wrong").err().unwrap();
    let ghost = login(Ok(None), b"anything").err().unwrap();
    assert_eq!(bad, AuthError::BadPassword);
    assert_eq!(ghost, AuthError::NotFound);
    assert_eq!(bad.rejection(), Rejection::Unauthorized);
    assert_eq!(bad.rejection(), ghost.rejection());
    assert_eq!(bad.rejection().status_code(), 401);
    assert_eq!(ghost.rejection().status_code(), 401);
    assert!(!bad.is_integrity_failure());
    assert!(!ghost.is_integrity_failure());
}

#[test]
fn store_failures_are_internal() {
    let e = login(Err(StoreError::Unavailable), b"x").err().unwrap();
    assert_eq!(e, AuthError::StoreUnavailable);
    assert_eq!(e.rejection(), Rejection::Internal);
    assert_eq!(e.rejection().status_code(), 500);
    let e = login(Err(StoreError::InvalidRole { role: 9 }), b"x").err().unwrap();
    assert_eq!(e, AuthError::CorruptRecord);
    assert!(e.is_integrity_failure());
}

#[test]
fn corrupt_hash_is_not_a_bad_password() {
    let u = user_with_hash("garbage".to_string());
    let e = login(Ok(Some(u)), b"x").err().unwrap();
    assert_eq!(e, AuthError::CorruptRecord);
    assert_eq!(e.rejection(), Rejection::Internal);
}

#[test]
fn check_results_map_to_outcomes() {
    assert_eq!(login_with_check(Ok(true)).unwrap().token, "dummy_token");
    assert_eq!(login_with_check(Ok(false)).err(), Some(AuthError::BadPassword));
    assert_eq!(
        login_with_check(Err(PasswordError::MalformedHash)).err(),
        Some(AuthError::CorruptRecord)
    );
    assert_eq!(
        login_with_check(Err(PasswordError::HashingFailure)).err(),
        Some(AuthError::HashingFailure)
    );
    assert_eq!(AuthError::HashingFailure.rejection(), Rejection::Internal);
}
