use catas::password::{hash_password, PasswordError};
use catas::role::Roles;
use catas::user::{StoreError, User, UserRow};

fn row(role: i32, password_hash: &str) -> UserRow {
    UserRow {
        id: 7,
        username: "catador".to_string(),
        password_hash: password_hash.to_string(),
        role,
        created_at: "2024-01-01 10:00:00".to_string(),
        updated_at: "2024-01-02 11:00:00".to_string(),
    }
}

#[test]
fn no_row_is_absence() {
    assert!(matches!(User::fetch_from_db(None), Ok(None)));
}

#[test]
fn valid_row_decodes_every_field() {
    let u = User::fetch_from_db(Some(row(2, "h"))).unwrap().unwrap();
    assert_eq!(u.id, 7);
    assert_eq!(u.username, "catador");
    assert_eq!(u.password_hash, "h");
    assert_eq!(u.role, Roles::Catador);
    assert_eq!(u.created_at, "2024-01-01 10:00:00");
    assert_eq!(u.updated_at, "2024-01-02 11:00:00");
}

#[test]
fn invalid_role_is_an_error() {
    assert!(matches!(
        User::fetch_from_db(Some(row(9, "h"))),
        Err(StoreError::InvalidRole { role: 9 })
    ));
    assert!(matches!(
        User::fetch_from_db(Some(row(0, "h"))),
        Err(StoreError::InvalidRole { role: 0 })
    ));
}

#[test]
fn check_password_uses_the_stored_hash() {
    let h = hash_password(b"secreto").unwrap();
    let u = User::fetch_from_db(Some(row(1, &h))).unwrap().unwrap();
    assert_eq!(u.check_password(b"secreto"), Ok(true));
    assert_eq!(u.check_password(b"otro"), Ok(false));
}

#[test]
fn check_password_on_corrupt_hash_is_an_error() {
    let u = User::fetch_from_db(Some(row(1, "$argon2id$garbage"))).unwrap().unwrap();
    assert_eq!(u.check_password(b"x"), Err(PasswordError::MalformedHash));
}
