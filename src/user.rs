use vstd::prelude::*;
use crate::password::{PasswordError, verify_outcome, verify_password};
use crate::role::{Roles, role_for_code};

verus! {

/// A row of the `users` table as the store hands it out, role still raw.
pub struct UserRow {
    pub id: i32,
    pub username: String,
    pub password_hash: String,
    pub role: i32,
    pub created_at: String,
    pub updated_at: String,
}

/// An authenticatable principal whose stored role has been validated.
pub struct User {
    pub id: i32,
    pub username: String,
    pub password_hash: String,
    pub role: Roles,
    pub created_at: String,
    pub updated_at: String,
}

/// Failures of the credential store.
#[derive(Debug, Copy, Clone, PartialEq, Eq, Structural)]
pub enum StoreError {
    /// No connection could be had, or a query failed at the storage layer.
    Unavailable,
    /// The stored role of a row is outside the closed set of roles.
    InvalidRole { role: i32 },
}

/// `u` is `row` with its role read through the role registry.
pub open spec fn decoded_from(u: User, row: UserRow) -> bool {
    &&& role_for_code(row.role as int) == Some(u.role)
    &&& u.id == row.id
    &&& u.username@ == row.username@
    &&& u.password_hash@ == row.password_hash@
    &&& u.created_at@ == row.created_at@
    &&& u.updated_at@ == row.updated_at@
}

impl User {
    /// Reads the user out of the row that a lookup by username found, if any.
    /// No row is absence, not an error; a row whose role is not a valid role
    /// is `InvalidRole`, never a user with a made-up role.
    pub fn fetch_from_db(found: Option<UserRow>) -> (r: Result<Option<User>, StoreError>)
        ensures
            found is None ==> r matches Ok(None),
            found matches Some(row) ==> {
                &&& role_for_code(row.role as int) is None ==> r == Err::<Option<User>, StoreError>(
                    StoreError::InvalidRole { role: row.role },
                )
                &&& role_for_code(row.role as int) is Some ==> (r matches Ok(Some(u)) && decoded_from(
                    u,
                    row,
                ))
            },
    {
        match found {
            None => Ok(None),
            Some(row) => {
                let role_value = row.role;
                match Roles::from_i32(role_value) {
                    None => Err(StoreError::InvalidRole { role: role_value }),
                    Some(role) => Ok(
                        Some(
                            User {
                                id: row.id,
                                username: row.username,
                                password_hash: row.password_hash,
                                role,
                                created_at: row.created_at,
                                updated_at: row.updated_at,
                            },
                        ),
                    ),
                }
            },
        }
    }

    /// Verifies `password` against the user's stored hash.
    pub fn check_password(&self, password: &[u8]) -> (r: Result<bool, PasswordError>)
        ensures
            r == verify_outcome(password@, self.password_hash@),
    {
        verify_password(password, self.password_hash.as_str())
    }
}

} // verus!
