use vstd::prelude::*;

verus! {

/// Creates the `users` table when absent; the role column is checked against
/// the closed set of role codes.
pub const CREATE_USERS_TABLE: &'static str = "CREATE TABLE IF NOT EXISTS users (
            id INTEGER PRIMARY KEY AUTOINCREMENT,
            username TEXT NOT NULL UNIQUE,
            password_hash TEXT NOT NULL,
            role INTEGER NOT NULL
                CHECK (role IN (1, 2, 3, 4, 5, 6)),
            created_at DATETIME DEFAULT CURRENT_TIMESTAMP,
            updated_at DATETIME DEFAULT CURRENT_TIMESTAMP
        )";

/// Creates, when absent, the trigger that refreshes `updated_at` on every
/// update of a row.
pub const CREATE_UPDATED_AT_TRIGGER: &'static str = "CREATE TRIGGER IF NOT EXISTS update_users_timestamp
         AFTER UPDATE ON users
         BEGIN
             UPDATE users SET updated_at = CURRENT_TIMESTAMP
             WHERE id = NEW.id;
         END";

/// Inserts a user unless one with the same username exists; parameters are
/// username, password hash and role code.
pub const INSERT_USER_IF_ABSENT: &'static str =
    "INSERT OR IGNORE INTO users (username, password_hash, role) VALUES (?1, ?2, ?3)";

/// Reads the row of one user by exact username; the columns come in the
/// order of the fields of `UserRow`.
pub const SELECT_USER_BY_USERNAME: &'static str = "SELECT id, username, password_hash, role, created_at, updated_at
             FROM users WHERE username = ?1";

/// The trivial round trip of the health check; it answers 1.
pub const HEALTH_QUERY: &'static str = "SELECT 1";

} // verus!
