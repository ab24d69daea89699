//! Credential verification and role bootstrap for the tasting service.
//!
//! The library holds the logic of the service: the closed set of roles,
//! password hashing and verification, decoding of stored user rows, the
//! first-run administrator provisioning decisions, and the login and health
//! outcomes. Store access, HTTP and logging are the caller's business.
pub mod role;
pub mod password;
pub mod user;
pub mod schema;
pub mod bootstrap;
pub mod auth;
pub mod health;
