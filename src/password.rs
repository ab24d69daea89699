use vstd::prelude::*;
use argon2::{Argon2, PasswordHasher, PasswordVerifier};

verus! {

#[verifier::external_type_specification]
#[verifier::external_body]
pub struct ExHashError(argon2::password_hash::Error);

/// What Argon2, with its default configuration, decides of `password` against
/// the PHC-encoded hash `phc`: `Some(true)` when the recomputed output matches,
/// `Some(false)` when it does not, `None` when the encoded hash cannot be used
/// (it does not parse, or names parameters Argon2 refuses).
pub uninterp spec fn argon2_verdict(password: Seq<u8>, phc: Seq<char>) -> Option<bool>;

/// Failures of the password hasher.
#[derive(Debug, Copy, Clone, PartialEq, Eq, Structural)]
pub enum PasswordError {
    /// Hashing itself failed (password too long, random source failure, ...).
    HashingFailure,
    /// The stored encoded hash is malformed or names unusable parameters.
    MalformedHash,
}

/// Relies on argon2's `PasswordHasher::hash_password` (default Argon2id
/// parameters, fresh random salt) and the PHC rendering of its result. The
/// encoded string carries algorithm, version, parameters and salt, so
/// `PasswordVerifier::verify_password` recomputes the same output from it.
#[verifier::external_body]
fn argon2_hash(password: &[u8]) -> (r: Result<String, argon2::password_hash::Error>)
    ensures
        r matches Ok(h) ==> argon2_verdict(password@, h@) == Some(true),
{
    Argon2::default().hash_password(password).map(|h| h.to_string())
}

/// Relies on argon2's `PasswordVerifier<str>::verify_password`, which parses the
/// PHC string and recomputes the output. `PasswordInvalid` is its answer for a
/// mismatch; every other error concerns the encoded hash.
#[verifier::external_body]
fn argon2_verify(password: &[u8], phc: &str) -> (r: Result<bool, argon2::password_hash::Error>)
    ensures
        r matches Ok(b) ==> argon2_verdict(password@, phc@) == Some(b),
        r is Err ==> argon2_verdict(password@, phc@) is None,
{
    match Argon2::default().verify_password(password, phc) {
        Ok(()) => Ok(true),
        Err(argon2::password_hash::Error::PasswordInvalid) => Ok(false),
        Err(e) => Err(e),
    }
}

/// The outcome of verifying `password` against the encoded hash `phc`.
pub open spec fn verify_outcome(password: Seq<u8>, phc: Seq<char>) -> Result<bool, PasswordError> {
    verdict_outcome(argon2_verdict(password, phc))
}

/// The outcome that a verdict of the hasher stands for.
pub open spec fn verdict_outcome(verdict: Option<bool>) -> Result<bool, PasswordError> {
    match verdict {
        Some(b) => Ok(b),
        None => Err(PasswordError::MalformedHash),
    }
}

/// Turns a verdict of the hasher into an outcome: a malformed hash is an
/// error, never a plain "no".
pub fn outcome_of_verdict(verdict: Option<bool>) -> (r: Result<bool, PasswordError>)
    ensures
        r == verdict_outcome(verdict),
{
    match verdict {
        Some(b) => Ok(b),
        None => Err(PasswordError::MalformedHash),
    }
}

/// Hashes `password` with a fresh random salt into a self-describing PHC
/// string. Two calls on one password give different strings; each of them
/// verifies against the password.
pub fn hash_password(password: &[u8]) -> (r: Result<String, PasswordError>)
    ensures
        r matches Ok(h) ==> verify_outcome(password@, h@) == Ok::<bool, PasswordError>(true),
        r matches Err(e) ==> e == PasswordError::HashingFailure,
{
    match argon2_hash(password) {
        Ok(h) => Ok(h),
        Err(_) => Err(PasswordError::HashingFailure),
    }
}

/// Verifies `password` against the encoded hash `phc`: `Ok(true)` on a match,
/// `Ok(false)` on a mismatch, `Err(MalformedHash)` when `phc` is unusable.
pub fn verify_password(password: &[u8], phc: &str) -> (r: Result<bool, PasswordError>)
    ensures
        r == verify_outcome(password@, phc@),
{
    let verdict = match argon2_verify(password, phc) {
        Ok(b) => Some(b),
        Err(_) => None,
    };
    outcome_of_verdict(verdict)
}

} // verus!
