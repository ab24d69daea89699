use vstd::prelude::*;
use crate::bootstrap::{AdminSeed, ascii_bytes};
use crate::password::{PasswordError, argon2_verdict, verify_outcome};
use crate::user::{StoreError, User};

verus! {

/// The credentials a client submits.
pub struct LoginRequest {
    pub username: String,
    pub password: String,
}

/// What a successful login hands back.
pub struct LoginResponse {
    pub token: String,
}

/// The session artifact of a successful login: a fixed placeholder, as no
/// token issuance exists.
pub const PLACEHOLDER_TOKEN: &'static str = "dummy_token";

/// Why a login did not succeed.
#[derive(Debug, Copy, Clone, PartialEq, Eq, Structural)]
pub enum AuthError {
    /// No user has the given username.
    NotFound,
    /// The user exists and the password does not verify.
    BadPassword,
    /// The stored role or the stored hash is invalid.
    CorruptRecord,
    /// The store could not be reached or failed.
    StoreUnavailable,
    /// The hasher itself failed.
    HashingFailure,
}

/// What the caller of a login learns: authentication failures all look the
/// same, every other failure is a generic internal error.
#[derive(Debug, Copy, Clone, PartialEq, Eq, Structural)]
pub enum Rejection {
    Unauthorized,
    Internal,
}

impl AuthError {
    pub open spec fn spec_rejection(self) -> Rejection {
        match self {
            AuthError::NotFound | AuthError::BadPassword => Rejection::Unauthorized,
            _ => Rejection::Internal,
        }
    }

    /// The outcome the caller sees; it does not tell an unknown user from a
    /// wrong password.
    pub fn rejection(&self) -> (r: Rejection)
        ensures
            r == self.spec_rejection(),
    {
        match self {
            AuthError::NotFound | AuthError::BadPassword => Rejection::Unauthorized,
            _ => Rejection::Internal,
        }
    }

    /// Authentication failures are expected control flow; the others are
    /// logged as errors.
    pub fn is_integrity_failure(&self) -> (r: bool)
        ensures
            r == (self.spec_rejection() == Rejection::Internal),
    {
        match self {
            AuthError::NotFound | AuthError::BadPassword => false,
            _ => true,
        }
    }
}

impl Rejection {
    pub open spec fn spec_status_code(self) -> u16 {
        match self {
            Rejection::Unauthorized => 401,
            Rejection::Internal => 500,
        }
    }

    /// The HTTP status that stands for the rejection.
    pub fn status_code(&self) -> (r: u16)
        ensures
            r == self.spec_status_code(),
    {
        match self {
            Rejection::Unauthorized => 401,
            Rejection::Internal => 500,
        }
    }
}

/// The error a store failure becomes during a login.
pub open spec fn store_failure(e: StoreError) -> AuthError {
    match e {
        StoreError::Unavailable => AuthError::StoreUnavailable,
        StoreError::InvalidRole { .. } => AuthError::CorruptRecord,
    }
}

/// The outcome of a login once the user's password has been checked.
pub open spec fn checked_outcome(check: Result<bool, PasswordError>) -> Result<(), AuthError> {
    match check {
        Ok(true) => Ok(()),
        Ok(false) => Err(AuthError::BadPassword),
        Err(PasswordError::MalformedHash) => Err(AuthError::CorruptRecord),
        Err(PasswordError::HashingFailure) => Err(AuthError::HashingFailure),
    }
}

/// The outcome of a login with `password`, given what the lookup of the
/// username returned.
pub open spec fn login_outcome(found: Result<Option<User>, StoreError>, password: Seq<u8>) -> Result<
    (),
    AuthError,
> {
    match found {
        Err(e) => Err(store_failure(e)),
        Ok(None) => Err(AuthError::NotFound),
        Ok(Some(u)) => checked_outcome(verify_outcome(password, u.password_hash@)),
    }
}

/// `r` is the response of a successful login exactly when `outcome` is
/// success, and carries its error otherwise.
pub open spec fn answers(r: Result<LoginResponse, AuthError>, outcome: Result<(), AuthError>) -> bool {
    match r {
        Ok(resp) => outcome is Ok && resp.token@ == PLACEHOLDER_TOKEN@,
        Err(e) => outcome == Err::<(), AuthError>(e),
    }
}

/// Finishes a login from the result of checking the user's password.
pub fn login_with_check(check: Result<bool, PasswordError>) -> (r: Result<LoginResponse, AuthError>)
    ensures
        answers(r, checked_outcome(check)),
{
    match check {
        Ok(true) => Ok(LoginResponse { token: PLACEHOLDER_TOKEN.to_owned() }),
        Ok(false) => Err(AuthError::BadPassword),
        Err(PasswordError::MalformedHash) => Err(AuthError::CorruptRecord),
        Err(PasswordError::HashingFailure) => Err(AuthError::HashingFailure),
    }
}

/// Logs in with `password`, given what the lookup of the username returned.
/// No login attempt changes any stored state.
pub fn login(found: Result<Option<User>, StoreError>, password: &[u8]) -> (r: Result<
    LoginResponse,
    AuthError,
>)
    ensures
        answers(r, login_outcome(found, password@)),
{
    match found {
        Err(StoreError::Unavailable) => Err(AuthError::StoreUnavailable),
        Err(StoreError::InvalidRole { .. }) => Err(AuthError::CorruptRecord),
        Ok(None) => Err(AuthError::NotFound),
        Ok(Some(u)) => login_with_check(u.check_password(password)),
    }
}

/// An unknown username and a wrong password give the caller the same
/// outcome and the same status.
pub proof fn lemma_unauthorized_uniform()
    ensures
        AuthError::NotFound.spec_rejection() == AuthError::BadPassword.spec_rejection(),
        AuthError::NotFound.spec_rejection().spec_status_code()
            == AuthError::BadPassword.spec_rejection().spec_status_code(),
        AuthError::NotFound.spec_rejection() == Rejection::Unauthorized,
{
}

/// After first-run provisioning, the stored administrator `admin` (whose hash
/// is the seed's) logs in with the generated password; a password that does
/// not verify, and a username that is not stored, are both rejected as
/// unauthorized, alike.
pub proof fn lemma_login_after_bootstrap(
    seed: AdminSeed,
    admin: User,
    wrong: Seq<u8>,
    anything: Seq<u8>,
)
    requires
        seed.wf(),
        admin.password_hash@ == seed.password_hash@,
        argon2_verdict(wrong, seed.password_hash@) == Some(false),
    ensures
        login_outcome(Ok(Some(admin)), ascii_bytes(seed.password@)) is Ok,
        login_outcome(Ok(Some(admin)), wrong) == Err::<(), AuthError>(AuthError::BadPassword),
        login_outcome(Ok(None), anything) == Err::<(), AuthError>(AuthError::NotFound),
        AuthError::BadPassword.spec_rejection() == AuthError::NotFound.spec_rejection(),
{
}

} // verus!
