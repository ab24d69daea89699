use vstd::prelude::*;
use crate::password::{PasswordError, argon2_verdict, hash_password};
use crate::role::Roles;

verus! {

/// The username of the administrator created on first run.
pub const DEFAULT_ADMIN_USERNAME: &'static str = "admin";

/// The length of a generated password.
pub const DEFAULT_PASSWORD_LEN: usize = 12;

/// The number of characters a generated password draws from.
pub const CHARSET_LEN: usize = 71;

/// The `i`-th character of the password alphabet: upper case letters, lower
/// case letters, digits, then `)(*&%$#@!`.
pub open spec fn charset_byte(i: int) -> u8 {
    if i < 26 {
        (65 + i) as u8
    } else if i < 52 {
        (97 + (i - 26)) as u8
    } else if i < 62 {
        (48 + (i - 52)) as u8
    } else if i == 62 {
        41u8
    } else if i == 63 {
        40u8
    } else if i == 64 {
        42u8
    } else if i == 65 {
        38u8
    } else if i == 66 {
        37u8
    } else if i == 67 {
        36u8
    } else if i == 68 {
        35u8
    } else if i == 69 {
        64u8
    } else {
        33u8
    }
}

/// `b` is a byte of the password alphabet.
pub open spec fn in_charset(b: u8) -> bool {
    exists|i: int| 0 <= i < CHARSET_LEN && #[trigger] charset_byte(i) == b
}

/// `c` belongs to the password alphabet.
pub open spec fn is_password_char(c: char) -> bool {
    exists|i: int| 0 <= i < CHARSET_LEN && #[trigger] charset_byte(i) as char == c
}

/// The bytes of a string of one-byte characters.
pub open spec fn ascii_bytes(s: Seq<char>) -> Seq<u8> {
    s.map_values(|c: char| c as u8)
}

/// Relies on rand::random_range: a value of the thread-local generator within
/// `0..bound`. It panics on an empty range, which `requires` rules out.
#[verifier::external_body]
fn random_below(bound: usize) -> (r: usize)
    requires
        bound > 0,
    ensures
        r < bound,
{
    rand::random_range(0..bound)
}

/// Relies on String::from_utf8: bytes below 128 are valid UTF-8, one
/// character each.
#[verifier::external_body]
fn ascii_string(bytes: Vec<u8>) -> (r: String)
    requires
        forall|i: int| 0 <= i < bytes@.len() ==> bytes@[i] < 128,
    ensures
        r@ == bytes@.map_values(|b: u8| b as char),
{
    String::from_utf8(bytes).unwrap()
}

/// The `i`-th byte of the password alphabet.
fn charset_at(i: usize) -> (r: u8)
    requires
        i < CHARSET_LEN,
    ensures
        r == charset_byte(i as int),
        r < 128,
{
    if i < 26 {
        65 + i as u8
    } else if i < 52 {
        97 + (i - 26) as u8
    } else if i < 62 {
        48 + (i - 52) as u8
    } else if i == 62 {
        41
    } else if i == 63 {
        40
    } else if i == 64 {
        42
    } else if i == 65 {
        38
    } else if i == 66 {
        37
    } else if i == 67 {
        36
    } else if i == 68 {
        35
    } else if i == 69 {
        64
    } else {
        33
    }
}

/// Draws `len` bytes, each one of the password alphabet.
fn draw_password_bytes(len: usize) -> (r: Vec<u8>)
    ensures
        r@.len() == len,
        forall|k: int|
            0 <= k < len ==> in_charset(#[trigger] r@[k]),
        forall|k: int| 0 <= k < len ==> r@[k] < 128,
{
    let mut out: Vec<u8> = Vec::new();
    let mut n: usize = 0;
    while n < len
        invariant
            n <= len,
            out@.len() == n,
            forall|k: int|
                0 <= k < n ==> in_charset(#[trigger] out@[k]),
            forall|k: int| 0 <= k < n ==> out@[k] < 128,
        decreases len - n,
    {
        let idx = random_below(CHARSET_LEN);
        let b = charset_at(idx);
        out.push(b);
        n = n + 1;
    }
    out
}

/// Turns drawn bytes into the password string.
fn password_string(bytes: Vec<u8>) -> (r: String)
    requires
        forall|k: int|
            0 <= k < bytes@.len() ==> in_charset(#[trigger] bytes@[k]),
        forall|k: int| 0 <= k < bytes@.len() ==> bytes@[k] < 128,
    ensures
        r@.len() == bytes@.len(),
        ascii_bytes(r@) == bytes@,
        forall|k: int| 0 <= k < r@.len() ==> is_password_char(#[trigger] r@[k]),
{
    let ghost b = bytes@;
    let r = ascii_string(bytes);
    assert forall|k: int| 0 <= k < r@.len() implies is_password_char(#[trigger] r@[k]) by {
        let i = choose|i: int| 0 <= i < CHARSET_LEN && #[trigger] charset_byte(i) == b[k];
        assert(charset_byte(i) as char == r@[k]);
    }
    assert(ascii_bytes(r@) =~= b);
    r
}

/// A random password of `len` characters, each drawn from the password
/// alphabet.
pub fn generate_password(len: usize) -> (r: String)
    ensures
        r@.len() == len,
        forall|k: int| 0 <= k < len ==> is_password_char(#[trigger] r@[k]),
{
    password_string(draw_password_bytes(len))
}

/// What the first-run procedure inserts: the default administrator with a
/// fresh password and its hash.
pub struct AdminSeed {
    pub username: String,
    pub password: String,
    pub password_hash: String,
    pub role: Roles,
}

impl AdminSeed {
    /// The seed names the default administrator at the highest role, and its
    /// hash verifies its freshly generated password.
    pub open spec fn wf(self) -> bool {
        &&& self.username@ == DEFAULT_ADMIN_USERNAME@
        &&& self.role == Roles::PriorDelBarril
        &&& self.password@.len() == DEFAULT_PASSWORD_LEN
        &&& forall|k: int| 0 <= k < self.password@.len() ==> is_password_char(#[trigger] self.password@[k])
        &&& argon2_verdict(ascii_bytes(self.password@), self.password_hash@) == Some(true)
    }
}

/// Generates the administrator's password and hashes it.
pub fn prepare_default_admin() -> (r: Result<AdminSeed, PasswordError>)
    ensures
        r matches Ok(s) ==> s.wf(),
        r matches Err(e) ==> e == PasswordError::HashingFailure,
{
    let bytes = draw_password_bytes(DEFAULT_PASSWORD_LEN);
    let hashed = hash_password(bytes.as_slice());
    match hashed {
        Err(e) => Err(e),
        Ok(password_hash) => {
            let password = password_string(bytes);
            Ok(
                AdminSeed {
                    username: DEFAULT_ADMIN_USERNAME.to_owned(),
                    password,
                    password_hash,
                    role: Roles::highest(),
                },
            )
        },
    }
}

/// What the procedure surfaces once the insert-if-absent has run: the
/// generated password when the insert created the row, nothing when the
/// administrator was already there.
pub fn provisioned_password(seed: AdminSeed, rows_inserted: usize) -> (r: Option<String>)
    ensures
        rows_inserted > 0 ==> (r matches Some(p) && p@ == seed.password@),
        rows_inserted == 0 ==> r is None,
{
    if rows_inserted > 0 {
        Some(seed.password)
    } else {
        None
    }
}

} // verus!
