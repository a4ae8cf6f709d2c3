//! Password hashing with Argon2 (the `argon2` crate's default parameters),
//! stored as PHC strings.
use vstd::prelude::*;

use argon2::password_hash::rand_core::{OsRng, RngCore};
use argon2::password_hash::{PasswordHash, PasswordHasher, PasswordVerifier, SaltString};
use argon2::Argon2;

verus! {

/// Whether `PasswordHash::new` reads the text as a PHC string.
pub uninterp spec fn phc_parses(stored: Seq<char>) -> bool;

/// Whether `Argon2::default().verify_password` accepts the password for the
/// PHC string.
pub uninterp spec fn argon2_accepts(stored: Seq<char>, password: Seq<u8>) -> bool;

#[verifier::external_type_specification]
#[verifier::external_body]
pub struct ExPasswordHashError(argon2::password_hash::Error);

/// Reads the stored PHC string with `PasswordHash::new` (failing with its
/// error when it is not one), then checks the password against it with
/// `Argon2::default().verify_password`; any verification error counts as a
/// wrong password.
#[verifier::external_body]
fn argon2_check(stored: &str, password: &[u8]) -> (res: Result<bool, argon2::password_hash::Error>)
    ensures
        res is Ok <==> phc_parses(stored@),
        res matches Ok(b) ==> b == argon2_accepts(stored@, password@),
{
    let parsed = PasswordHash::new(stored)?;
    Ok(Argon2::default().verify_password(password, &parsed).is_ok())
}

/// The longest password Argon2 hashes, in bytes (`argon2::MAX_PWD_LEN`).
pub const MAX_PASSWORD_BYTES: u64 = 0xFFFF_FFFF;

/// Draws the 16 random salt bytes that `SaltString::generate` draws, from
/// the operating system's random number generator (`RngCore::fill_bytes`
/// on `OsRng`).
#[verifier::external_body]
fn random_salt() -> [u8; 16] {
    let mut bytes = [0u8; 16];
    OsRng.fill_bytes(&mut bytes);
    bytes
}

/// Hashes the password with `Argon2::default().hash_password` and the salt
/// (given to it B64-encoded with `SaltString::encode_b64`, as
/// `SaltString::generate` does), and writes the hash as its PHC string.
/// With the default parameters and a 16-byte salt, hashing fails only for a
/// password longer than `argon2::MAX_PWD_LEN` bytes. A PHC string so
/// written reads back with `PasswordHash::new`, and the same
/// `Argon2::default()` accepts the password for it.
#[verifier::external_body]
fn argon2_hash(password: &[u8], salt: &[u8; 16]) -> (res: Result<
    String,
    argon2::password_hash::Error,
>)
    ensures
        password@.len() <= MAX_PASSWORD_BYTES ==> res is Ok,
        res matches Ok(h) ==> phc_parses(h@) && argon2_accepts(h@, password@),
{
    let salt = SaltString::encode_b64(salt)?;
    Argon2::default().hash_password(password, &salt).map(|h| h.to_string())
}

/// The outcome of checking a password against a stored hash: nothing when
/// the stored text is not a PHC string, else whether the password matches.
pub open spec fn password_check(stored: Seq<char>, password: Seq<u8>) -> Option<bool> {
    if phc_parses(stored) {
        Some(argon2_accepts(stored, password))
    } else {
        None
    }
}

/// Hashes a password with a fresh random salt. Hashing succeeds for every
/// password of at most `MAX_PASSWORD_BYTES` bytes; the hash accepts the
/// password.
pub fn hash_password(password: &str) -> (res: Option<String>)
    ensures
        vstd::utf8::encode_utf8(password@).len() <= MAX_PASSWORD_BYTES ==> res is Some,
        res matches Some(h) ==> password_check(h@, vstd::utf8::encode_utf8(password@)) == Some(true),
{
    let salt = random_salt();
    match argon2_hash(password.as_bytes(), &salt) {
        Ok(h) => Some(h),
        Err(_) => None,
    }
}

/// Checks a password against a stored PHC string: `None` when the stored
/// text is not a PHC string, else whether the password matches.
pub fn check_password(stored: &str, password: &str) -> (res: Option<bool>)
    ensures
        res == password_check(stored@, vstd::utf8::encode_utf8(password@)),
{
    match argon2_check(stored, password.as_bytes()) {
        Ok(b) => Some(b),
        Err(_) => None,
    }
}

} // verus!
