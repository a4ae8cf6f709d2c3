//! Users: stored records, login and registration requests.
use vstd::prelude::*;

use crate::passwords;

verus! {

/// A user as stored: id, name and Argon2 PHC hash of the password.
#[derive(Debug)]
pub struct UserDBData {
    pub user_id: u128,
    pub username: String,
    pub hashed_pw: String,
}

#[derive(Debug)]
pub struct UserLoginRequestData {
    pub username: String,
    pub password: String,
}

#[derive(Debug)]
pub struct UserRegisterRequestData {
    pub username: String,
    pub password: String,
}

/// The id of the user a connection is authenticated as.
#[derive(Clone, Copy, Debug)]
pub struct UserID(pub u128);

/// Whether a login with `password` succeeds against a stored hash.
pub open spec fn login_accepts(stored: Seq<char>, password: Seq<char>) -> bool {
    passwords::password_check(stored, vstd::utf8::encode_utf8(password)) == Some(true)
}

/// Whether a login with `password` succeeds for the stored user: the stored
/// hash must be a PHC string and accept the password. A stored hash that
/// does not read counts as a failed login, as a wrong password does.
pub fn credentials_valid(user: &UserDBData, password: &str) -> (res: bool)
    ensures
        res == login_accepts(user.hashed_pw@, password@),
{
    match passwords::check_password(user.hashed_pw.as_str(), password) {
        Some(ok) => ok,
        None => false,
    }
}

/// The stored hash for a registration; `None` only for a password longer
/// than `passwords::MAX_PASSWORD_BYTES` bytes, in which case nothing is
/// stored and nothing is answered. A login with the
/// registered password succeeds against the hash.
pub fn registration_hash(data: &UserRegisterRequestData) -> (res: Option<String>)
    ensures
        vstd::utf8::encode_utf8(data.password@).len() <= passwords::MAX_PASSWORD_BYTES ==> res is Some,
        res matches Some(h) ==> login_accepts(h@, data.password@),
{
    passwords::hash_password(data.password.as_str())
}

} // verus!
