//! HMAC-SHA256 signatures for session cookies, keyed by the server secret.
//!
//! The secret is the value of the `SECRET` setting; where it is not set,
//! nothing is signed and nothing verifies.
use vstd::prelude::*;

use hmac::{Hmac, Mac};
use sha2::Sha256;

use crate::codec::{self, hex_decode_bytes, hex_encode};
use crate::cookie::{self, Cookie, SignedCookie};

verus! {

/// The HMAC-SHA256 tag of `msg` under `key`.
pub uninterp spec fn hmac_sha256(key: Seq<u8>, msg: Seq<u8>) -> Seq<u8>;

/// Computes HMAC-SHA256 (a 32-byte tag) with the `hmac` and `sha2` crates:
/// `Hmac::<Sha256>::new_from_slice` (which accepts a key of any length, so
/// the `unwrap` never fails), `update` with the message, `finalize`.
#[verifier::external_body]
fn hmac_sha256_tag(key: &[u8], msg: &[u8]) -> (res: [u8; 32])
    ensures
        res@ == hmac_sha256(key@, msg@),
{
    let mut mac = Hmac::<Sha256>::new_from_slice(key).unwrap();
    mac.update(msg);
    mac.finalize().into_bytes().into()
}

/// Checks a tag with the `hmac` crate (an HMAC-SHA256 tag is 32 bytes,
/// SHA-256's output size): `new_from_slice`, `update`, then
/// `Mac::verify_slice`, which fails unless the tag has the output length (32
/// bytes) and equals the computed tag byte for byte.
#[verifier::external_body]
fn hmac_sha256_verify(key: &[u8], msg: &[u8], tag: &[u8]) -> (res: bool)
    ensures
        res == (tag@ == hmac_sha256(key@, msg@)),
        res ==> tag@.len() == 32,
{
    let mut mac = Hmac::<Sha256>::new_from_slice(key).unwrap();
    mac.update(msg);
    mac.verify_slice(tag).is_ok()
}

/// The signature text of a cookie: the lowercase hexadecimal HMAC of the
/// UTF-8 bytes of its JSON form.
pub open spec fn cookie_signature(key: Seq<u8>, c: Cookie) -> Seq<char> {
    codec::hex_lower(hmac_sha256(key, vstd::utf8::encode_utf8(cookie::cookie_json(c))))
}

/// The tag that a signature text decodes to; text that is not hexadecimal
/// decodes to nothing.
pub open spec fn decoded_signature(sig: Seq<char>) -> Seq<u8> {
    let t = vstd::utf8::encode_utf8(sig);
    if codec::is_hex_text(t) {
        codec::hex_decode(t)
    } else {
        Seq::empty()
    }
}

/// Whether `sig` is a valid signature text of cookie `c` under `key`.
pub open spec fn cookie_signature_valid(key: Seq<u8>, c: Cookie, sig: Seq<char>) -> bool {
    decoded_signature(sig) == hmac_sha256(key, vstd::utf8::encode_utf8(cookie::cookie_json(c)))
}

/// The signature of a session id: its raw HMAC-SHA256 tag.
pub open spec fn session_signature(key: Seq<u8>, session_id: Seq<u8>) -> Seq<u8> {
    hmac_sha256(key, session_id)
}

/// Whether `sig` is the signature of the session id under `key`.
pub open spec fn session_signature_valid(key: Seq<u8>, session_id: Seq<u8>, sig: Seq<u8>) -> bool {
    sig == hmac_sha256(key, session_id)
}

/// Signs cookies and checks cookie signatures.
pub struct CryptoManager {}

impl CryptoManager {
    /// Signs the JSON form of `cookie` with the secret; `None` when no
    /// secret is set.
    pub fn sign_cookie(secret: Option<&str>, cookie: &Cookie) -> (res: Option<String>)
        ensures
            match secret {
                None => res is None,
                Some(s) => res matches Some(sig) && sig@ == cookie_signature(vstd::utf8::encode_utf8(s@), *cookie),
            },
    {
        match secret {
            None => None,
            Some(s) => {
                let payload = cookie.to_json();
                let tag = hmac_sha256_tag(s.as_bytes(), payload.as_str().as_bytes());
                Some(hex_encode(tag.as_slice()))
            },
        }
    }

    /// Whether the signature text of `signed_cookie` is the signature of its
    /// cookie under the secret. Text that is not hexadecimal counts as an
    /// empty tag, which never matches; without a secret nothing matches.
    pub fn check_cookie(secret: Option<&str>, signed_cookie: &SignedCookie) -> (res: bool)
        ensures
            res == match secret {
                None => false,
                Some(s) => cookie_signature_valid(
                    vstd::utf8::encode_utf8(s@),
                    signed_cookie.cookie,
                    signed_cookie.signiture@,
                ),
            },
            !codec::is_hex_text(vstd::utf8::encode_utf8(signed_cookie.signiture@)) ==> !res,
    {
        match secret {
            None => false,
            Some(s) => {
                let payload = signed_cookie.cookie.to_json();
                let tag = match hex_decode_bytes(signed_cookie.signiture.as_str().as_bytes()) {
                    Ok(v) => v,
                    Err(_) => Vec::new(),
                };
                hmac_sha256_verify(s.as_bytes(), payload.as_str().as_bytes(), tag.as_slice())
            },
        }
    }

    /// Signs a session id with the secret: the raw HMAC-SHA256 tag of its 16
    /// bytes, which login puts into the cookie; `None` when no secret is set.
    pub fn sign(secret: Option<&str>, session_id: &[u8; 16]) -> (res: Option<[u8; 32]>)
        ensures
            match secret {
                None => res is None,
                Some(s) => res matches Some(t) && t@ == session_signature(
                    vstd::utf8::encode_utf8(s@),
                    session_id@,
                ),
            },
    {
        match secret {
            None => None,
            Some(s) => Some(hmac_sha256_tag(s.as_bytes(), session_id.as_slice())),
        }
    }

    /// Whether `signature` is the tag of `session_id` under the secret; the
    /// session middleware refuses a cookie for which it is not.
    pub fn verify(secret: Option<&str>, session_id: &[u8; 16], signature: &[u8; 32]) -> (res: bool)
        ensures
            res == match secret {
                None => false,
                Some(s) => session_signature_valid(
                    vstd::utf8::encode_utf8(s@),
                    session_id@,
                    signature@,
                ),
            },
    {
        match secret {
            None => false,
            Some(s) => hmac_sha256_verify(s.as_bytes(), session_id.as_slice(), signature.as_slice()),
        }
    }
}

/// A cookie signature made with a key is accepted when checked with the
/// same key.
pub proof fn lemma_signed_cookie_checks(key: Seq<u8>, c: Cookie)
    ensures
        cookie_signature_valid(key, c, cookie_signature(key, c)),
{
    codec::lemma_hex_round_trip(hmac_sha256(key, vstd::utf8::encode_utf8(cookie::cookie_json(c))));
}

/// A session-id signature made with a key verifies under that key.
pub proof fn lemma_session_signature_verifies(key: Seq<u8>, session_id: Seq<u8>)
    ensures
        session_signature_valid(key, session_id, session_signature(key, session_id)),
{
}

} // verus!
