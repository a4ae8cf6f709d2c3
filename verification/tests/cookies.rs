use hmac::{Hmac, Mac};
use chat_server::cookie::{Cookie, SignedCookie};
use chat_server::crypto_manager::CryptoManager;

fn sample_cookie() -> Cookie {
    let mut id = [0u8; 16];
    for (i, b) in id.iter_mut().enumerate() {
        *b = (i * 17) as u8;
    }
    let mut sig = [0u8; 32];
    for (i, b) in sig.iter_mut().enumerate() {
        *b = 255 - i as u8;
    }
    Cookie::new(id, sig)
}

#[test]
fn cookie_json_matches_serde_json() {
    let c = sample_cookie();
    let mut map = serde_json::Map::new();
    map.insert(
        "session_id".to_string(),
        serde_json::Value::Array(c.session_id.iter().map(|b| serde_json::Value::from(*b)).collect()),
    );
    map.insert(
        "signature".to_string(),
        serde_json::Value::Array(c.signature.iter().map(|b| serde_json::Value::from(*b)).collect()),
    );
    let expected = serde_json::to_string(&serde_json::Value::Object(map)).unwrap();
    assert_eq!(c.to_json(), expected);
}

#[test]
fn cookie_json_exact_text() {
    let c = Cookie::new([0u8; 16], [7u8; 32]);
    let zeros = vec!["0"; 16].join(",");
    let sevens = vec!["7"; 32].join(",");
    assert_eq!(
        c.to_json(),
        format!("{{\"session_id\":[{}],\"signature\":[{}]}}", zeros, sevens)
    );
}

#[test]
fn sign_cookie_without_secret_is_none() {
    assert!(CryptoManager::sign_cookie(None, &sample_cookie()).is_none());
}

#[test]
fn sign_cookie_is_lowercase_hex_of_hmac() {
    let c = sample_cookie();
    let sig = CryptoManager::sign_cookie(Some("topsecret"), &c).unwrap();
    let mut mac = Hmac::<sha2::Sha256>::new_from_slice(b"topsecret").unwrap();
    mac.update(c.to_json().as_bytes());
    let expected = hex::encode(mac.finalize().into_bytes());
    assert_eq!(sig, expected);
    assert_eq!(sig.len(), 64);
    assert!(sig.chars().all(|ch| ch.is_ascii_digit() || ('a'..='f').contains(&ch)));
}

#[test]
fn signed_cookie_checks_with_same_secret() {
    let c = sample_cookie();
    let sig = CryptoManager::sign_cookie(Some("s3cr3t"), &c).unwrap();
    let signed = SignedCookie { cookie: c, signiture: sig };
    assert!(CryptoManager::check_cookie(Some("s3cr3t"), &signed));
    assert!(!CryptoManager::check_cookie(Some("other"), &signed));
    assert!(!CryptoManager::check_cookie(None, &signed));
}

#[test]
fn check_cookie_accepts_uppercase_hex() {
    let c = sample_cookie();
    let sig = CryptoManager::sign_cookie(Some("k"), &c).unwrap().to_uppercase();
    let signed = SignedCookie { cookie: c, signiture: sig };
    assert!(CryptoManager::check_cookie(Some("k"), &signed));
}

#[test]
fn check_cookie_rejects_tampered_and_garbage() {
    let c = sample_cookie();
    let sig = CryptoManager::sign_cookie(Some("k"), &c).unwrap();
    let mut tampered = sample_cookie();
    tampered.session_id[0] ^= 1;
    assert!(!CryptoManager::check_cookie(Some("k"), &SignedCookie { cookie: tampered, signiture: sig.clone() }));
    assert!(!CryptoManager::check_cookie(Some("k"), &SignedCookie { cookie: sample_cookie(), signiture: "zz".to_string() }));
    assert!(!CryptoManager::check_cookie(Some("k"), &SignedCookie { cookie: sample_cookie(), signiture: String::new() }));
    assert!(!CryptoManager::check_cookie(Some("k"), &SignedCookie { cookie: sample_cookie(), signiture: sig[..62].to_string() }));
}

#[test]
fn session_signature_round_trip() {
    let id = [9u8; 16];
    let tag = CryptoManager::sign(Some("secret"), &id).unwrap();
    assert!(CryptoManager::verify(Some("secret"), &id, &tag));
    assert!(!CryptoManager::verify(Some("secret2"), &id, &tag));
    assert!(!CryptoManager::verify(None, &id, &tag));
    assert!(CryptoManager::sign(None, &id).is_none());
    let mut bad = tag;
    bad[31] ^= 0x80;
    assert!(!CryptoManager::verify(Some("secret"), &id, &bad));
}
