use chat_server::passwords::{check_password, hash_password};
use chat_server::user::{credentials_valid, registration_hash, UserDBData, UserRegisterRequestData};

#[test]
fn registered_password_logs_in() {
    let data = UserRegisterRequestData { username: "alice".into(), password: "hunter22".into() };
    let hash = registration_hash(&data).unwrap();
    assert!(hash.starts_with("$argon2id$"));
    let user = UserDBData { user_id: 7, username: "alice".into(), hashed_pw: hash };
    assert!(credentials_valid(&user, "hunter22"));
    assert!(!credentials_valid(&user, "hunter23"));
    assert!(!credentials_valid(&user, ""));
}

#[test]
fn malformed_stored_hash_fails_login() {
    let user = UserDBData { user_id: 7, username: "alice".into(), hashed_pw: "plaintext".into() };
    assert!(!credentials_valid(&user, "plaintext"));
    assert_eq!(check_password("plaintext", "plaintext"), None);
}

#[test]
fn hashes_are_salted() {
    let a = hash_password("same").unwrap();
    let b = hash_password("same").unwrap();
    assert_ne!(a, b);
    assert_eq!(check_password(&a, "same"), Some(true));
    assert_eq!(check_password(&b, "same"), Some(true));
}

#[test]
fn new_ids_are_version_4_uuids() {
    for _ in 0..20 {
        let id = chat_server::ids::new_id();
        let u = uuid::Uuid::from_u128(id);
        assert_eq!(u.get_version_num(), 4);
        assert_eq!(u.get_variant(), uuid::Variant::RFC4122);
        assert_eq!((id >> 76) & 0xf, 4);
        assert_eq!((id >> 62) & 0x3, 2);
    }
}

#[test]
fn hashing_succeeds_for_empty_and_long_passwords() {
    assert_eq!(check_password(&hash_password("").unwrap(), ""), Some(true));
    let long = "p".repeat(4096);
    assert_eq!(check_password(&hash_password(&long).unwrap(), &long), Some(true));
}
