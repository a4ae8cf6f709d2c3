use aes_gcm::aead::{Aead, KeyInit};
use aes_gcm::{Aes256Gcm, Key, Nonce};
use chat_server::message_crypto::{MessageCrypto, MessageCryptoError};

fn key() -> Vec<u8> {
    (0u8..32).collect()
}

#[test]
fn key_file_must_hold_32_bytes() {
    assert!(matches!(MessageCrypto::from_key_bytes(&[0u8; 31]), Err(MessageCryptoError::KeyfileSize)));
    assert!(matches!(MessageCrypto::from_key_bytes(&[0u8; 33]), Err(MessageCryptoError::KeyfileSize)));
    assert!(matches!(MessageCrypto::from_key_bytes(&[]), Err(MessageCryptoError::KeyfileSize)));
    assert!(MessageCrypto::from_key_bytes(&key()).is_ok());
}

#[test]
fn generated_keys_are_32_random_bytes() {
    let a = MessageCrypto::generate_key();
    let b = MessageCrypto::generate_key();
    assert_eq!(a.len(), 32);
    assert_eq!(b.len(), 32);
    assert_ne!(a, b);
    assert!(MessageCrypto::from_key_bytes(&a).is_ok());
}

#[test]
fn encrypt_with_nonce_is_nonce_then_aes_gcm_output() {
    let mc = MessageCrypto::from_key_bytes(&key()).unwrap();
    let nonce = [7u8; 12];
    let out = mc.encrypt_with_nonce(&nonce, b"hello channel").unwrap();
    let cipher = Aes256Gcm::new(Key::<Aes256Gcm>::from_slice(&key()));
    let expected = cipher.encrypt(Nonce::from_slice(&nonce), b"hello channel".as_slice()).unwrap();
    assert_eq!(&out[..12], &nonce);
    assert_eq!(&out[12..], expected.as_slice());
    assert_eq!(out.len(), 12 + 13 + 16);
    assert_ne!(&out[12..25], b"hello channel");
}

#[test]
fn decrypt_gives_back_what_encrypt_sealed() {
    let mc = MessageCrypto::from_key_bytes(&key()).unwrap();
    for msg in [&b""[..], b"a", b"some longer message with \xff bytes \x00 inside"] {
        let blob = mc.encrypt(msg).unwrap();
        assert_eq!(blob.len(), 28 + msg.len());
        assert_eq!(mc.decrypt(&blob).unwrap(), msg.to_vec());
    }
}

#[test]
fn encrypt_draws_a_fresh_nonce_each_time() {
    let mc = MessageCrypto::from_key_bytes(&key()).unwrap();
    let a = mc.encrypt(b"same").unwrap();
    let b = mc.encrypt(b"same").unwrap();
    assert_ne!(&a[..12], &b[..12]);
    assert_eq!(mc.decrypt(&a).unwrap(), b"same".to_vec());
    assert_eq!(mc.decrypt(&b).unwrap(), b"same".to_vec());
}

#[test]
fn decrypt_refuses_short_blobs() {
    let mc = MessageCrypto::from_key_bytes(&key()).unwrap();
    assert!(matches!(mc.decrypt(&[0u8; 27]), Err(MessageCryptoError::BlobTooShort)));
    assert!(matches!(mc.decrypt(&[]), Err(MessageCryptoError::BlobTooShort)));
    assert!(matches!(mc.decrypt(&[0u8; 28]), Err(MessageCryptoError::Crypto)));
}

#[test]
fn decrypt_refuses_tampering_and_wrong_keys() {
    let mc = MessageCrypto::from_key_bytes(&key()).unwrap();
    let mut blob = mc.encrypt(b"secret text").unwrap();
    let other = MessageCrypto::from_key_bytes(&[9u8; 32]).unwrap();
    assert!(matches!(other.decrypt(&blob), Err(MessageCryptoError::Crypto)));
    let last = blob.len() - 1;
    blob[last] ^= 1;
    assert!(matches!(mc.decrypt(&blob), Err(MessageCryptoError::Crypto)));
    blob[last] ^= 1;
    blob[0] ^= 1;
    assert!(matches!(mc.decrypt(&blob), Err(MessageCryptoError::Crypto)));
}

#[test]
fn clones_share_the_key() {
    let mc = MessageCrypto::from_key_bytes(&key()).unwrap();
    let copy = mc.clone();
    let blob = mc.encrypt(b"x").unwrap();
    assert_eq!(copy.decrypt(&blob).unwrap(), b"x".to_vec());
}
