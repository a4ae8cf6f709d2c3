//! Encryption of text-channel messages at rest with AES-256-GCM.
//!
//! A stored message is `nonce (12 bytes) || ciphertext || tag (16 bytes)`;
//! the key is 32 bytes.
use vstd::prelude::*;

use aes_gcm::aead::{Aead, AeadCore, KeyInit, OsRng};
use aes_gcm::{Aes256Gcm, Key, Nonce};

verus! {

/// Length of an AES-256 key in bytes.
pub const KEY_LEN: usize = 32;

/// Length of an AES-GCM nonce in bytes.
pub const NONCE_LEN: usize = 12;

/// Length of an AES-GCM tag in bytes.
pub const TAG_LEN: usize = 16;

/// The longest plaintext that AES-GCM encrypts (2^36 bytes).
pub const PLAINTEXT_MAX: u64 = 68719476736;

/// The ciphertext and tag that AES-256-GCM gives for `plaintext` under
/// `key` and `nonce`, with no associated data.
pub uninterp spec fn aes256gcm_seal(key: Seq<u8>, nonce: Seq<u8>, plaintext: Seq<u8>) -> Seq<u8>;

#[verifier::external_type_specification]
#[verifier::external_body]
pub struct ExAeadError(aes_gcm::aead::Error);

#[verifier::external_type_specification]
#[verifier::external_body]
pub struct ExIoError(std::io::Error);

/// Encrypts with the `aes-gcm` crate: `Aes256Gcm::new` on the key, then
/// `Aead::encrypt` with the nonce and the plaintext. The crate refuses a
/// plaintext longer than `P_MAX` (2^36 bytes) and otherwise returns the
/// ciphertext followed by the 16-byte tag.
#[verifier::external_body]
fn aes256gcm_encrypt(key: &[u8], nonce: &[u8], plaintext: &[u8]) -> (res: Result<
    Vec<u8>,
    aes_gcm::aead::Error,
>)
    requires
        key@.len() == KEY_LEN,
        nonce@.len() == NONCE_LEN,
    ensures
        res is Ok <==> plaintext@.len() <= PLAINTEXT_MAX,
        res matches Ok(c) ==> c@ == aes256gcm_seal(key@, nonce@, plaintext@) && c@.len()
            == plaintext@.len() + TAG_LEN,
{
    let cipher = Aes256Gcm::new(Key::<Aes256Gcm>::from_slice(key));
    cipher.encrypt(Nonce::from_slice(nonce), plaintext)
}

/// Whether a decryption result is the plaintext of every sealing (of a
/// plaintext that encryption accepts) that equals the ciphertext.
pub open spec fn opens_every_sealing(
    res: Result<Vec<u8>, aes_gcm::aead::Error>,
    key: Seq<u8>,
    nonce: Seq<u8>,
    ciphertext: Seq<u8>,
) -> bool {
    forall|p: Seq<u8>|
        p.len() <= PLAINTEXT_MAX && ciphertext == #[trigger] aes256gcm_seal(key, nonce, p) ==> (
        res matches Ok(q) && q@ == p)
}

/// Decrypts with the `aes-gcm` crate: `Aes256Gcm::new` on the key, then
/// `Aead::decrypt`. Decryption succeeds exactly when the trailing tag is the
/// one the key and nonce give for the ciphertext; the plaintext it returns is
/// then the one whose encryption under this key and nonce is the input. So
/// what `aes256gcm_encrypt` produced decrypts to the plaintext it was given.
/// Nothing is said of a result longer than 2^36 bytes, which encryption
/// refuses.
#[verifier::external_body]
fn aes256gcm_decrypt(key: &[u8], nonce: &[u8], ciphertext: &[u8]) -> (res: Result<
    Vec<u8>,
    aes_gcm::aead::Error,
>)
    requires
        key@.len() == KEY_LEN,
        nonce@.len() == NONCE_LEN,
    ensures
        res matches Ok(p) ==> (p@.len() <= PLAINTEXT_MAX ==> ciphertext@ == aes256gcm_seal(key@, nonce@, p@)),
        opens_every_sealing(res, key@, nonce@, ciphertext@),
{
    let cipher = Aes256Gcm::new(Key::<Aes256Gcm>::from_slice(key));
    cipher.decrypt(Nonce::from_slice(nonce), ciphertext)
}

/// Draws a fresh AES-256 key from the operating system's random number
/// generator (`AeadCore`/`KeyInit::generate_key` with `OsRng`).
#[verifier::external_body]
fn random_key() -> (res: Vec<u8>)
    ensures
        res@.len() == KEY_LEN,
{
    Aes256Gcm::generate_key(&mut OsRng).to_vec()
}

/// Draws a fresh 12-byte nonce from the operating system's random number
/// generator (`AeadCore::generate_nonce` with `OsRng`).
#[verifier::external_body]
fn random_nonce() -> (res: Vec<u8>)
    ensures
        res@.len() == NONCE_LEN,
{
    Aes256Gcm::generate_nonce(&mut OsRng).to_vec()
}

#[derive(Debug)]
pub enum MessageCryptoError {
    Io(std::io::Error),
    Crypto,
    KeyfileSize,
    BlobTooShort,
}

/// The bytes stored for a message: the nonce, then the AES-GCM output.
pub open spec fn sealed_blob(key: Seq<u8>, nonce: Seq<u8>, plaintext: Seq<u8>) -> Seq<u8> {
    nonce + aes256gcm_seal(key, nonce, plaintext)
}

/// Encrypts and decrypts message contents under one 32-byte key.
pub struct MessageCrypto {
    key: Vec<u8>,
}

impl MessageCrypto {
    #[verifier::type_invariant]
    spec fn key_is_well_sized(&self) -> bool {
        self.key@.len() == KEY_LEN
    }

    /// The key.
    pub closed spec fn key(&self) -> Seq<u8> {
        self.key@
    }

    /// A cipher for the key read from a key file: the file must hold exactly
    /// 32 bytes.
    pub fn from_key_bytes(bytes: &[u8]) -> (res: Result<Self, MessageCryptoError>)
        ensures
            bytes@.len() == KEY_LEN <==> res is Ok,
            res matches Ok(m) ==> m.key() == bytes@,
            res matches Err(e) ==> e is KeyfileSize,
    {
        if bytes.len() != KEY_LEN {
            return Err(MessageCryptoError::KeyfileSize);
        }
        let key = copy_bytes(bytes);
        Ok(MessageCrypto { key })
    }

    /// A fresh random key, to be written to the key file when there is none.
    pub fn generate_key() -> (res: Vec<u8>)
        ensures
            res@.len() == KEY_LEN,
    {
        random_key()
    }

    /// Encrypts under a given 12-byte nonce: the output is the nonce followed
    /// by the ciphertext and tag.
    pub fn encrypt_with_nonce(&self, nonce: &[u8], plaintext: &[u8]) -> (res: Result<
        Vec<u8>,
        MessageCryptoError,
    >)
        requires
            nonce@.len() == NONCE_LEN,
        ensures
            res is Ok <==> plaintext@.len() <= PLAINTEXT_MAX,
            res matches Ok(out) ==> out@ == sealed_blob(self.key(), nonce@, plaintext@)
                && out@.len() == NONCE_LEN + plaintext@.len() + TAG_LEN,
            res matches Err(e) ==> e is Crypto,
    {
        proof {
            use_type_invariant(self);
        }
        let ciphertext = match aes256gcm_encrypt(self.key.as_slice(), nonce, plaintext) {
            Ok(c) => c,
            Err(_) => return Err(MessageCryptoError::Crypto),
        };
        let mut out: Vec<u8> = Vec::new();
        let mut i: usize = 0;
        while i < nonce.len()
            invariant
                i <= nonce@.len(),
                out@ == nonce@.subrange(0, i as int),
            decreases nonce@.len() - i,
        {
            out.push(nonce[i]);
            i = i + 1;
        }
        let mut j: usize = 0;
        while j < ciphertext.len()
            invariant
                j <= ciphertext@.len(),
                out@ == nonce@ + ciphertext@.subrange(0, j as int),
            decreases ciphertext@.len() - j,
        {
            out.push(ciphertext[j]);
            j = j + 1;
        }
        assert(ciphertext@.subrange(0, ciphertext@.len() as int) == ciphertext@);
        Ok(out)
    }

    /// Encrypts with a fresh random nonce. The output is that nonce followed
    /// by the encryption of the plaintext under it.
    pub fn encrypt(&self, plaintext: &[u8]) -> (res: Result<Vec<u8>, MessageCryptoError>)
        ensures
            res is Ok <==> plaintext@.len() <= PLAINTEXT_MAX,
            res matches Ok(out) ==> out@.len() == NONCE_LEN + plaintext@.len() + TAG_LEN
                && out@ == sealed_blob(
                self.key(),
                out@.subrange(0, NONCE_LEN as int),
                plaintext@,
            ),
            res matches Err(e) ==> e is Crypto,
    {
        let nonce = random_nonce();
        let res = self.encrypt_with_nonce(nonce.as_slice(), plaintext);
        assert(res matches Ok(out) ==> out@.subrange(0, NONCE_LEN as int) == nonce@);
        res
    }

    /// Decrypts a stored message. A blob shorter than a nonce and a tag is
    /// refused as too short; one whose tag does not check fails; a blob that
    /// `encrypt` produced under this key gives back its plaintext.
    pub fn decrypt(&self, blob: &[u8]) -> (res: Result<Vec<u8>, MessageCryptoError>)
        ensures
            blob@.len() < NONCE_LEN + TAG_LEN <==> res matches Err(
                MessageCryptoError::BlobTooShort,
            ),
            res matches Err(e) ==> e is BlobTooShort || e is Crypto,
            res matches Ok(p) ==> (p@.len() <= PLAINTEXT_MAX ==> blob@ == sealed_blob(
                self.key(),
                blob@.subrange(0, NONCE_LEN as int),
                p@,
            )),
            forall|p: Seq<u8>|
                p.len() <= PLAINTEXT_MAX && blob@.len() >= NONCE_LEN + TAG_LEN && blob@
                    == #[trigger] sealed_blob(self.key(), blob@.subrange(0, NONCE_LEN as int), p)
                    ==> (res matches Ok(q) && q@ == p),
    {
        proof {
            use_type_invariant(self);
        }
        if blob.len() < NONCE_LEN + TAG_LEN {
            return Err(MessageCryptoError::BlobTooShort);
        }
        let nonce = slice_prefix(blob, NONCE_LEN);
        let ciphertext = slice_suffix(blob, NONCE_LEN);
        let res = aes256gcm_decrypt(self.key.as_slice(), nonce.as_slice(), ciphertext.as_slice());
        proof {
            assert(blob@ == nonce@ + ciphertext@);
            assert forall|p: Seq<u8>|
                p.len() <= PLAINTEXT_MAX && blob@ == #[trigger] sealed_blob(
                    self.key(),
                    blob@.subrange(0, NONCE_LEN as int),
                    p,
                ) implies ciphertext@ == aes256gcm_seal(self.key(), nonce@, p) by {
                let s = aes256gcm_seal(self.key(), nonce@, p);
                assert(blob@ == nonce@ + s);
                assert(ciphertext@ =~= blob@.subrange(NONCE_LEN as int, blob@.len() as int));
                assert((nonce@ + s).subrange(NONCE_LEN as int, (nonce@ + s).len() as int) =~= s);
            }
        }
        match res {
            Ok(p) => Ok(p),
            Err(_) => Err(MessageCryptoError::Crypto),
        }
    }
}

impl Clone for MessageCrypto {
    fn clone(&self) -> (res: Self)
        ensures
            res.key() == self.key(),
    {
        proof {
            use_type_invariant(self);
        }
        MessageCrypto { key: copy_bytes(self.key.as_slice()) }
    }
}

/// A copy of the first `n` bytes.
fn slice_prefix(s: &[u8], n: usize) -> (res: Vec<u8>)
    requires
        n <= s@.len(),
    ensures
        res@ == s@.subrange(0, n as int),
{
    let mut out: Vec<u8> = Vec::with_capacity(n);
    let mut i: usize = 0;
    while i < n
        invariant
            i <= n <= s@.len(),
            out@ == s@.subrange(0, i as int),
        decreases n - i,
    {
        out.push(s[i]);
        i = i + 1;
    }
    out
}

/// A copy of the bytes from position `n` on.
fn slice_suffix(s: &[u8], n: usize) -> (res: Vec<u8>)
    requires
        n <= s@.len(),
    ensures
        res@ == s@.subrange(n as int, s@.len() as int),
{
    let mut out: Vec<u8> = Vec::with_capacity(s.len() - n);
    let mut i: usize = n;
    while i < s.len()
        invariant
            n <= i <= s@.len(),
            out@ == s@.subrange(n as int, i as int),
        decreases s@.len() - i,
    {
        out.push(s[i]);
        i = i + 1;
    }
    out
}

/// A copy of all the bytes.
fn copy_bytes(s: &[u8]) -> (res: Vec<u8>)
    ensures
        res@ == s@,
{
    let res = slice_suffix(s, 0);
    assert(s@.subrange(0, s@.len() as int) == s@);
    res
}

} // verus!
