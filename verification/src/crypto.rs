//! Key derivation and authenticated encryption of the vault contents.
//!
//! Argon2 (default parameters) derives a 256-bit key from the master password
//! and a salt; AES-256-GCM seals the vault contents under that key.
use aes_gcm::aead::{Aead, KeyInit};
use aes_gcm::{Aes256Gcm, Nonce};
use argon2::Argon2;
use rand::rngs::OsRng;
use rand::RngCore;
use vstd::prelude::*;

verus! {

/// Length in bytes of a vault salt.
pub const SALT_LEN: usize = 16;

/// Length in bytes of a vault key.
pub const KEY_LEN: usize = 32;

/// Length in bytes of an AES-GCM nonce.
pub const NONCE_LEN: usize = 12;

/// Length in bytes of the AES-GCM authentication tag appended to a ciphertext.
pub const TAG_LEN: usize = 16;

/// Longest plaintext that AES-GCM accepts, in bytes (2^36).
pub const MAX_PLAINTEXT_LEN: u64 = 0x10_0000_0000;

/// Longest password and salt that Argon2 accepts, in bytes.
pub const ARGON2_MAX_INPUT_LEN: usize = 0xFFFF_FFFF;

/// Shortest salt that Argon2 accepts, in bytes.
pub const ARGON2_MIN_SALT_LEN: usize = 8;

#[verifier::external_type_specification]
#[verifier::external_body]
pub struct ExArgon2Error(argon2::Error);

#[verifier::external_type_specification]
#[verifier::external_body]
pub struct ExAeadError(aes_gcm::Error);

/// The 32-byte key that Argon2id (version 0x13, default parameters) derives
/// from `password` and `salt`.
pub uninterp spec fn argon2_default_key(password: Seq<u8>, salt: Seq<u8>) -> Seq<u8>;

/// The AES-256-GCM ciphertext (with its tag appended) of `plaintext` under
/// `key` and `nonce`, with no associated data.
pub uninterp spec fn aes256gcm_seal(key: Seq<u8>, nonce: Seq<u8>, plaintext: Seq<u8>) -> Seq<u8>;

/// The outcome of AES-256-GCM decryption of `ciphertext` under `key` and
/// `nonce`, with no associated data: the plaintext, or `None` where the tag
/// does not authenticate.
pub uninterp spec fn aes256gcm_open(key: Seq<u8>, nonce: Seq<u8>, ciphertext: Seq<u8>) -> Option<Seq<u8>>;

/// Whether Argon2 accepts a password and salt of these lengths.
pub open spec fn argon2_accepts(password: Seq<u8>, salt: Seq<u8>) -> bool {
    &&& password.len() <= ARGON2_MAX_INPUT_LEN
    &&& ARGON2_MIN_SALT_LEN <= salt.len() <= ARGON2_MAX_INPUT_LEN
}

/// Fills `buf` from the operating system's random source (`OsRng::fill_bytes`
/// of `rand_core`). Nothing is claimed of the bytes, which depend on chance;
/// `fill_bytes` panics only where the operating system source fails.
#[verifier::external_body]
fn os_fill_bytes<const N: usize>(buf: &mut [u8; N]) {
    OsRng.fill_bytes(buf);
}

/// `Argon2::default().hash_password_into(password, salt, out)` of `argon2`.
/// Claims that on lengths Argon2 accepts (the only checks that the source
/// makes before hashing, with the default 32-byte output) the call succeeds
/// and writes the derived key into `out`.
#[verifier::external_body]
fn argon2_hash_into(password: &[u8], salt: &[u8], out: &mut [u8; 32]) -> (r: Result<(), argon2::Error>)
    requires
        argon2_accepts(password@, salt@),
    ensures
        r is Ok,
        final(out)@ == argon2_default_key(password@, salt@),
{
    Argon2::default().hash_password_into(password, salt, out)
}

/// `Aes256Gcm::new(key).encrypt(nonce, plaintext)` of `aes-gcm`. Claims that
/// on plaintexts no longer than `P_MAX` (the only check that the source makes)
/// the call succeeds, that the result is the named ciphertext, that it is the
/// plaintext's length plus the 16-byte tag, and that decryption under the
/// same key and nonce gives the plaintext back.
#[verifier::external_body]
fn aes256gcm_encrypt_call(key: &[u8; 32], nonce: &[u8; 12], plaintext: &[u8]) -> (r: Result<Vec<u8>, aes_gcm::Error>)
    requires
        plaintext@.len() <= MAX_PLAINTEXT_LEN,
    ensures
        r is Ok,
        r matches Ok(ct) ==> {
            &&& ct@ == aes256gcm_seal(key@, nonce@, plaintext@)
            &&& ct@.len() == plaintext@.len() + TAG_LEN
            &&& aes256gcm_open(key@, nonce@, ct@) == Some(plaintext@)
        },
{
    Aes256Gcm::new(key.into()).encrypt(Nonce::from_slice(nonce), plaintext)
}

/// `Aes256Gcm::new(key).decrypt(nonce, ciphertext)` of `aes-gcm`. Claims that
/// the outcome is the named decryption: `Ok` with the plaintext exactly where
/// it is `Some`.
#[verifier::external_body]
fn aes256gcm_decrypt_call(key: &[u8; 32], nonce: &[u8; 12], ciphertext: &[u8]) -> (r: Result<Vec<u8>, aes_gcm::Error>)
    ensures
        r is Ok <==> aes256gcm_open(key@, nonce@, ciphertext@) is Some,
        r matches Ok(pt) ==> aes256gcm_open(key@, nonce@, ciphertext@) == Some(pt@),
{
    Aes256Gcm::new(key.into()).decrypt(Nonce::from_slice(nonce), ciphertext)
}

/// A fresh random salt.
pub fn generate_salt() -> (salt: [u8; 16])
    ensures
        salt@.len() == SALT_LEN,
{
    let mut salt = [0u8; 16];
    os_fill_bytes(&mut salt);
    salt
}

/// The key that Argon2 derives from `password` and `salt`.
pub fn derive_key(password: &[u8], salt: &[u8]) -> (key: [u8; 32])
    requires
        argon2_accepts(password@, salt@),
    ensures
        key@ == argon2_default_key(password@, salt@),
{
    let mut key = [0u8; 32];
    let outcome = argon2_hash_into(password, salt, &mut key);
    match outcome {
        Ok(()) => key,
        Err(_) => key,
    }
}

/// Encrypts `plaintext` under `key` with a fresh random nonce; returns the
/// nonce and the ciphertext.
pub fn encrypt(key: &[u8; 32], plaintext: &[u8]) -> (sealed: ([u8; 12], Vec<u8>))
    requires
        plaintext@.len() <= MAX_PLAINTEXT_LEN,
    ensures
        sealed.1@ == aes256gcm_seal(key@, sealed.0@, plaintext@),
        sealed.1@.len() == plaintext@.len() + TAG_LEN,
        aes256gcm_open(key@, sealed.0@, sealed.1@) == Some(plaintext@),
{
    let mut nonce = [0u8; 12];
    os_fill_bytes(&mut nonce);
    let outcome = aes256gcm_encrypt_call(key, &nonce, plaintext);
    match outcome {
        Ok(ciphertext) => (nonce, ciphertext),
        Err(_) => (nonce, Vec::new()),
    }
}

/// Decrypts `ciphertext` under `key` and `nonce`; fails where the
/// authentication tag does not match.
pub fn decrypt(key: &[u8; 32], nonce: &[u8; 12], ciphertext: &[u8]) -> (r: Result<Vec<u8>, aes_gcm::Error>)
    ensures
        r is Ok <==> aes256gcm_open(key@, nonce@, ciphertext@) is Some,
        r matches Ok(pt) ==> aes256gcm_open(key@, nonce@, ciphertext@) == Some(pt@),
{
    aes256gcm_decrypt_call(key, nonce, ciphertext)
}

} // verus!
