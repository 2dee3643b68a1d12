//! AES-256-GCM encryption of disk clusters through the `aes-gcm` crate. Each
//! cluster gets its own random 96-bit nonce, stored beside the ciphertext.
use vstd::prelude::*;
use aes_gcm::aead::{Aead, AeadCore, KeyInit};
use crate::storage::StorageError;
use crate::util::text::push_str;

verus! {

/// A 256-bit AES-GCM key.
#[derive(Clone)]
pub struct EncryptionKey(pub [u8; 32]);

/// The nonce stored with each encrypted cluster.
#[derive(Debug, Clone, Copy)]
pub struct ClusterNonce(pub [u8; 12]);

/// AES-256-GCM sealing of `plaintext` under `key` and `nonce` (ciphertext
/// followed by the tag), as the `aes-gcm` crate computes it.
pub uninterp spec fn gcm_seal(key: Seq<u8>, nonce: Seq<u8>, plaintext: Seq<u8>) -> Seq<u8>;

/// Calls `Aes256Gcm::generate_key(OsRng)`: 32 random bytes. Nothing is
/// claimed of them.
#[verifier::external_body]
fn random_key() -> [u8; 32] {
    aes_gcm::Aes256Gcm::generate_key(aes_gcm::aead::OsRng).into()
}

/// Calls `Aes256Gcm::generate_nonce(OsRng)`: a random 96-bit nonce.
/// Nothing is claimed of its value.
#[verifier::external_body]
fn random_nonce() -> [u8; 12] {
    aes_gcm::Aes256Gcm::generate_nonce(aes_gcm::aead::OsRng).into()
}

/// Calls `Aes256Gcm::encrypt`: on success, the ciphertext (with its tag) is
/// the sealing of `plaintext` under `key` and `nonce`, the plaintext's length
/// plus the 16-byte tag. It fails only for a plaintext longer than the
/// crate's `P_MAX` (2^36 bytes). The error text is the crate's `aead::Error`
/// display.
#[verifier::external_body]
fn gcm_encrypt(key: &[u8; 32], nonce: &[u8; 12], plaintext: &[u8]) -> (r: Result<Vec<u8>, String>)
    ensures
        plaintext@.len() <= 0x10_0000_0000 ==> r is Ok,
        r matches Ok(c) ==> c@ == gcm_seal(key@, nonce@, plaintext@) && c@.len() == plaintext@.len() + 16,
{
    let cipher = aes_gcm::Aes256Gcm::new(aes_gcm::Key::<aes_gcm::Aes256Gcm>::from_slice(key));
    match cipher.encrypt(aes_gcm::Nonce::from_slice(nonce), plaintext) {
        Ok(c) => Ok(c),
        Err(e) => Err(e.to_string()),
    }
}

/// Calls `Aes256Gcm::decrypt`: a genuine sealing of some plaintext under
/// `key` and `nonce` opens to that plaintext. Nothing is claimed of other
/// inputs (a wrong key or a tampered ciphertext fails the tag check, but
/// that is a cryptographic property, not a fact of the code).
#[verifier::external_body]
fn gcm_decrypt(key: &[u8; 32], nonce: &[u8; 12], ciphertext: &[u8]) -> (r: Result<Vec<u8>, String>)
    ensures
        r is Err ==> forall|p: Seq<u8>| #[trigger] gcm_seal(key@, nonce@, p) != ciphertext@,
        r matches Ok(v) ==> forall|p: Seq<u8>| #[trigger] gcm_seal(key@, nonce@, p) == ciphertext@ ==> v@ == p,
{
    let cipher = aes_gcm::Aes256Gcm::new(aes_gcm::Key::<aes_gcm::Aes256Gcm>::from_slice(key));
    match cipher.decrypt(aes_gcm::Nonce::from_slice(nonce), ciphertext) {
        Ok(v) => Ok(v),
        Err(e) => Err(e.to_string()),
    }
}

impl EncryptionKey {
    /// A new random key.
    pub fn generate() -> (k: Self) {
        EncryptionKey(random_key())
    }

    /// Wrap raw key bytes.
    pub fn from_bytes(bytes: [u8; 32]) -> (k: Self)
        ensures
            k.0 == bytes,
    {
        EncryptionKey(bytes)
    }
}

/// Encrypt a cluster under a fresh random nonce; returns the ciphertext (16
/// bytes longer than the plaintext) and the nonce to store with it. Any
/// plaintext up to 2^36 bytes is encrypted.
pub fn encrypt_cluster(plaintext: &[u8], key: &EncryptionKey) -> (r: Result<(Vec<u8>, ClusterNonce), StorageError>)
    ensures
        plaintext@.len() <= 0x10_0000_0000 ==> r is Ok,
        r matches Ok((c, n)) ==> c@ == gcm_seal(key.0@, n.0@, plaintext@) && c@.len() == plaintext@.len() + 16,
        r matches Err(e) ==> e is Encryption,
{
    let nonce = random_nonce();
    match gcm_encrypt(&key.0, &nonce, plaintext) {
        Ok(c) => Ok((c, ClusterNonce(nonce))),
        Err(e) => Err(StorageError::Encryption(e)),
    }
}

/// Decrypt a cluster.
pub fn decrypt_cluster(ciphertext: &[u8], key: &EncryptionKey, nonce: &ClusterNonce) -> (r: Result<Vec<u8>, StorageError>)
    ensures
        forall|p: Seq<u8>| #[trigger] gcm_seal(key.0@, nonce.0@, p) == ciphertext@ ==> (r matches Ok(v) && v@ == p),
        r matches Err(StorageError::Encryption(m)) ==> starts_with_decryption_failed(m@),
        r matches Err(e) ==> e is Encryption,
{
    match gcm_decrypt(&key.0, &nonce.0, ciphertext) {
        Ok(v) => Ok(v),
        Err(e) => {
            let mut m = String::from_str("Decryption failed: ");
            push_str(&mut m, e.as_str());
            assert(m@.subrange(0, "Decryption failed: "@.len() as int) =~= "Decryption failed: "@);
            Err(StorageError::Encryption(m))
        },
    }
}

/// The message begins "Decryption failed: ".
pub open spec fn starts_with_decryption_failed(m: Seq<char>) -> bool {
    crate::util::text::starts_with(m, "Decryption failed: "@)
}

/// A cluster encrypted under a key decrypts under the same key and nonce to
/// the original plaintext: `c, n` are what `encrypt_cluster(p, key)`
/// returned and `r` what `decrypt_cluster(c, key, n)` returned.
pub proof fn law_encrypt_round_trip(p: Seq<u8>, key: Seq<u8>, n: Seq<u8>, c: Seq<u8>, r: Result<Vec<u8>, StorageError>)
    requires
        c == gcm_seal(key, n, p),
        forall|q: Seq<u8>| #[trigger] gcm_seal(key, n, q) == c ==> (r matches Ok(v) && v@ == q),
    ensures
        r matches Ok(v) && v@ == p,
{
    assert(gcm_seal(key, n, p) == c);
}

} // verus!
