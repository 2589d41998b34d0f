//! Authenticated encryption under a session key.
//!
//! A session key is derived from the secret of a key exchange. The cipher is
//! AES-256-GCM of the `aes-gcm` crate; what it computes from given bytes is
//! named here and not defined.

use aes_gcm::aead::Aead;
use aes_gcm::{Aes256Gcm, Key, KeyInit, Nonce};
use rand::RngCore;
use vstd::prelude::*;
use vstd::string::*;
use vstd::utf8::*;

use crate::crypto::digest::{sha256, sha256_digest};
use crate::crypto::keys::SharedSecret;
use crate::error::Error;
use crate::protocol::constants::SESSION_KEY_INFO;
use crate::text::begins_with;

verus! {

/// The longest plaintext, in bytes, that AES-GCM encrypts.
pub const MAX_PLAINTEXT: u64 = 0x10_0000_0000;

/// The length, in bytes, of the authentication tag at the end of a
/// ciphertext.
pub const TAG_LEN: usize = 16;

/// What AES-256-GCM encryption of `plaintext` under `key` and `nonce` yields:
/// the ciphertext followed by its tag, or nothing when the cipher refuses.
pub uninterp spec fn aes256_gcm_sealed(key: Seq<u8>, nonce: Seq<u8>, plaintext: Seq<u8>) -> Option<
    Seq<u8>,
>;

/// What AES-256-GCM decryption of `ciphertext` under `key` and `nonce` yields:
/// the plaintext, or nothing when the tag does not match.
pub uninterp spec fn aes256_gcm_opened(key: Seq<u8>, nonce: Seq<u8>, ciphertext: Seq<u8>) -> Option<
    Seq<u8>,
>;

/// `RngCore::fill_bytes` of the `rand` crate on the thread's generator: twelve
/// random bytes. Nothing is claimed of their value.
#[verifier::external_body]
fn random_nonce() -> (nonce: [u8; 12]) {
    let mut nonce = [0u8; 12];
    rand::thread_rng().fill_bytes(&mut nonce);
    nonce
}

/// `Aead::encrypt` of `aes-gcm` with no associated data. The contract names the
/// result, states that the cipher refuses exactly the plaintexts over its
/// limit, that what it gives is the tag longer than the plaintext, and that
/// decryption under the same key and nonce gives the plaintext back. On
/// refusal the crate's description is handed back.
#[verifier::external_body]
fn aes256_gcm_seal(key: &[u8; 32], nonce: &[u8; 12], plaintext: &[u8]) -> (r: Result<
    Vec<u8>,
    String,
>)
    ensures
        r is Ok <==> plaintext@.len() <= MAX_PLAINTEXT,
        match r {
            Ok(sealed) => aes256_gcm_sealed(key@, nonce@, plaintext@) == Some(sealed@)
                && sealed@.len() == plaintext@.len() + TAG_LEN && aes256_gcm_opened(
                key@,
                nonce@,
                sealed@,
            ) == Some(plaintext@),
            Err(_) => aes256_gcm_sealed(key@, nonce@, plaintext@) is None,
        },
{
    let cipher = Aes256Gcm::new(Key::<Aes256Gcm>::from_slice(key));
    match cipher.encrypt(Nonce::from_slice(nonce), plaintext) {
        Ok(sealed) => Ok(sealed),
        Err(e) => Err(e.to_string()),
    }
}

/// `Aead::decrypt` of `aes-gcm` with no associated data. The contract names
/// the result and states that the plaintext is the ciphertext without its
/// tag in length. On refusal the crate's description is handed back.
#[verifier::external_body]
fn aes256_gcm_open(key: &[u8; 32], nonce: &[u8; 12], ciphertext: &[u8]) -> (r: Result<
    Vec<u8>,
    String,
>)
    ensures
        match r {
            Ok(plaintext) => aes256_gcm_opened(key@, nonce@, ciphertext@) == Some(plaintext@)
                && plaintext@.len() + TAG_LEN == ciphertext@.len(),
            Err(_) => aes256_gcm_opened(key@, nonce@, ciphertext@) is None,
        },
{
    let cipher = Aes256Gcm::new(Key::<Aes256Gcm>::from_slice(key));
    match cipher.decrypt(Nonce::from_slice(nonce), ciphertext) {
        Ok(plaintext) => Ok(plaintext),
        Err(e) => Err(e.to_string()),
    }
}

/// Encrypted data together with the nonce it was encrypted under.
#[derive(Debug, Clone)]
pub struct EncryptedPayload {
    /// The nonce, drawn afresh for every encryption.
    pub nonce: [u8; 12],
    /// The ciphertext, with the authentication tag at its end.
    pub ciphertext: Vec<u8>,
}

/// The session key that both parties derive from the secret they share: the
/// SHA-256 digest of the secret followed by the fixed label.
pub open spec fn derived_key(shared: Seq<u8>) -> Seq<u8> {
    sha256_digest(shared + SESSION_KEY_INFO@)
}

/// The label of the derivation is the ASCII text `omniclip-session-key`.
pub proof fn lemma_session_key_info()
    ensures
        SESSION_KEY_INFO@ == encode_utf8("omniclip-session-key"@),
{
    reveal_strlit("omniclip-session-key");
    let text = "omniclip-session-key"@;
    is_ascii_chars_encode_utf8(text);
}

/// What decryption of `payload` under the key with bytes `key` yields.
pub open spec fn decrypted(key: Seq<u8>, payload: EncryptedPayload) -> Option<Seq<u8>> {
    aes256_gcm_opened(key, payload.nonce@, payload.ciphertext@)
}

/// The symmetric key that two paired devices share.
pub struct SessionKey {
    key: [u8; 32],
}

impl View for SessionKey {
    type V = Seq<u8>;

    /// The 32 bytes of the key.
    closed spec fn view(&self) -> Seq<u8> {
        self.key@
    }
}

impl Clone for SessionKey {
    fn clone(&self) -> (copy: Self)
        ensures
            copy == *self,
    {
        SessionKey { key: self.key }
    }
}

impl SessionKey {
    /// Derives the session key from the secret of a key exchange.
    pub fn from_shared_secret(shared: &SharedSecret) -> (key: Self)
        ensures
            key@ == derived_key(shared@),
    {
        let mut material: Vec<u8> = Vec::new();
        material.extend_from_slice(shared.as_bytes().as_slice());
        material.extend_from_slice(SESSION_KEY_INFO.as_slice());
        assert(material@ =~= shared@ + SESSION_KEY_INFO@);
        SessionKey { key: sha256(material.as_slice()) }
    }

    /// The session key with the given bytes.
    pub fn from_bytes(bytes: &[u8; 32]) -> (key: Self)
        ensures
            key@ == bytes@,
    {
        SessionKey { key: *bytes }
    }

    /// Encrypts a plaintext under a given nonce. The ciphertext is the tag
    /// longer than the plaintext. A nonce must never serve twice under one
    /// key: [`SessionKey::encrypt`] draws a fresh one.
    pub fn encrypt_with_nonce(&self, nonce: [u8; 12], plaintext: &[u8]) -> (r: Result<
        EncryptedPayload,
        Error,
    >)
        ensures
            match r {
                Ok(payload) => plaintext@.len() <= MAX_PLAINTEXT && payload.nonce == nonce
                    && aes256_gcm_sealed(self@, nonce@, plaintext@) == Some(payload.ciphertext@)
                    && payload.ciphertext@.len() == plaintext@.len() + TAG_LEN && decrypted(
                    self@,
                    payload,
                ) == Some(plaintext@),
                Err(e) => e matches Error::Crypto(detail) && begins_with(
                    detail@,
                    "encryption failed: "@,
                ) && plaintext@.len() > MAX_PLAINTEXT,
            },
    {
        match aes256_gcm_seal(&self.key, &nonce, plaintext) {
            Ok(ciphertext) => Ok(EncryptedPayload { nonce, ciphertext }),
            Err(reason) => {
                let mut detail = String::from_str("encryption failed: ");
                detail.append(reason.as_str());
                assert(detail@.subrange(0, "encryption failed: "@.len() as int)
                    =~= "encryption failed: "@);
                Err(Error::Crypto(detail))
            },
        }
    }

    /// Encrypts a plaintext under a nonce drawn at random. Whatever the nonce,
    /// the ciphertext is the tag longer than the plaintext, and the payload
    /// decrypts to the plaintext under this key.
    pub fn encrypt(&self, plaintext: &[u8]) -> (r: Result<EncryptedPayload, Error>)
        ensures
            match r {
                Ok(payload) => plaintext@.len() <= MAX_PLAINTEXT && aes256_gcm_sealed(
                    self@,
                    payload.nonce@,
                    plaintext@,
                ) == Some(payload.ciphertext@) && payload.ciphertext@.len() == plaintext@.len()
                    + TAG_LEN && decrypted(self@, payload) == Some(plaintext@),
                Err(e) => e matches Error::Crypto(detail) && begins_with(
                    detail@,
                    "encryption failed: "@,
                ) && plaintext@.len() > MAX_PLAINTEXT,
            },
    {
        self.encrypt_with_nonce(random_nonce(), plaintext)
    }

    /// Decrypts a payload. A payload that was made under another key or
    /// changed since is refused as a whole, and so is one too short to hold
    /// a tag.
    pub fn decrypt(&self, payload: &EncryptedPayload) -> (r: Result<Vec<u8>, Error>)
        ensures
            payload.ciphertext@.len() < TAG_LEN ==> r is Err,
            match r {
                Ok(plaintext) => decrypted(self@, *payload) == Some(plaintext@) && plaintext@.len()
                    + TAG_LEN == payload.ciphertext@.len(),
                Err(e) => e matches Error::Crypto(detail) && begins_with(
                    detail@,
                    "decryption failed: "@,
                ) && decrypted(self@, *payload) is None,
            },
    {
        match aes256_gcm_open(&self.key, &payload.nonce, payload.ciphertext.as_slice()) {
            Ok(plaintext) => Ok(plaintext),
            Err(reason) => {
                let mut detail = String::from_str("decryption failed: ");
                detail.append(reason.as_str());
                assert(detail@.subrange(0, "decryption failed: "@.len() as int)
                    =~= "decryption failed: "@);
                Err(Error::Crypto(detail))
            },
        }
    }
}

} // verus!
