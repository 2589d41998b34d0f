//! Identity keys and key-exchange keys.
//!
//! A key is held as its bytes. The arithmetic on the curve is done by
//! `ed25519-dalek` and `x25519-dalek`; what those crates compute from given
//! bytes is named here and not defined.

use ed25519_dalek::{Signer, Verifier};
use rand::rngs::OsRng;
use vstd::prelude::*;
use vstd::slice::*;
use vstd::string::*;

use crate::crypto::digest::{sha256, sha256_digest};
use crate::crypto::encoding::{
    base64_data, base64_decode, base64_encode, base64_text, decoded_array, too_short_for,
    DecodedArray,
};
use crate::error::Error;
use crate::text::to_array;

verus! {

/// The Ed25519 public key that belongs to a secret seed.
pub uninterp spec fn ed25519_public_key(seed: Seq<u8>) -> Seq<u8>;

/// The Ed25519 signature that a secret seed gives a message.
pub uninterp spec fn ed25519_signature(seed: Seq<u8>, message: Seq<u8>) -> Seq<u8>;

/// Whether 32 bytes are the encoding of a point that can serve as an Ed25519
/// public key.
pub uninterp spec fn ed25519_key_decodes(key: Seq<u8>) -> bool;

/// Whether Ed25519 verification under `key` accepts `signature` for `message`.
pub uninterp spec fn ed25519_accepts(key: Seq<u8>, message: Seq<u8>, signature: Seq<u8>) -> bool;

/// The X25519 public key that belongs to a secret.
pub uninterp spec fn x25519_public_key(secret: Seq<u8>) -> Seq<u8>;

/// The X25519 secret that one party's secret and the other's public key agree on.
pub uninterp spec fn x25519_shared_secret(secret: Seq<u8>, their_public: Seq<u8>) -> Seq<u8>;

/// `SigningKey::generate` of `ed25519-dalek` on the operating system's random
/// source: the seed of a fresh key. Nothing is claimed of its value.
#[verifier::external_body]
fn ed25519_generate() -> (seed: [u8; 32]) {
    ed25519_dalek::SigningKey::generate(&mut OsRng).to_bytes()
}

/// `SigningKey::verifying_key` of `ed25519-dalek`: the public key of a seed.
/// The contract names it and states that it is a key the crate decodes again.
#[verifier::external_body]
fn ed25519_derive(seed: &[u8; 32]) -> (key: [u8; 32])
    ensures
        key@ == ed25519_public_key(seed@),
        ed25519_key_decodes(key@),
{
    ed25519_dalek::SigningKey::from_bytes(seed).verifying_key().to_bytes()
}

/// `Signer::sign` of `ed25519-dalek`: the signature of a message. The contract
/// names it and states that verification under the seed's own public key
/// accepts it.
#[verifier::external_body]
fn ed25519_sign(seed: &[u8; 32], message: &[u8]) -> (signature: [u8; 64])
    ensures
        signature@ == ed25519_signature(seed@, message@),
        ed25519_accepts(ed25519_public_key(seed@), message@, signature@),
{
    ed25519_dalek::SigningKey::from_bytes(seed).sign(message).to_bytes()
}

/// `VerifyingKey::from_bytes` of `ed25519-dalek`: whether the bytes decode to a
/// public key. On refusal the crate's description of the fault is handed back.
#[verifier::external_body]
fn ed25519_check_key(key: &[u8; 32]) -> (r: Result<(), String>)
    ensures
        r is Ok <==> ed25519_key_decodes(key@),
{
    match ed25519_dalek::VerifyingKey::from_bytes(key) {
        Ok(_) => Ok(()),
        Err(e) => Err(e.to_string()),
    }
}

/// `Verifier::verify` of `ed25519-dalek` under the key that the bytes decode
/// to. On refusal the crate's description of the fault is handed back.
#[verifier::external_body]
fn ed25519_verify(key: &[u8; 32], message: &[u8], signature: &[u8; 64]) -> (r: Result<(), String>)
    requires
        ed25519_key_decodes(key@),
    ensures
        r is Ok <==> ed25519_accepts(key@, message@, signature@),
{
    let key = match ed25519_dalek::VerifyingKey::from_bytes(key) {
        Ok(key) => key,
        Err(e) => return Err(e.to_string()),
    };
    match key.verify(message, &ed25519_dalek::Signature::from_bytes(signature)) {
        Ok(()) => Ok(()),
        Err(e) => Err(e.to_string()),
    }
}

/// `StaticSecret::random_from_rng` of `x25519-dalek` on the operating system's
/// random source: a fresh key-exchange secret. Nothing is claimed of its value.
#[verifier::external_body]
fn x25519_generate() -> (secret: [u8; 32]) {
    x25519_dalek::StaticSecret::random_from_rng(OsRng).to_bytes()
}

/// The conversion of a secret to its `PublicKey` in `x25519-dalek`. The
/// contract only gives the public key its name.
#[verifier::external_body]
fn x25519_derive(secret: &[u8; 32]) -> (key: [u8; 32])
    ensures
        key@ == x25519_public_key(secret@),
{
    x25519_dalek::PublicKey::from(&x25519_dalek::StaticSecret::from(*secret)).to_bytes()
}

/// `diffie_hellman` of `x25519-dalek`. The contract names the shared secret
/// and states the agreement that the exchange exists for: whoever holds the
/// secret behind `their_public` computes the same bytes from this side's
/// public key.
#[verifier::external_body]
fn x25519_agree(secret: &[u8; 32], their_public: &[u8; 32]) -> (shared: [u8; 32])
    ensures
        shared@ == x25519_shared_secret(secret@, their_public@),
        forall|theirs: Seq<u8>|
            theirs.len() == 32 && their_public@ == #[trigger] x25519_public_key(theirs)
                ==> shared@ == x25519_shared_secret(theirs, x25519_public_key(secret@)),
{
    x25519_dalek::StaticSecret::from(*secret).diffie_hellman(
        &x25519_dalek::PublicKey::from(*their_public),
    ).to_bytes()
}

/// The number of characters of a fingerprint.
pub const FINGERPRINT_LEN: usize = 12;

/// The fingerprint shown to a human for a public identity key: the first eight
/// bytes of its SHA-256 digest, as base64 text.
pub open spec fn fingerprint_text(key: Seq<u8>) -> Seq<char> {
    base64_text(sha256_digest(key).subrange(0, 8))
}

/// Reads 32 bytes from base64 text, as keys are read from structured
/// payloads.
fn decode_key(text: &str) -> (r: Result<[u8; 32], String>)
    ensures
        too_short_for(text@, 32) ==> r is Err,
        match decoded_array(text@, 32) {
            DecodedArray::Bytes(data) => r matches Ok(key) && key@ == data,
            DecodedArray::WrongLength => r matches Err(m) && m@ == "invalid key length"@,
            DecodedArray::Malformed => r is Err,
        },
{
    let data = base64_decode(text)?;
    match to_array::<32>(data.as_slice()) {
        Some(key) => Ok(key),
        None => Err(String::from_str("invalid key length")),
    }
}

/// The long-term signing key of a device.
pub struct SigningKey {
    seed: [u8; 32],
}

impl View for SigningKey {
    type V = Seq<u8>;

    /// The secret seed.
    closed spec fn view(&self) -> Seq<u8> {
        self.seed@
    }
}

impl Clone for SigningKey {
    fn clone(&self) -> (copy: Self)
        ensures
            copy == *self,
    {
        SigningKey { seed: self.seed }
    }
}

impl SigningKey {
    /// Draws a new signing key at random.
    pub fn generate() -> (key: Self)
        ensures
            key@.len() == 32,
    {
        SigningKey { seed: ed25519_generate() }
    }

    /// The key with the given seed.
    pub fn from_bytes(bytes: &[u8; 32]) -> (key: Self)
        ensures
            key@ == bytes@,
    {
        SigningKey { seed: *bytes }
    }

    /// The seed of the key.
    pub fn to_bytes(&self) -> (bytes: [u8; 32])
        ensures
            bytes@ == self@,
    {
        self.seed
    }

    /// The public half of the key.
    pub fn verifying_key(&self) -> (key: VerifyingKey)
        ensures
            key@ == ed25519_public_key(self@),
    {
        VerifyingKey { bytes: ed25519_derive(&self.seed) }
    }

    /// Signs a message. The signature has 64 bytes, and the public half of this
    /// key accepts it for the message.
    pub fn sign(&self, message: &[u8]) -> (signature: Vec<u8>)
        ensures
            signature@ == ed25519_signature(self@, message@),
            signature@.len() == 64,
            ed25519_accepts(ed25519_public_key(self@), message@, signature@),
    {
        let signature = ed25519_sign(&self.seed, message);
        slice_to_vec(signature.as_slice())
    }

    /// The fingerprint of the public half of the key: twelve characters.
    pub fn public_key_fingerprint(&self) -> (text: String)
        ensures
            text@ == fingerprint_text(ed25519_public_key(self@)),
            text@.len() == FINGERPRINT_LEN,
    {
        self.verifying_key().fingerprint()
    }
}

/// The public identity key of a device. It always decodes to a point of the
/// curve.
#[derive(Debug, Clone, Copy)]
pub struct VerifyingKey {
    bytes: [u8; 32],
}

impl View for VerifyingKey {
    type V = Seq<u8>;

    /// The 32 bytes of the encoded key.
    closed spec fn view(&self) -> Seq<u8> {
        self.bytes@
    }
}

impl VerifyingKey {
    #[verifier::type_invariant]
    spec fn decodes(self) -> bool {
        ed25519_key_decodes(self.bytes@)
    }

    /// The key with the given encoding, refused when the bytes do not decode to
    /// a point of the curve.
    pub fn from_bytes(bytes: &[u8; 32]) -> (r: Result<Self, Error>)
        ensures
            match r {
                Ok(key) => ed25519_key_decodes(bytes@) && key@ == bytes@,
                Err(e) => !ed25519_key_decodes(bytes@) && e is Crypto,
            },
    {
        match ed25519_check_key(bytes) {
            Ok(()) => Ok(VerifyingKey { bytes: *bytes }),
            Err(reason) => Err(Error::Crypto(reason)),
        }
    }

    /// The encoding of the key.
    pub fn to_bytes(&self) -> (bytes: [u8; 32])
        ensures
            bytes@ == self@,
            ed25519_key_decodes(bytes@),
    {
        proof {
            use_type_invariant(self);
        }
        self.bytes
    }

    /// Verifies a signature on a message. A signature that is not 64 bytes long
    /// is refused without a look at its bytes.
    pub fn verify(&self, message: &[u8], signature: &[u8]) -> (r: Result<(), Error>)
        ensures
            match r {
                Ok(_) => signature@.len() == 64 && ed25519_accepts(self@, message@, signature@),
                Err(e) => e is Crypto && !(signature@.len() == 64 && ed25519_accepts(
                    self@,
                    message@,
                    signature@,
                )),
            },
            signature@.len() != 64 ==> (r matches Err(Error::Crypto(reason)) && reason@
                == "invalid signature length"@),
    {
        let bytes = match to_array::<64>(signature) {
            Some(bytes) => bytes,
            None => {
                return Err(Error::Crypto(String::from_str("invalid signature length")));
            },
        };
        proof {
            use_type_invariant(self);
        }
        match ed25519_verify(&self.bytes, message, &bytes) {
            Ok(()) => Ok(()),
            Err(reason) => Err(Error::Crypto(reason)),
        }
    }

    /// The key as base64 text, as it stands in structured payloads: 44
    /// characters, which are read back as the same key.
    pub fn to_base64(&self) -> (text: String)
        ensures
            text@ == base64_text(self@),
            text@.len() == 44,
            base64_data(text@) == Some(self@),
    {
        base64_encode(self.bytes.as_slice())
    }

    /// Reads a key from base64 text. The text must decode to 32 bytes that
    /// are the encoding of a point of the curve; a text too short for 32
    /// bytes is refused.
    pub fn from_base64(text: &str) -> (r: Result<Self, String>)
        ensures
            too_short_for(text@, 32) ==> r is Err,
            match decoded_array(text@, 32) {
                DecodedArray::Bytes(data) => if ed25519_key_decodes(data) {
                    r matches Ok(key) && key@ == data
                } else {
                    r is Err
                },
                DecodedArray::WrongLength => r matches Err(m) && m@ == "invalid key length"@,
                DecodedArray::Malformed => r is Err,
            },
    {
        let bytes = decode_key(text)?;
        match ed25519_check_key(&bytes) {
            Ok(()) => Ok(VerifyingKey { bytes }),
            Err(reason) => Err(reason),
        }
    }

    /// The fingerprint of the key, for a human to compare during pairing:
    /// twelve characters.
    pub fn fingerprint(&self) -> (text: String)
        ensures
            text@ == fingerprint_text(self@),
            text@.len() == FINGERPRINT_LEN,
    {
        let digest = sha256(self.bytes.as_slice());
        base64_encode(slice_subrange(digest.as_slice(), 0, 8))
    }
}

/// The secret of one key exchange. It is drawn at random, used for one
/// exchange and gone after it.
pub struct EphemeralSecret {
    bytes: [u8; 32],
}

impl View for EphemeralSecret {
    type V = Seq<u8>;

    /// The 32 secret bytes.
    closed spec fn view(&self) -> Seq<u8> {
        self.bytes@
    }
}

impl EphemeralSecret {
    /// A secret has 32 bytes.
    pub proof fn lemma_len(&self)
        ensures
            self@.len() == 32,
    {
    }

    /// Draws a new secret at random.
    pub fn generate() -> (secret: Self)
        ensures
            secret@.len() == 32,
    {
        EphemeralSecret { bytes: x25519_generate() }
    }

    /// The public key to send to the other party.
    pub fn public_key(&self) -> (key: PublicKey)
        ensures
            key@ == x25519_public_key(self@),
    {
        PublicKey { bytes: x25519_derive(&self.bytes) }
    }

    /// Completes the exchange with the other party's public key and uses the
    /// secret up. The result is the secret that the other party computes from
    /// its own secret and this side's public key.
    pub fn diffie_hellman(self, their_public: &PublicKey) -> (shared: SharedSecret)
        ensures
            shared@ == x25519_shared_secret(self@, their_public@),
            forall|theirs: Seq<u8>|
                theirs.len() == 32 && their_public@ == #[trigger] x25519_public_key(theirs)
                    ==> shared@ == x25519_shared_secret(theirs, x25519_public_key(self@)),
    {
        SharedSecret { bytes: x25519_agree(&self.bytes, &their_public.bytes) }
    }
}

/// The public key of one key exchange.
#[derive(Debug, Clone, Copy)]
pub struct PublicKey {
    bytes: [u8; 32],
}

impl View for PublicKey {
    type V = Seq<u8>;

    /// The 32 bytes of the key.
    closed spec fn view(&self) -> Seq<u8> {
        self.bytes@
    }
}

impl PublicKey {
    /// A key has 32 bytes.
    pub proof fn lemma_len(&self)
        ensures
            self@.len() == 32,
    {
    }

    /// The key with the given bytes.
    pub fn from_bytes(bytes: [u8; 32]) -> (key: Self)
        ensures
            key@ == bytes@,
    {
        PublicKey { bytes }
    }

    /// The bytes of the key.
    pub fn to_bytes(&self) -> (bytes: [u8; 32])
        ensures
            bytes@ == self@,
    {
        self.bytes
    }

    /// The key as base64 text, as it stands in structured payloads: 44
    /// characters, which are read back as the same key.
    pub fn to_base64(&self) -> (text: String)
        ensures
            text@ == base64_text(self@),
            text@.len() == 44,
            base64_data(text@) == Some(self@),
    {
        base64_encode(self.bytes.as_slice())
    }

    /// Reads a key from base64 text, which must decode to 32 bytes; a text
    /// too short for 32 bytes is refused.
    pub fn from_base64(text: &str) -> (r: Result<Self, String>)
        ensures
            too_short_for(text@, 32) ==> r is Err,
            match decoded_array(text@, 32) {
                DecodedArray::Bytes(data) => r matches Ok(key) && key@ == data,
                DecodedArray::WrongLength => r matches Err(m) && m@ == "invalid key length"@,
                DecodedArray::Malformed => r is Err,
            },
    {
        let bytes = decode_key(text)?;
        Ok(PublicKey { bytes })
    }
}

/// The secret that both parties of a key exchange arrive at.
pub struct SharedSecret {
    bytes: [u8; 32],
}

impl View for SharedSecret {
    type V = Seq<u8>;

    /// The 32 bytes of the secret.
    closed spec fn view(&self) -> Seq<u8> {
        self.bytes@
    }
}

impl SharedSecret {
    /// The bytes of the secret.
    pub fn as_bytes(&self) -> (bytes: &[u8; 32])
        ensures
            bytes@ == self@,
    {
        &self.bytes
    }
}

} // verus!
