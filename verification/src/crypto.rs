//! Hashing and signatures: BLAKE3 digests and Ed25519 key pairs.
//!
//! The digests and signatures themselves come from the crates `blake3` and
//! `ed25519_dalek`. Each call into them stands in a small wrapper whose
//! contract is believed, not proved; what such a call returns is named by a
//! specification function without a body, and the verified functions state
//! their results over those names.

use ed25519_dalek::{Signature, Signer, SigningKey, Verifier, VerifyingKey};
use rand::rngs::OsRng;
use vstd::prelude::*;

verus! {

#[derive(Debug, Clone, Copy, PartialEq, Eq, Structural)]
pub enum CryptoError {
    InvalidSignature,
    KeyGenerationFailed,
    SerializationError,
}

impl CryptoError {
    /// The text shown for this error.
    pub fn message(&self) -> (s: String)
        ensures
            s@ == match *self {
                CryptoError::InvalidSignature => "Invalid signature"@,
                CryptoError::KeyGenerationFailed => "Key generation failed"@,
                CryptoError::SerializationError => "Serialization error"@,
            },
    {
        match self {
            CryptoError::InvalidSignature => "Invalid signature".to_string(),
            CryptoError::KeyGenerationFailed => "Key generation failed".to_string(),
            CryptoError::SerializationError => "Serialization error".to_string(),
        }
    }
}

/// Values that have a digest, written as a string.
pub trait Hashable {
    fn hash(&self) -> String;
}

/// Length of an Ed25519 secret key and of a public key, in bytes.
pub const KEY_LENGTH: usize = 32;

/// Length of an Ed25519 signature, in bytes.
pub const SIGNATURE_LENGTH: usize = 64;

/// The BLAKE3 digest of `data`, written as 64 lowercase hexadecimal digits.
pub uninterp spec fn spec_blake3_hex(data: Seq<u8>) -> Seq<char>;

/// The public key that belongs to the 32-byte Ed25519 secret key `secret`.
pub uninterp spec fn spec_ed25519_public_key(secret: Seq<u8>) -> Seq<u8>;

/// The Ed25519 signature of `message` under the 32-byte secret key `secret`.
pub uninterp spec fn spec_ed25519_signature(secret: Seq<u8>, message: Seq<u8>) -> Seq<u8>;

/// Whether the 32 bytes `public_key` encode a point of the curve.
pub uninterp spec fn spec_ed25519_key_valid(public_key: Seq<u8>) -> bool;

/// Whether `signature` is accepted for `message` under `public_key`.
pub uninterp spec fn spec_ed25519_accepts(
    public_key: Seq<u8>,
    message: Seq<u8>,
    signature: Seq<u8>,
) -> bool;

pub struct Blake3;

impl Blake3 {
    /// Calls `blake3::hash` and writes the digest with `Hash::to_hex`.
    /// Trusted: the result is the digest of exactly these bytes, and it has
    /// 64 characters, two for each of the 32 bytes of a digest.
    #[verifier::external_body]
    pub fn hash(data: &[u8]) -> (digest: String)
        ensures
            digest@ == spec_blake3_hex(data@),
            digest@.len() == 64,
    {
        let hash = blake3::hash(data);
        hash.to_hex().to_string()
    }
}

/// Calls `SigningKey::generate` on the operating system's random number
/// generator. Trusted: a secret key has 32 bytes. Which bytes is left open.
#[verifier::external_body]
fn fresh_secret_key() -> (secret: Vec<u8>)
    ensures
        secret@.len() == KEY_LENGTH,
{
    let mut csprng = OsRng;
    SigningKey::generate(&mut csprng).to_bytes().to_vec()
}

/// Calls `SigningKey::from_bytes` and `SigningKey::verifying_key`.
/// Trusted: the public key is a function of the secret key and has 32 bytes.
#[verifier::external_body]
fn public_key_of(secret: &[u8]) -> (public: Vec<u8>)
    requires
        secret@.len() == KEY_LENGTH,
    ensures
        public@ == spec_ed25519_public_key(secret@),
        public@.len() == KEY_LENGTH,
{
    let signing_key = SigningKey::from_bytes(secret.try_into().unwrap());
    signing_key.verifying_key().to_bytes().to_vec()
}

/// Calls `Signer::sign` of the signing key with these secret bytes.
/// Trusted: signing draws no randomness, so the signature is a function of
/// key and message, and it has 64 bytes.
#[verifier::external_body]
fn sign_with(secret: &[u8], message: &[u8]) -> (signature: Vec<u8>)
    requires
        secret@.len() == KEY_LENGTH,
    ensures
        signature@ == spec_ed25519_signature(secret@, message@),
        signature@.len() == SIGNATURE_LENGTH,
{
    let signing_key = SigningKey::from_bytes(secret.try_into().unwrap());
    signing_key.sign(message).to_bytes().to_vec()
}

/// Calls `VerifyingKey::from_bytes`. Trusted: whether it succeeds depends on
/// the 32 bytes alone.
#[verifier::external_body]
fn public_key_decodes(public_key: &[u8]) -> (ok: bool)
    requires
        public_key@.len() == KEY_LENGTH,
    ensures
        ok == spec_ed25519_key_valid(public_key@),
{
    VerifyingKey::from_bytes(public_key.try_into().unwrap()).is_ok()
}

/// Calls `Verifier::verify` of the key decoded from `public_key` on the
/// signature read by `Signature::from_bytes`. Trusted: whether it accepts
/// depends on key, message and signature alone.
#[verifier::external_body]
fn signature_accepted(public_key: &[u8], message: &[u8], signature: &[u8]) -> (ok: bool)
    requires
        public_key@.len() == KEY_LENGTH,
        spec_ed25519_key_valid(public_key@),
        signature@.len() == SIGNATURE_LENGTH,
    ensures
        ok == spec_ed25519_accepts(public_key@, message@, signature@),
{
    let verifying_key = VerifyingKey::from_bytes(public_key.try_into().unwrap()).unwrap();
    let signature = Signature::from_bytes(signature.try_into().unwrap());
    verifying_key.verify(message, &signature).is_ok()
}

/// The answer of [`KeyPair::verify`], given what the checks found: whether
/// the public key has 32 bytes and decodes, whether the signature has 64
/// bytes, and whether the signature was accepted.
pub open spec fn spec_verdict(key_ok: bool, signature_ok: bool, accepted: bool) -> Result<
    bool,
    CryptoError,
> {
    if !key_ok || !signature_ok {
        Err(CryptoError::SerializationError)
    } else if accepted {
        Ok(true)
    } else {
        Err(CryptoError::InvalidSignature)
    }
}

#[derive(Debug, Clone, PartialEq, Eq)]
pub struct KeyPair {
    pub public_key: Vec<u8>,
    pub private_key: Vec<u8>,
}

impl KeyPair {
    /// A new key pair from fresh randomness. The public key is the one that
    /// belongs to the secret key.
    pub fn generate() -> (pair: Self)
        ensures
            pair.private_key@.len() == KEY_LENGTH,
            pair.public_key@.len() == KEY_LENGTH,
            pair.public_key@ == spec_ed25519_public_key(pair.private_key@),
    {
        let private_key = fresh_secret_key();
        let public_key = public_key_of(private_key.as_slice());
        Self { public_key, private_key }
    }

    /// Signs `message` with the secret key, which must have 32 bytes.
    pub fn sign(&self, message: &[u8]) -> (res: Result<Vec<u8>, CryptoError>)
        requires
            self.private_key@.len() == KEY_LENGTH,
        ensures
            res matches Ok(signature) && signature@ == spec_ed25519_signature(
                self.private_key@,
                message@,
            ) && signature@.len() == SIGNATURE_LENGTH,
    {
        Ok(sign_with(self.private_key.as_slice(), message))
    }

    /// Maps what the checks of a signature found to the answer of
    /// [`KeyPair::verify`].
    pub fn verdict(key_ok: bool, signature_ok: bool, accepted: bool) -> (res: Result<
        bool,
        CryptoError,
    >)
        ensures
            res == spec_verdict(key_ok, signature_ok, accepted),
    {
        if !key_ok || !signature_ok {
            Err(CryptoError::SerializationError)
        } else if accepted {
            Ok(true)
        } else {
            Err(CryptoError::InvalidSignature)
        }
    }

    /// Checks `signature` on `message` under `public_key`.
    ///
    /// `Err(SerializationError)` if the key does not have 32 bytes or does
    /// not decode, or the signature does not have 64 bytes;
    /// `Err(InvalidSignature)` if the signature is not accepted; `Ok(true)`
    /// otherwise.
    pub fn verify(public_key: &[u8], message: &[u8], signature: &[u8]) -> (res: Result<
        bool,
        CryptoError,
    >)
        ensures
            res == spec_verdict(
                public_key@.len() == KEY_LENGTH && spec_ed25519_key_valid(public_key@),
                signature@.len() == SIGNATURE_LENGTH,
                spec_ed25519_accepts(public_key@, message@, signature@),
            ),
    {
        let key_ok = public_key.len() == KEY_LENGTH && public_key_decodes(public_key);
        let signature_ok = signature.len() == SIGNATURE_LENGTH;
        let accepted = key_ok && signature_ok && signature_accepted(public_key, message, signature);
        Self::verdict(key_ok, signature_ok, accepted)
    }
}

} // verus!
