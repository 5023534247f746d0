//! Ed25519 keys and signatures, as this library sees them.
//!
//! Keys and signatures cross this boundary as plain byte arrays. What the
//! curve arithmetic yields is named here and computed by `ed25519_dalek`.

use vstd::prelude::*;

verus! {

/// The public key that belongs to a 32-byte secret key.
pub uninterp spec fn ed25519_public_key(secret: Seq<u8>) -> [u8; 32];

/// The signature that a 32-byte secret key gives on a message.
pub uninterp spec fn ed25519_signature(secret: Seq<u8>, message: Seq<u8>) -> [u8; 64];

/// Whether 32 bytes are the encoding of a point on the curve, and so a
/// public key.
pub uninterp spec fn ed25519_key_valid(public: Seq<u8>) -> bool;

/// Whether the public key encoded by `public` accepts the 64 bytes
/// `signature` as a signature on `message`. False where `public` encodes no
/// key.
pub uninterp spec fn ed25519_accepts(public: Seq<u8>, message: Seq<u8>, signature: Seq<u8>) -> bool;

/// Draws a fresh secret key with `ed25519_dalek::SigningKey::generate` from
/// the operating system's random source.
///
/// Trusted, and nothing is claimed: the bytes are random.
#[verifier::external_body]
pub(crate) fn random_secret_key() -> (secret: [u8; 32]) {
    ed25519_dalek::SigningKey::generate(&mut rand::rngs::OsRng).to_bytes()
}

/// Derives the public key with `ed25519_dalek::SigningKey::verifying_key`.
///
/// Trusted: the public key depends on the secret key alone, and a derived
/// key is always the encoding of a point.
#[verifier::external_body]
pub(crate) fn derive_public_key(secret: &[u8; 32]) -> (public: [u8; 32])
    ensures
        public == ed25519_public_key(secret@),
        ed25519_key_valid(public@),
{
    ed25519_dalek::SigningKey::from_bytes(secret).verifying_key().to_bytes()
}

/// Signs with `ed25519_dalek::Signer::sign` on a `SigningKey`.
///
/// Trusted: signing is deterministic, and the key's own public key accepts
/// what was signed.
#[verifier::external_body]
pub(crate) fn sign_message(secret: &[u8; 32], message: &[u8]) -> (signature: [u8; 64])
    ensures
        signature == ed25519_signature(secret@, message@),
        ed25519_accepts(ed25519_public_key(secret@)@, message@, signature@),
{
    let key = ed25519_dalek::SigningKey::from_bytes(secret);
    ed25519_dalek::Signer::sign(&key, message).to_bytes()
}

/// Asks `ed25519_dalek::VerifyingKey::from_bytes` whether it takes the bytes.
///
/// Trusted: the answer is `ed25519_key_valid` of the bytes.
#[verifier::external_body]
pub(crate) fn key_is_valid(public: &[u8; 32]) -> (valid: bool)
    ensures
        valid == ed25519_key_valid(public@),
{
    ed25519_dalek::VerifyingKey::from_bytes(public).is_ok()
}

/// Checks a signature with `ed25519_dalek::Verifier::verify` on a
/// `VerifyingKey`. Every failure inside the check is the answer `false`.
///
/// Trusted: the answer is `ed25519_accepts` of the three byte strings.
#[verifier::external_body]
pub(crate) fn signature_accepted(public: &[u8; 32], message: &[u8], signature: &[u8; 64]) -> (accepted: bool)
    ensures
        accepted == ed25519_accepts(public@, message@, signature@),
{
    match ed25519_dalek::VerifyingKey::from_bytes(public) {
        Ok(key) => {
            let signature = ed25519_dalek::Signature::from_bytes(signature);
            ed25519_dalek::Verifier::verify(&key, message, &signature).is_ok()
        },
        Err(_) => false,
    }
}

} // verus!
