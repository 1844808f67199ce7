//! Ed25519 signatures, by which a node proves that it controls its onion
//! address.

use ed25519_dalek::{Signer, Verifier};
use vstd::prelude::*;

verus! {

/// The number of bytes of a secret key and of a public key.
pub const KEY_LEN: usize = 32;

/// The number of bytes of a signature.
pub const SIGNATURE_LEN: usize = 64;

/// The public key of a secret key.
pub uninterp spec fn spec_ed25519_public(secret: Seq<u8>) -> Seq<u8>;

/// The signature of a message under a secret key.
pub uninterp spec fn spec_ed25519_sign(secret: Seq<u8>, message: Seq<u8>) -> Seq<u8>;

/// Whether a signature of a message verifies under a public key.
pub uninterp spec fn spec_ed25519_verify(
    public_key: Seq<u8>,
    message: Seq<u8>,
    signature: Seq<u8>,
) -> bool;

/// `ed25519_dalek::Keypair::generate` on the operating system's random
/// source: a secret key of 32 random bytes and its public key.
#[verifier::external_body]
pub(crate) fn ed25519_generate() -> (pair: (Vec<u8>, Vec<u8>))
    ensures
        pair.0@.len() == KEY_LEN,
        pair.1@.len() == KEY_LEN,
        pair.1@ == spec_ed25519_public(pair.0@),
{
    let keypair = ed25519_dalek::Keypair::generate(&mut rand::rngs::OsRng);
    (keypair.secret.to_bytes().to_vec(), keypair.public.to_bytes().to_vec())
}

/// `ed25519_dalek::PublicKey::from` on a secret key read by
/// `SecretKey::from_bytes`, which takes any 32 bytes.
#[verifier::external_body]
pub(crate) fn ed25519_public(secret: &[u8; 32]) -> (public: Option<Vec<u8>>)
    ensures
        public is Some,
        public->Some_0@ == spec_ed25519_public(secret@),
        public->Some_0@.len() == KEY_LEN,
{
    let secret = ed25519_dalek::SecretKey::from_bytes(secret).ok()?;
    Some(ed25519_dalek::PublicKey::from(&secret).to_bytes().to_vec())
}

/// `sign` of an `ed25519_dalek::Keypair` made of the secret key and its
/// public key. The signature is a function of key and message, has 64
/// bytes and, as the documentation of `ed25519_dalek` shows, verifies
/// under the public key.
#[verifier::external_body]
pub(crate) fn ed25519_sign(secret: &[u8; 32], message: &[u8]) -> (signature: Option<Vec<u8>>)
    ensures
        signature is Some,
        signature->Some_0@ == spec_ed25519_sign(secret@, message@),
        signature->Some_0@.len() == SIGNATURE_LEN,
        spec_ed25519_verify(spec_ed25519_public(secret@), message@, signature->Some_0@),
{
    let secret = ed25519_dalek::SecretKey::from_bytes(secret).ok()?;
    let public = ed25519_dalek::PublicKey::from(&secret);
    let keypair = ed25519_dalek::Keypair { secret, public };
    Some(keypair.sign(message).to_bytes().to_vec())
}

/// `verify` of an `ed25519_dalek::PublicKey` read by `from_bytes`, on a
/// signature read by `Signature::from_bytes`; false where either cannot
/// be read.
#[verifier::external_body]
pub(crate) fn ed25519_verify(public_key: &[u8], message: &[u8], signature: &[u8]) -> (ok: bool)
    ensures
        ok == spec_ed25519_verify(public_key@, message@, signature@),
{
    let key = match ed25519_dalek::PublicKey::from_bytes(public_key) {
        Ok(key) => key,
        Err(_) => return false,
    };
    let signature = match ed25519_dalek::Signature::from_bytes(signature) {
        Ok(signature) => signature,
        Err(_) => return false,
    };
    key.verify(message, &signature).is_ok()
}

} // verus!
