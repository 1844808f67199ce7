//! ECDSA over secp256k1 with one fixed signing key: deterministic
//! signatures in DER form, public keys in compressed SEC1 form.

use crate::error::{CryptoError, Error};
use k256::ecdsa::signature::{Signer, Verifier};
use vstd::prelude::*;

verus! {

/// The number of bytes of a secret scalar.
pub const SECRET_LEN: usize = 32;

/// The number of bytes of a compressed public key.
pub const PUBLIC_KEY_LEN: usize = 33;

/// The most bytes a DER signature has.
pub const MAX_SIGNATURE_LEN: usize = 73;

/// The number that bytes spell, the first byte counting most.
pub open spec fn be_value(bytes: Seq<u8>) -> nat
    decreases bytes.len(),
{
    if bytes.len() == 0 {
        0
    } else {
        256 * be_value(bytes.drop_last()) + bytes.last() as nat
    }
}

/// The order of the group of secp256k1:
/// `FFFFFFFF FFFFFFFF FFFFFFFF FFFFFFFE BAAEDCE6 AF48A03B BFD25E8C D0364141`.
pub open spec fn group_order() -> nat {
    (0xFFFF_FFFF_FFFF_FFFF_FFFF_FFFF_FFFF_FFFEnat * 0x1_0000_0000_0000_0000nat
        + 0xBAAE_DCE6_AF48_A03Bnat) * 0x1_0000_0000_0000_0000nat + 0xBFD2_5E8C_D036_4141nat
}

/// Whether a byte string is accepted as a secret scalar: 24 to 32 bytes
/// that spell a number above zero and below the order of the group.
pub open spec fn spec_secret_ok(secret: Seq<u8>) -> bool {
    24 <= secret.len() <= 32 && 0 < be_value(secret) < group_order()
}

/// The compressed SEC1 encoding of the public key of a secret scalar.
pub uninterp spec fn spec_public_key(secret: Seq<u8>) -> Seq<u8>;

/// The DER signature of a message under a secret scalar, where signing
/// yields one.
pub uninterp spec fn spec_ecdsa_sign(secret: Seq<u8>, message: Seq<u8>) -> Option<Seq<u8>>;

/// Whether a DER signature of a message verifies under a SEC1 public key.
pub uninterp spec fn spec_ecdsa_verify(
    public_key: Seq<u8>,
    message: Seq<u8>,
    signature: Seq<u8>,
) -> bool;

/// `k256::ecdsa::SigningKey::from_slice`, then `verifying_key` and
/// `to_sec1_bytes`: the public key of the secret scalar, or nothing where
/// the bytes are not accepted as one. `from_slice` takes 24 to 32 bytes,
/// reads them as a big-endian number and accepts it if it is not zero and
/// lies below the order of the group. The key comes compressed: one tag
/// byte and the 32 bytes of a coordinate.
#[verifier::external_body]
fn secp256k1_public_key(secret: &[u8]) -> (r: Option<Vec<u8>>)
    ensures
        r is Some <==> spec_secret_ok(secret@),
        r is Some ==> r->Some_0@ == spec_public_key(secret@),
        r is Some ==> r->Some_0@.len() == PUBLIC_KEY_LEN,
{
    let key = k256::ecdsa::SigningKey::from_slice(secret).ok()?;
    Some(key.verifying_key().to_sec1_bytes().to_vec())
}

/// `try_sign` of `k256::ecdsa::SigningKey`, which hashes the message with
/// SHA-256 and derives the nonce from key and message alone, then
/// `to_der`. The same key and message always give the same signature; a
/// signature that comes out has at most 73 bytes and, as the
/// documentation of `k256::ecdsa` shows, verifies under the key's public
/// key.
#[verifier::external_body]
fn secp256k1_sign(secret: &[u8], message: &[u8]) -> (r: Option<Vec<u8>>)
    ensures
        r is Some <==> spec_ecdsa_sign(secret@, message@) is Some,
        r is Some ==> Some(r->Some_0@) == spec_ecdsa_sign(secret@, message@),
        r is Some ==> r->Some_0@.len() <= MAX_SIGNATURE_LEN,
        r is Some ==> spec_secret_ok(secret@) && spec_ecdsa_verify(
            spec_public_key(secret@),
            message@,
            r->Some_0@,
        ),
{
    let key = k256::ecdsa::SigningKey::from_slice(secret).ok()?;
    let signature: k256::ecdsa::Signature = key.try_sign(message).ok()?;
    Some(signature.to_der().as_bytes().to_vec())
}

/// `verify` of `k256::ecdsa::VerifyingKey`, on a key read by
/// `from_sec1_bytes` and a signature read by `Signature::from_der`; false
/// where either cannot be read.
#[verifier::external_body]
fn secp256k1_verify(public_key: &[u8], message: &[u8], signature: &[u8]) -> (ok: bool)
    ensures
        ok == spec_ecdsa_verify(public_key@, message@, signature@),
{
    let key = match k256::ecdsa::VerifyingKey::from_sec1_bytes(public_key) {
        Ok(key) => key,
        Err(_) => return false,
    };
    let signature = match k256::ecdsa::Signature::from_der(signature) {
        Ok(signature) => signature,
        Err(_) => return false,
    };
    key.verify(message, &signature).is_ok()
}


/// The node's signing key: a secret scalar with its public key.
pub struct SigningKey {
    secret: Vec<u8>,
    public: Vec<u8>,
}

impl SigningKey {
    /// The secret is a scalar of 32 bytes, and the public key is its own.
    pub closed spec fn wf(&self) -> bool {
        &&& self.secret@.len() == SECRET_LEN
        &&& spec_secret_ok(self.secret@)
        &&& self.public@ == spec_public_key(self.secret@)
        &&& self.public@.len() == PUBLIC_KEY_LEN
    }

    /// The secret scalar.
    pub closed spec fn secret(&self) -> Seq<u8> {
        self.secret@
    }

    /// The public key in compressed SEC1 form.
    pub closed spec fn public(&self) -> Seq<u8> {
        self.public@
    }

    /// The key with this secret scalar: exactly 32 bytes that are accepted
    /// as one.
    pub fn from_bytes(secret: &[u8]) -> (key: Result<SigningKey, Error>)
        ensures
            key is Ok <==> secret@.len() == SECRET_LEN && spec_secret_ok(secret@),
            key is Ok ==> key->Ok_0.wf() && key->Ok_0.secret() == secret@ && key->Ok_0.public()
                == spec_public_key(secret@),
            key is Err ==> key->Err_0 == Error::Crypto(CryptoError::KeyLoad),
    {
        if secret.len() != SECRET_LEN {
            return Err(Error::Crypto(CryptoError::KeyLoad));
        }
        match secp256k1_public_key(secret) {
            Some(public) => Ok(SigningKey { secret: vstd::slice::slice_to_vec(secret), public }),
            None => Err(Error::Crypto(CryptoError::KeyLoad)),
        }
    }

    /// The public key in compressed SEC1 form.
    pub fn verifying_key_bytes(&self) -> (public: Vec<u8>)
        requires
            self.wf(),
        ensures
            public@ == self.public(),
            public@ == spec_public_key(self.secret()),
            public@.len() == PUBLIC_KEY_LEN,
    {
        self.public.clone()
    }

    /// Signs `message`. Signing fails only where the primitive yields no
    /// signature, and a signature that it yields verifies under this key's
    /// public key.
    pub fn sign(&self, message: &[u8]) -> (signature: Result<Vec<u8>, Error>)
        requires
            self.wf(),
        ensures
            match spec_ecdsa_sign(self.secret(), message@) {
                Some(s) => signature is Ok && signature->Ok_0@ == s && s.len() <= MAX_SIGNATURE_LEN
                    && spec_ecdsa_verify(self.public(), message@, s),
                None => signature == Err::<Vec<u8>, Error>(Error::Crypto(CryptoError::SignFailure)),
            },
    {
        match secp256k1_sign(self.secret.as_slice(), message) {
            Some(signature) => Ok(signature),
            None => Err(Error::Crypto(CryptoError::SignFailure)),
        }
    }
}

/// Whether `signature` is a signature of `message` under `public_key`.
pub fn verify(public_key: &[u8], message: &[u8], signature: &[u8]) -> (ok: bool)
    ensures
        ok == spec_ecdsa_verify(public_key@, message@, signature@),
{
    secp256k1_verify(public_key, message, signature)
}

} // verus!
