//! Loading the node's signing key from its configuration.

use crate::crypto::ecdsa::{spec_public_key, spec_secret_ok, SigningKey, SECRET_LEN};
use crate::error::{CryptoError, Error};
use crate::utils::config::Config;
use crate::utils::encoding::{base64_decode, hex_encode, spec_base64_decode, spec_hex};
use vstd::prelude::*;

verus! {

/// A text without the white space at its two ends.
pub uninterp spec fn spec_trim(text: Seq<char>) -> Seq<char>;

/// `str::trim` of std: the text with leading and trailing white space
/// removed.
#[verifier::external_body]
fn trim<'a>(text: &'a str) -> (trimmed: &'a str)
    ensures
        trimmed@ == spec_trim(text@),
{
    text.trim()
}

/// The secret that a configuration states, where it is base64 of exactly
/// 32 bytes that are accepted as a secret scalar.
pub open spec fn configured_secret(config: Config) -> Option<Seq<u8>> {
    match spec_base64_decode(spec_trim(config.secret@)) {
        Some(secret) => if secret.len() == SECRET_LEN && spec_secret_ok(secret) {
            Some(secret)
        } else {
            None
        },
        None => None,
    }
}

/// The signing key that the configuration states.
pub fn load_signing_key(config: &Config) -> (key: Result<SigningKey, Error>)
    ensures
        match configured_secret(*config) {
            Some(secret) => key is Ok && key->Ok_0.wf() && key->Ok_0.secret() == secret
                && key->Ok_0.public() == spec_public_key(secret),
            None => key is Err && key->Err_0 == Error::Crypto(CryptoError::KeyLoad),
        },
{
    match base64_decode(trim(config.secret.as_str())) {
        Some(secret) => SigningKey::from_bytes(secret.as_slice()),
        None => Err(Error::Crypto(CryptoError::KeyLoad)),
    }
}

/// The compressed public key of `signing_key` in hexadecimal.
pub fn get_pubkey_hex(signing_key: &SigningKey) -> (text: String)
    requires
        signing_key.wf(),
    ensures
        text@ == spec_hex(signing_key.public()),
        text@.len() == 66,
{
    let public = signing_key.verifying_key_bytes();
    hex_encode(public.as_slice())
}

} // verus!
