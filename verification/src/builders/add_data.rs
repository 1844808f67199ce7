//! Sealing a payload into a signed entry, and checking such an entry.

use crate::crypto::ecdsa::{
    spec_ecdsa_sign, spec_ecdsa_verify, spec_public_key, verify as ecdsa_verify, SigningKey,
};
use crate::crypto::hash::{sha256, spec_sha256};
use crate::error::{CryptoError, Error};
use crate::messages::storage::{
    AddDataMessage, AddDataMessageView, ProtectedStorageEntry, ProtectedStorageEntryView,
    StorageEntryWrapper, StorageEntryWrapperView, StoragePayload, StoragePayloadView,
};
use crate::utils::clock::now_millis;
use crate::utils::config::Config;
use crate::utils::signing::{configured_secret, load_signing_key};
use crate::utils::encoding::{base64_reads_back, base64_text, spec_base64, spec_base64_decode};
use vstd::prelude::*;

verus! {

/// What is signed of a payload: the SHA-256 digest of its canonical
/// bytes.
pub open spec fn payload_digest(payload: StoragePayloadView) -> Seq<u8> {
    spec_sha256(payload.encode())
}

/// The signature of a payload under a secret, where signing yields one.
pub open spec fn spec_payload_signature(secret: Seq<u8>, payload: StoragePayloadView) -> Option<
    Seq<u8>,
> {
    spec_ecdsa_sign(secret, payload_digest(payload))
}

/// Whether `signature` is a signature of `payload` under
/// `owner_public_key`.
pub open spec fn spec_verify(
    owner_public_key: Seq<u8>,
    payload: StoragePayloadView,
    signature: Seq<u8>,
) -> bool {
    spec_ecdsa_verify(owner_public_key, payload_digest(payload), signature)
}

/// Whether the signature of an entry verifies under the owner key over
/// the payload: what a receiving node requires of every entry.
pub open spec fn entry_verifies(entry: ProtectedStorageEntryView) -> bool {
    spec_verify(entry.owner_pub_key_bytes, entry.storage_payload, entry.signature)
}

/// The message that publishes `payload` as an entry.
pub open spec fn sealed_message(
    payload: StoragePayloadView,
    owner_public_key: Seq<u8>,
    sequence_number: u32,
    signature: Seq<u8>,
    created_at_ms: i64,
) -> AddDataMessageView {
    AddDataMessageView {
        entry: StorageEntryWrapperView::ProtectedStorageEntry(
            ProtectedStorageEntryView {
                storage_payload: payload,
                owner_pub_key_bytes: owner_public_key,
                sequence_number,
                signature,
                creation_time_stamp: created_at_ms,
            },
        ),
    }
}

/// Signs the SHA-256 digest of the canonical bytes of `storage_payload`.
fn payload_signature(storage_payload: &StoragePayload, key: &SigningKey) -> (signature: Result<
    Vec<u8>,
    Error,
>)
    requires
        key.wf(),
    ensures
        match spec_payload_signature(key.secret(), storage_payload@) {
            Some(s) => signature is Ok && signature->Ok_0@ == s && s.len() <= 73 && spec_verify(
                key.public(),
                storage_payload@,
                s,
            ),
            None => signature == Err::<Vec<u8>, Error>(Error::Crypto(CryptoError::SignFailure)),
        },
{
    let bytes = storage_payload.to_bytes();
    let digest = sha256(bytes.as_slice());
    key.sign(digest.as_slice())
}

/// Signs a payload. Gives the signature in base64 and the public key of
/// the signer. The text reads back as the signature, and the signature
/// verifies under that key over this payload; there is no result where
/// signing fails or the text would not read back.
pub fn sign_storage_payload(storage_payload: &StoragePayload, key: &SigningKey) -> (signed: Result<
    (String, Vec<u8>),
    Error,
>)
    requires
        key.wf(),
    ensures
        match spec_payload_signature(key.secret(), storage_payload@) {
            Some(s) => if base64_reads_back(s) {
                signed is Ok && signed->Ok_0.0@ == spec_base64(s) && spec_base64_decode(
                    signed->Ok_0.0@,
                ) == Some(s) && signed->Ok_0.1@ == key.public() && spec_verify(
                    signed->Ok_0.1@,
                    storage_payload@,
                    s,
                )
            } else {
                signed == Err::<(String, Vec<u8>), Error>(Error::Crypto(CryptoError::SignFailure))
            },
            None => signed == Err::<(String, Vec<u8>), Error>(
                Error::Crypto(CryptoError::SignFailure),
            ),
        },
{
    match payload_signature(storage_payload, key) {
        Ok(signature) => match base64_text(signature.as_slice()) {
            Some(text) => Ok((text, key.verifying_key_bytes())),
            None => Err(Error::Crypto(CryptoError::SignFailure)),
        },
        Err(err) => Err(err),
    }
}

/// Whether `signature` is a signature of `payload` under
/// `owner_public_key`.
pub fn verify(owner_public_key: &[u8], payload: &StoragePayload, signature: &[u8]) -> (ok: bool)
    ensures
        ok == spec_verify(owner_public_key@, payload@, signature@),
{
    let bytes = payload.to_bytes();
    let digest = sha256(bytes.as_slice());
    ecdsa_verify(owner_public_key, digest.as_slice(), signature)
}

/// Whether the signature of `entry` verifies under its owner key.
pub fn verify_entry(entry: &ProtectedStorageEntry) -> (ok: bool)
    ensures
        ok == entry_verifies(entry@),
{
    verify(
        entry.owner_pub_key_bytes.as_slice(),
        &entry.storage_payload,
        entry.signature.as_slice(),
    )
}

/// Seals `payload` into an entry owned by `key`, with the sequence number
/// and the creation time given, and wraps it for publication. The entry
/// that comes out verifies; there is none where signing fails.
pub fn build_add_data_message_at(
    payload: StoragePayload,
    key: &SigningKey,
    sequence_number: u32,
    created_at_ms: i64,
) -> (built: Result<AddDataMessage, Error>)
    requires
        key.wf(),
    ensures
        match spec_payload_signature(key.secret(), payload@) {
            Some(s) => built is Ok && built->Ok_0@ == sealed_message(
                payload@,
                key.public(),
                sequence_number,
                s,
                created_at_ms,
            ) && entry_verifies(built->Ok_0@.entry.entry()),
            None => built is Err && built->Err_0 == Error::Crypto(CryptoError::SignFailure),
        },
{
    let signature = match payload_signature(&payload, key) {
        Ok(signature) => signature,
        Err(err) => {
            return Err(err);
        },
    };
    let entry = ProtectedStorageEntry {
        storage_payload: payload,
        owner_pub_key_bytes: key.verifying_key_bytes(),
        sequence_number,
        signature,
        creation_time_stamp: created_at_ms,
    };
    Ok(AddDataMessage { entry: StorageEntryWrapper::ProtectedStorageEntry(entry) })
}

/// Seals `payload` into an entry created now.
pub fn build_add_data_message(payload: StoragePayload, key: &SigningKey, sequence_number: u32) -> (built:
    Result<AddDataMessage, Error>)
    requires
        key.wf(),
    ensures
        match spec_payload_signature(key.secret(), payload@) {
            Some(s) => built is Ok && built->Ok_0@ == sealed_message(
                payload@,
                key.public(),
                sequence_number,
                s,
                built->Ok_0@.entry.entry().creation_time_stamp,
            ) && entry_verifies(built->Ok_0@.entry.entry()),
            None => built is Err && built->Err_0 == Error::Crypto(CryptoError::SignFailure),
        },
{
    build_add_data_message_at(payload, key, sequence_number, now_millis())
}

/// Seals `storage_payload` into an entry created now and checks the
/// entry's signature before handing it out, as a receiving node will.
pub fn build_signed_add_data_message(
    storage_payload: StoragePayload,
    key: &SigningKey,
    sequence_number: u32,
) -> (built: Result<AddDataMessage, Error>)
    requires
        key.wf(),
    ensures
        match spec_payload_signature(key.secret(), storage_payload@) {
            Some(s) => built is Ok && built->Ok_0@ == sealed_message(
                storage_payload@,
                key.public(),
                sequence_number,
                s,
                built->Ok_0@.entry.entry().creation_time_stamp,
            ) && entry_verifies(built->Ok_0@.entry.entry()),
            None => built is Err && built->Err_0 == Error::Crypto(CryptoError::SignFailure),
        },
{
    let message = match build_add_data_message(storage_payload, key, sequence_number) {
        Ok(message) => message,
        Err(err) => {
            return Err(err);
        },
    };
    let verified = match &message.entry {
        StorageEntryWrapper::ProtectedStorageEntry(entry) => verify_entry(entry),
    };
    if verified {
        Ok(message)
    } else {
        Err(Error::Crypto(CryptoError::VerifyFailure))
    }
}

/// Seals `storage_payload` into an entry created now, under the signing
/// key that the configuration states. There is no entry where the
/// configuration states no usable key, nor where signing fails.
pub fn build_signed_add_data_message_with_config(
    config: &Config,
    storage_payload: StoragePayload,
    sequence_number: u32,
) -> (built: Result<AddDataMessage, Error>)
    ensures
        match configured_secret(*config) {
            None => built is Err && built->Err_0 == Error::Crypto(CryptoError::KeyLoad),
            Some(secret) => match spec_payload_signature(secret, storage_payload@) {
                Some(s) => built is Ok && built->Ok_0@ == sealed_message(
                    storage_payload@,
                    spec_public_key(secret),
                    sequence_number,
                    s,
                    built->Ok_0@.entry.entry().creation_time_stamp,
                ) && entry_verifies(built->Ok_0@.entry.entry()),
                None => built is Err && built->Err_0 == Error::Crypto(CryptoError::SignFailure),
            },
        },
{
    match load_signing_key(config) {
        Ok(key) => build_signed_add_data_message(storage_payload, &key, sequence_number),
        Err(reason) => Err(reason),
    }
}

} // verus!
