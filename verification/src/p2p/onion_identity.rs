//! The node's onion identity: an Ed25519 key pair, the address derived
//! from its public key, and proofs of control over that address.

use crate::crypto::ed25519::{
    ed25519_generate, ed25519_public, ed25519_sign, ed25519_verify, spec_ed25519_public,
    spec_ed25519_sign, spec_ed25519_verify, KEY_LEN, SIGNATURE_LEN,
};
use crate::crypto::hash::{sha3_256, spec_sha3_256};
use crate::utils::encoding::{
    base32_decode, base32_encode, same_bytes, spec_base32, spec_base32_decode, MAX_BASE32_TEXT,
};
use crate::wire::append_bytes;
use vstd::prelude::*;
use vstd::string::StringExecFns;
use vstd::utf8::encode_utf8;

verus! {

/// The version of the address format.
pub const ONION_VERSION: u8 = 3;

/// A text in lower case.
pub uninterp spec fn spec_lowercase(text: Seq<char>) -> Seq<char>;

/// A text in upper case.
pub uninterp spec fn spec_uppercase(text: Seq<char>) -> Seq<char>;

/// `str::to_lowercase` of std: the lower-case equivalent of the text.
#[verifier::external_body]
fn lowercase(text: &str) -> (lower: String)
    ensures
        lower@ == spec_lowercase(text@),
{
    text.to_lowercase()
}

/// `str::to_uppercase` of std: the upper-case equivalent of the text.
#[verifier::external_body]
fn uppercase(text: &str) -> (upper: String)
    ensures
        upper@ == spec_uppercase(text@),
{
    text.to_uppercase()
}

/// A text without any repetition of `suffix` at its end.
pub open spec fn without_suffix(text: Seq<char>, suffix: Seq<char>) -> Seq<char>
    decreases text.len(),
{
    if 0 < suffix.len() <= text.len() && text.skip(text.len() - suffix.len()) == suffix {
        without_suffix(text.take(text.len() - suffix.len()), suffix)
    } else {
        text
    }
}

/// `str::trim_end_matches` of std with a text as the pattern: the text
/// with every suffix that matches the pattern removed, repeatedly.
#[verifier::external_body]
fn trim_end_matches<'a>(text: &'a str, suffix: &str) -> (trimmed: &'a str)
    requires
        suffix@.len() > 0,
    ensures
        trimmed@ == without_suffix(text@, suffix@),
{
    text.trim_end_matches(suffix)
}

/// The ending of every onion address.
pub open spec fn onion_suffix() -> Seq<char> {
    ".onion"@
}

/// What the checksum of an address is taken over: a fixed text, the
/// public key and the version.
pub open spec fn checksum_input(public_key: Seq<u8>) -> Seq<u8> {
    encode_utf8(".onion checksum"@) + public_key + seq![ONION_VERSION]
}

/// The bytes that an address encodes: the public key, the first two
/// bytes of the checksum and the version.
pub open spec fn onion_bytes(public_key: Seq<u8>) -> Seq<u8> {
    public_key + spec_sha3_256(checksum_input(public_key)).take(2) + seq![ONION_VERSION]
}

/// The onion address of a public key.
pub open spec fn spec_onion_address(public_key: Seq<u8>) -> Seq<char> {
    spec_lowercase(spec_base32(onion_bytes(public_key))) + onion_suffix()
}

/// The base32 text of an address: the address without its suffix, in
/// upper case.
pub open spec fn address_text(onion_address: Seq<char>) -> Seq<char> {
    spec_uppercase(without_suffix(onion_address, onion_suffix()))
}

/// The bytes that an address encodes, if its text is well formed and no
/// longer than a base32 text may be.
pub open spec fn address_bytes(onion_address: Seq<char>) -> Option<Seq<u8>> {
    if encode_utf8(address_text(onion_address)).len() <= MAX_BASE32_TEXT {
        spec_base32_decode(address_text(onion_address))
    } else {
        None
    }
}

/// The public key that an address holds: the first 32 of the bytes it
/// encodes, if it encodes as many.
pub open spec fn address_key(onion_address: Seq<char>) -> Option<Seq<u8>> {
    match address_bytes(onion_address) {
        Some(bytes) => if bytes.len() >= KEY_LEN {
            Some(bytes.take(KEY_LEN as int))
        } else {
            None
        },
        None => None,
    }
}

/// Whether `signature` proves control of `onion_address` over `nonce`:
/// the address holds a public key, and the signature of the nonce
/// verifies under it.
pub open spec fn spec_verify_signature(
    onion_address: Seq<char>,
    nonce: Seq<u8>,
    signature: Seq<u8>,
) -> bool {
    match address_key(onion_address) {
        Some(public_key) => spec_ed25519_verify(public_key, nonce, signature),
        None => false,
    }
}

/// An Ed25519 key pair.
#[derive(Clone, Debug, PartialEq, Eq)]
pub struct Keypair {
    pub secret: [u8; 32],
    pub public: [u8; 32],
}

impl Keypair {
    /// The public key is the one of the secret key.
    pub open spec fn wf(&self) -> bool {
        self.public@ == spec_ed25519_public(self.secret@)
    }
}

/// The identity under which a node is reached.
#[derive(Clone, Debug, PartialEq, Eq)]
pub struct OnionIdentity {
    pub keypair: Keypair,
}

fn key_array(bytes: &Vec<u8>) -> (array: [u8; 32])
    requires
        bytes@.len() == KEY_LEN,
    ensures
        array@ == bytes@,
{
    let mut array = [0u8;32];
    let mut i: usize = 0;
    while i < 32
        invariant
            i <= 32,
            bytes@.len() == 32,
            forall|j: int| 0 <= j < i ==> array@[j] == bytes@[j],
        decreases 32 - i,
    {
        array[i] = bytes[i];
        i += 1;
    }
    assert(array@ =~= bytes@);
    array
}

/// A fresh key pair from the operating system's random source.
pub fn generate_keypair() -> (keypair: Keypair)
    ensures
        keypair.wf(),
{
    let (secret, public) = ed25519_generate();
    Keypair { secret: key_array(&secret), public: key_array(&public) }
}

/// The key pair of a secret key.
pub fn keypair_from_secret(secret: &[u8; 32]) -> (keypair: Keypair)
    ensures
        keypair.wf(),
        keypair.secret@ == secret@,
{
    let public = match ed25519_public(secret) {
        Some(public) => public,
        None => vstd::pervasive::unreached(),
    };
    Keypair { secret: *secret, public: key_array(&public) }
}

/// The onion address of a public key: base32, in lower case, of the key,
/// a checksum of two bytes and the version, with the suffix of all onion
/// addresses.
pub fn get_onion_address(public_key: &[u8; 32]) -> (address: String)
    ensures
        address@ == spec_onion_address(public_key@),
{
    let mut hashed: Vec<u8> = Vec::new();
    append_bytes(&mut hashed, ".onion checksum".as_bytes());
    append_bytes(&mut hashed, public_key.as_slice());
    hashed.push(ONION_VERSION);
    assert(hashed@ =~= checksum_input(public_key@));
    let hash = sha3_256(hashed.as_slice());
    let mut onion: Vec<u8> = Vec::new();
    append_bytes(&mut onion, public_key.as_slice());
    onion.push(hash[0]);
    onion.push(hash[1]);
    onion.push(ONION_VERSION);
    assert(onion@ =~= onion_bytes(public_key@));
    let mut address = lowercase(base32_encode(onion.as_slice()).as_str());
    address.append(".onion");
    address
}

/// Signs a challenge with the secret key of the address. The signature
/// verifies under the public key of that secret key.
pub fn sign_nonce(secret_key_bytes: &[u8; 32], nonce: &[u8]) -> (signature: Vec<u8>)
    ensures
        signature@ == spec_ed25519_sign(secret_key_bytes@, nonce@),
        signature@.len() == SIGNATURE_LEN,
        spec_ed25519_verify(spec_ed25519_public(secret_key_bytes@), nonce@, signature@),
{
    match ed25519_sign(secret_key_bytes, nonce) {
        Some(signature) => signature,
        None => vstd::pervasive::unreached(),
    }
}

/// The public key that an address holds, if the address can be read and
/// is no longer than a base32 text may be.
pub fn public_key_of_address(onion_address: &str) -> (public_key: Option<Vec<u8>>)
    ensures
        match address_key(onion_address@) {
            Some(key) => public_key is Some && public_key->Some_0@ == key,
            None => public_key is None,
        },
{
    proof {
        reveal_strlit(".onion");
    }
    let bare = uppercase(trim_end_matches(onion_address, ".onion"));
    if bare.as_str().as_bytes().len() > MAX_BASE32_TEXT {
        return None;
    }
    match base32_decode(bare.as_str()) {
        Some(decoded) => {
            if decoded.len() < KEY_LEN {
                return None;
            }
            let key = vstd::slice::slice_to_vec(
                vstd::slice::slice_subrange(decoded.as_slice(), 0, KEY_LEN),
            );
            assert(key@ =~= decoded@.take(KEY_LEN as int));
            Some(key)
        },
        None => None,
    }
}

/// Whether `signature_bytes` proves control of `onion_address` over
/// `nonce`. An address or a signature that cannot be read proves nothing,
/// nor does an address longer than a base32 text may be.
pub fn verify_signature(onion_address: &str, nonce: &[u8], signature_bytes: &[u8]) -> (ok: bool)
    ensures
        ok == spec_verify_signature(onion_address@, nonce@, signature_bytes@),
{
    match public_key_of_address(onion_address) {
        Some(public_key) => ed25519_verify(public_key.as_slice(), nonce, signature_bytes),
        None => false,
    }
}

/// Proves control of the address of a secret key over `nonce`: gives the
/// address and the signature of the nonce, after checking that the
/// address reads back as the key. With what it gives, `verify_signature`
/// says yes. There is no result where the address does not read back.
pub fn prove_liveness(secret_key_bytes: &[u8; 32], nonce: &[u8]) -> (proved: Option<
    (String, Vec<u8>),
>)
    ensures
        match proved {
            Some((address, signature)) => {
                &&& address@ == spec_onion_address(spec_ed25519_public(secret_key_bytes@))
                &&& signature@ == spec_ed25519_sign(secret_key_bytes@, nonce@)
                &&& spec_verify_signature(address@, nonce@, signature@)
            },
            None => address_key(spec_onion_address(spec_ed25519_public(secret_key_bytes@)))
                != Some(spec_ed25519_public(secret_key_bytes@)),
        },
{
    let keypair = keypair_from_secret(secret_key_bytes);
    let address = get_onion_address(&keypair.public);
    match public_key_of_address(address.as_str()) {
        Some(read) => if same_bytes(read.as_slice(), keypair.public.as_slice()) {
            Some((address, sign_nonce(secret_key_bytes, nonce)))
        } else {
            None
        },
        None => None,
    }
}

impl OnionIdentity {
    /// A fresh identity.
    pub fn generate() -> (identity: OnionIdentity)
        ensures
            identity.keypair.wf(),
    {
        OnionIdentity { keypair: generate_keypair() }
    }

    /// The address of the identity.
    pub fn address(&self) -> (address: String)
        ensures
            address@ == spec_onion_address(self.keypair.public@),
    {
        get_onion_address(&self.keypair.public)
    }

    /// Signs a challenge. The signature verifies under the identity's
    /// public key.
    pub fn sign_liveness(&self, nonce: &[u8]) -> (signature: Vec<u8>)
        requires
            self.keypair.wf(),
        ensures
            signature@ == spec_ed25519_sign(self.keypair.secret@, nonce@),
            spec_ed25519_verify(self.keypair.public@, nonce@, signature@),
    {
        sign_nonce(&self.keypair.secret, nonce)
    }
}

} // verus!
