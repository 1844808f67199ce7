//! The digests the protocol uses.

use sha2::Digest;
use vstd::prelude::*;

verus! {

/// The SHA-256 digest of a byte string.
pub uninterp spec fn spec_sha256(data: Seq<u8>) -> Seq<u8>;

/// The SHA3-256 digest of a byte string.
pub uninterp spec fn spec_sha3_256(data: Seq<u8>) -> Seq<u8>;

/// `sha2::Sha256::digest`: the SHA-256 digest of `data`, which has 32
/// bytes.
#[verifier::external_body]
pub(crate) fn sha256_digest(data: &[u8]) -> (digest: Vec<u8>)
    ensures
        digest@ == spec_sha256(data@),
        digest@.len() == 32,
{
    sha2::Sha256::digest(data).to_vec()
}

/// `sha3::Sha3_256::digest`: the SHA3-256 digest of `data`, which has 32
/// bytes.
#[verifier::external_body]
pub(crate) fn sha3_256_digest(data: &[u8]) -> (digest: Vec<u8>)
    ensures
        digest@ == spec_sha3_256(data@),
        digest@.len() == 32,
{
    sha3::Sha3_256::digest(data).to_vec()
}

/// The SHA-256 digest of `data`.
pub fn sha256(data: &[u8]) -> (digest: Vec<u8>)
    ensures
        digest@ == spec_sha256(data@),
        digest@.len() == 32,
{
    sha256_digest(data)
}

/// The SHA3-256 digest of `data`.
pub fn sha3_256(data: &[u8]) -> (digest: Vec<u8>)
    ensures
        digest@ == spec_sha3_256(data@),
        digest@.len() == 32,
{
    sha3_256_digest(data)
}

} // verus!
