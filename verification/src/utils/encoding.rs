//! Text forms of byte strings: hexadecimal, base64 and base32.

use base64::Engine;
use vstd::prelude::*;
use vstd::utf8::encode_utf8;

verus! {

/// The longest byte string that is turned into hexadecimal or base64 in
/// one piece.
pub const MAX_ENCODE_INPUT: usize = 0x3fff_ffff;

/// The longest byte string that is turned into base32 in one piece.
pub const MAX_BASE32_INPUT: usize = 8_388_607;

/// The longest base32 text, in bytes, that is read in one piece.
pub const MAX_BASE32_TEXT: usize = 0x1fff_ffff;

/// The sixteen hexadecimal digits, lower case.
pub open spec fn hex_digits() -> Seq<char> {
    "0123456789abcdef"@
}

/// Two digits for every byte, the high half first.
pub open spec fn spec_hex(bytes: Seq<u8>) -> Seq<char> {
    Seq::new(
        2 * bytes.len(),
        |i: int|
            if i % 2 == 0 {
                hex_digits()[bytes[i / 2] as int / 16]
            } else {
                hex_digits()[bytes[i / 2] as int % 16]
            },
    )
}

/// The base64 text of a byte string: standard alphabet, padded.
pub uninterp spec fn spec_base64(bytes: Seq<u8>) -> Seq<char>;

/// The bytes that a base64 text stands for, if it is well formed.
pub uninterp spec fn spec_base64_decode(text: Seq<char>) -> Option<Seq<u8>>;

/// The base32 text of a byte string: RFC 4648 alphabet in upper case, no
/// padding.
pub uninterp spec fn spec_base32(bytes: Seq<u8>) -> Seq<char>;

/// The bytes that a base32 text stands for, if it is well formed.
pub uninterp spec fn spec_base32_decode(text: Seq<char>) -> Option<Seq<u8>>;

/// `hex::encode`: for every byte its two digits from the table
/// `0123456789abcdef`, the high four bits first.
#[verifier::external_body]
pub(crate) fn hex_encode(bytes: &[u8]) -> (text: String)
    requires
        bytes@.len() <= MAX_ENCODE_INPUT,
    ensures
        text@ == spec_hex(bytes@),
{
    hex::encode(bytes)
}

/// `encode` of `base64::engine::general_purpose::STANDARD`.
#[verifier::external_body]
pub(crate) fn base64_encode(bytes: &[u8]) -> (text: String)
    requires
        bytes@.len() <= MAX_ENCODE_INPUT,
    ensures
        text@ == spec_base64(bytes@),
{
    base64::engine::general_purpose::STANDARD.encode(bytes)
}

/// `decode` of `base64::engine::general_purpose::STANDARD`; nothing where
/// it reports an error.
#[verifier::external_body]
pub(crate) fn base64_decode(text: &str) -> (bytes: Option<Vec<u8>>)
    ensures
        bytes is Some <==> spec_base64_decode(text@) is Some,
        bytes is Some ==> Some(bytes->Some_0@) == spec_base64_decode(text@),
{
    base64::engine::general_purpose::STANDARD.decode(text).ok()
}

/// `encode` of `data_encoding::BASE32_NOPAD`, which takes inputs up to
/// the length that its `encode_len` documents for every target.
#[verifier::external_body]
pub(crate) fn base32_encode(bytes: &[u8]) -> (text: String)
    requires
        bytes@.len() <= MAX_BASE32_INPUT,
    ensures
        text@ == spec_base32(bytes@),
{
    data_encoding::BASE32_NOPAD.encode(bytes)
}

/// `decode` of `data_encoding::BASE32_NOPAD`; nothing where it reports an
/// error. It takes texts up to the length in bytes that its `decode_len`
/// documents for every target.
#[verifier::external_body]
pub(crate) fn base32_decode(text: &str) -> (bytes: Option<Vec<u8>>)
    requires
        encode_utf8(text@).len() <= MAX_BASE32_TEXT,
    ensures
        bytes is Some <==> spec_base32_decode(text@) is Some,
        bytes is Some ==> Some(bytes->Some_0@) == spec_base32_decode(text@),
{
    data_encoding::BASE32_NOPAD.decode(text.as_bytes()).ok()
}

/// Whether the base64 text of a byte string reads back as that byte
/// string.
pub open spec fn base64_reads_back(bytes: Seq<u8>) -> bool {
    spec_base64_decode(spec_base64(bytes)) == Some(bytes)
}

/// Whether two byte strings are the same.
pub fn same_bytes(a: &[u8], b: &[u8]) -> (same: bool)
    ensures
        same == (a@ == b@),
{
    if a.len() != b.len() {
        return false;
    }
    let mut i: usize = 0;
    while i < a.len()
        invariant
            i <= a@.len(),
            a@.len() == b@.len(),
            forall|j: int| 0 <= j < i ==> a@[j] == b@[j],
        decreases a@.len() - i,
    {
        if a[i] != b[i] {
            return false;
        }
        i += 1;
    }
    assert(a@ =~= b@);
    true
}

/// The base64 text of `bytes`, checked by reading it back: there is none
/// where the text does not stand for the bytes.
pub fn base64_text(bytes: &[u8]) -> (text: Option<String>)
    requires
        bytes@.len() <= MAX_ENCODE_INPUT,
    ensures
        match text {
            Some(t) => t@ == spec_base64(bytes@) && spec_base64_decode(t@) == Some(bytes@),
            None => !base64_reads_back(bytes@),
        },
{
    let text = base64_encode(bytes);
    match base64_decode(text.as_str()) {
        Some(read) => if same_bytes(read.as_slice(), bytes) {
            Some(text)
        } else {
            None
        },
        None => None,
    }
}

} // verus!
