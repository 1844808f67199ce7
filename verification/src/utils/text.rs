//! Small pieces of text handling.

use vstd::prelude::*;

verus! {

/// The ten decimal digits.
pub open spec fn decimal_digits() -> Seq<char> {
    "0123456789"@
}

/// A number in decimal, without leading zeros.
pub open spec fn spec_decimal(n: nat) -> Seq<char>
    decreases n,
{
    if n < 10 {
        seq![decimal_digits()[n as int]]
    } else {
        spec_decimal(n / 10).push(decimal_digits()[(n % 10) as int])
    }
}

/// `to_string` of std on a `usize`: the number in decimal.
#[verifier::external_body]
pub(crate) fn decimal(n: usize) -> (text: String)
    ensures
        text@ == spec_decimal(n as nat),
{
    n.to_string()
}

/// `String::push` of std: appends one character.
#[verifier::external_body]
pub(crate) fn push_char(text: &mut String, c: char)
    ensures
        final(text)@ == old(text)@.push(c),
{
    text.push(c);
}

/// The pretty-printed JSON object with two members whose values are
/// texts.
pub uninterp spec fn spec_json_object(
    first_key: Seq<char>,
    first: Seq<char>,
    second_key: Seq<char>,
    second: Seq<char>,
) -> Seq<char>;

/// `serde_json::to_string_pretty` on an object of two members, built by
/// `serde_json::Map::insert`. Writing such an object does not fail.
#[verifier::external_body]
pub(crate) fn json_object(first_key: &str, first: &str, second_key: &str, second: &str) -> (text:
    Option<String>)
    ensures
        text is Some,
        text->Some_0@ == spec_json_object(first_key@, first@, second_key@, second@),
{
    let mut object = serde_json::Map::new();
    object.insert(first_key.to_owned(), serde_json::Value::String(first.to_owned()));
    object.insert(second_key.to_owned(), serde_json::Value::String(second.to_owned()));
    serde_json::to_string_pretty(&serde_json::Value::Object(object)).ok()
}

} // verus!
