//! Where a message of a given type is kept on disk. Reading and writing
//! the files is left to the caller.

use crate::utils::text::push_char;
use vstd::prelude::*;
use vstd::string::{StrSliceExecFns, StringExecFns};

verus! {

/// The form in which a message is kept.
#[derive(Clone, Copy, Debug, PartialEq, Eq, Structural)]
pub enum Format {
    Json,
    Binary,
}

/// The directory in which messages are kept.
pub open spec fn storage_directory() -> Seq<char> {
    "persisted"@
}

/// The file name for a type name: every `::` becomes a dot, every angle
/// bracket an underscore.
pub open spec fn spec_type_to_filename(full_type: Seq<char>) -> Seq<char>
    decreases full_type.len(),
{
    if full_type.len() == 0 {
        Seq::empty()
    } else if full_type.len() >= 2 && full_type[0] == ':' && full_type[1] == ':' {
        seq!['.'] + spec_type_to_filename(full_type.skip(2))
    } else if full_type[0] == '<' || full_type[0] == '>' {
        seq!['_'] + spec_type_to_filename(full_type.skip(1))
    } else {
        seq![full_type[0]] + spec_type_to_filename(full_type.skip(1))
    }
}

/// The name of the file that keeps a message of a type in a form.
pub open spec fn spec_file_name(full_type: Seq<char>, format: Format) -> Seq<char> {
    match format {
        Format::Json => spec_type_to_filename(full_type) + ".json"@,
        Format::Binary => spec_type_to_filename(full_type),
    }
}

/// Turns a type name such as `a::b::Filter` into a file name.
pub fn type_to_filename(full_type: &str) -> (name: String)
    ensures
        name@ == spec_type_to_filename(full_type@),
{
    let len = full_type.unicode_len();
    let mut name = String::new();
    let mut i: usize = 0;
    assert(full_type@.skip(0) =~= full_type@);
    assert(name@ + spec_type_to_filename(full_type@) =~= spec_type_to_filename(full_type@));
    while i < len
        invariant
            i <= len,
            len == full_type@.len(),
            name@ + spec_type_to_filename(full_type@.skip(i as int)) == spec_type_to_filename(
                full_type@,
            ),
        decreases len - i,
    {
        let ghost rest = full_type@.skip(i as int);
        let ghost before = name@;
        let c = full_type.get_char(i);
        assert(rest[0] == c);
        if c == ':' && i + 1 < len && full_type.get_char(i + 1) == ':' {
            assert(rest[1] == ':');
            push_char(&mut name, '.');
            i += 2;
            assert(rest.skip(2) =~= full_type@.skip(i as int));
        } else if c == '<' || c == '>' {
            push_char(&mut name, '_');
            i += 1;
            assert(rest.skip(1) =~= full_type@.skip(i as int));
        } else {
            push_char(&mut name, c);
            i += 1;
            assert(rest.skip(1) =~= full_type@.skip(i as int));
        }
        assert(name@ + spec_type_to_filename(full_type@.skip(i as int)) =~= before
            + spec_type_to_filename(rest));
    }
    assert(name@ + Seq::<char>::empty() =~= name@);
    name
}

/// The name of the file that keeps a message of the type `full_type` in
/// the form `format`, within the storage directory.
pub fn file_name(full_type: &str, format: Format) -> (name: String)
    ensures
        name@ == spec_file_name(full_type@, format),
{
    let mut name = type_to_filename(full_type);
    match format {
        Format::Json => {
            name.append(".json");
        },
        Format::Binary => {},
    }
    name
}

} // verus!
