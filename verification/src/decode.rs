use crate::json::{
    chars_of, elems_of, entries_of, extract_strings, lookup, lookup_spec, string_values, Json,
};
use vstd::prelude::*;

verus! {

/// The flattened result of decoding a single-entry path-keyed object.
#[derive(Debug)]
pub struct FileRecord {
    /// The single top-level key: the file's path, kept as opaque text.
    pub absolute_path: String,
    /// The inner object's `contents` string.
    pub contents: String,
    /// The string elements of the inner object's `filetypes` array, in order.
    pub file_types: Vec<String>,
}

/// A structural decode failure: the input did not have the expected shape.
#[derive(Debug, PartialEq, Eq, Structural)]
pub enum DecodeError {
    /// The top-level value is not an object.
    NotAnObject,
    /// The top-level object does not have exactly one entry.
    NotSingleEntry { found: usize },
    /// The single entry's value is not itself an object.
    EntryNotAnObject,
    /// The inner object's `contents` is absent or not a string.
    BadContents,
    /// The inner object's `filetypes` is absent or not an array.
    BadFiletypes,
}

/// The message each error reports.
pub open spec fn message_spec(e: DecodeError) -> Seq<char> {
    match e {
        DecodeError::NotAnObject => "expected an object"@,
        DecodeError::NotSingleEntry { found: _ } => "expected exactly one entry"@,
        DecodeError::EntryNotAnObject => "expected the entry's value to be an object"@,
        DecodeError::BadContents => "expected a string under the key contents"@,
        DecodeError::BadFiletypes => "expected an array under the key filetypes"@,
    }
}

impl DecodeError {
    /// A human-readable account of the violated expectation.
    pub fn message(&self) -> (r: &'static str)
        ensures
            r@ == message_spec(*self),
    {
        match self {
            DecodeError::NotAnObject => "expected an object",
            DecodeError::NotSingleEntry { found: _ } => "expected exactly one entry",
            DecodeError::EntryNotAnObject => "expected the entry's value to be an object",
            DecodeError::BadContents => "expected a string under the key contents",
            DecodeError::BadFiletypes => "expected an array under the key filetypes",
        }
    }
}

/// The found value, or `Null` to stand for an absent one; `Null` never has
/// the shape of a wanted field, so an absent field fails the same checks.
pub open spec fn found_or_null(o: Option<Json>) -> Json {
    match o {
        Some(j) => j,
        None => Json::Null,
    }
}

/// The single entry's key of a single-entry object: the file's path.
pub open spec fn path_of(v: Json) -> Seq<char> {
    entries_of(v)[0].0@
}

/// The entries of the inner object: the one the single entry holds.
pub open spec fn inner_of(v: Json) -> Seq<(String, Json)> {
    entries_of(entries_of(v)[0].1)
}

/// The inner object's `contents` value, `Null` when absent.
pub open spec fn contents_of(v: Json) -> Json {
    found_or_null(lookup_spec(inner_of(v), "contents"@))
}

/// The inner object's `filetypes` value, `Null` when absent.
pub open spec fn filetypes_of(v: Json) -> Json {
    found_or_null(lookup_spec(inner_of(v), "filetypes"@))
}

/// The exact shape `decode` accepts: one entry, an inner object, a string
/// `contents` and an array `filetypes`.
pub open spec fn well_shaped(v: Json) -> bool {
    &&& v is Obj
    &&& entries_of(v).len() == 1
    &&& entries_of(v)[0].1 is Obj
    &&& contents_of(v) is Str
    &&& filetypes_of(v) is Arr
}

/// Does `fr` hold exactly the fields that a well-shaped `v` flattens to?
pub open spec fn record_decoded(v: Json, fr: FileRecord) -> bool {
    &&& fr.absolute_path@ == path_of(v)
    &&& fr.contents@ == chars_of(contents_of(v))
    &&& fr.file_types@.map_values(|s: String| s@) == string_values(elems_of(filetypes_of(v)))
}

/// The error `decode` reports for a value that is not well shaped: the first
/// structural expectation, in checking order, that the value violates.
pub open spec fn decode_err(v: Json) -> DecodeError {
    if !(v is Obj) {
        DecodeError::NotAnObject
    } else if entries_of(v).len() != 1 {
        DecodeError::NotSingleEntry { found: entries_of(v).len() as usize }
    } else if !(entries_of(v)[0].1 is Obj) {
        DecodeError::EntryNotAnObject
    } else if !(contents_of(v) is Str) {
        DecodeError::BadContents
    } else {
        DecodeError::BadFiletypes
    }
}

/// Decodes a single-entry path-keyed object into a flat `FileRecord`.
///
/// The input must be an object with exactly one entry, whose value is an
/// object holding a string under `contents` and an array under `filetypes`.
/// The single key becomes `absolute_path`; the array's string elements, in
/// their original order, become `file_types`, and its other elements are
/// silently dropped. Every other shape is rejected outright: in particular,
/// an object with several entries fails rather than having one entry picked.
pub fn decode(v: &Json) -> (r: Result<FileRecord, DecodeError>)
    ensures
        r is Ok <==> well_shaped(*v),
        r matches Ok(fr) ==> record_decoded(*v, fr),
        r matches Err(e) ==> e == decode_err(*v),
{
    let entries = match v {
        Json::Obj(es) => es,
        _ => {
            return Err(DecodeError::NotAnObject);
        },
    };
    if entries.len() != 1 {
        return Err(DecodeError::NotSingleEntry { found: entries.len() });
    }
    let inner = match &entries[0].1 {
        Json::Obj(es) => es,
        _ => {
            return Err(DecodeError::EntryNotAnObject);
        },
    };
    let contents = match lookup(inner, &"contents".to_owned()) {
        Some(Json::Str(c)) => c,
        _ => {
            return Err(DecodeError::BadContents);
        },
    };
    let filetypes = match lookup(inner, &"filetypes".to_owned()) {
        Some(Json::Arr(a)) => a,
        _ => {
            return Err(DecodeError::BadFiletypes);
        },
    };
    Ok(FileRecord {
        absolute_path: entries[0].0.clone(),
        contents: contents.clone(),
        file_types: extract_strings(filetypes),
    })
}

/// An object that does not have exactly one entry — empty, or with two or
/// more entries — is always rejected, with the entry count reported; no
/// entry is ever picked out of a larger object, however well formed its
/// values may be.
pub proof fn lemma_entry_count_rejected(v: Json)
    requires
        v is Obj,
        entries_of(v).len() != 1,
    ensures
        !well_shaped(v),
        decode_err(v) == (DecodeError::NotSingleEntry { found: entries_of(v).len() as usize }),
{
}

/// A single-entry object whose value is not itself an object — a string, a
/// number, or any other non-object — is always rejected.
pub proof fn lemma_non_object_value_rejected(v: Json)
    requires
        v is Obj,
        entries_of(v).len() == 1,
        !(entries_of(v)[0].1 is Obj),
    ensures
        !well_shaped(v),
        decode_err(v) == DecodeError::EntryNotAnObject,
{
}

/// A single-entry object whose inner object has no `contents`, or holds a
/// non-string — a number, say — under it, is always rejected.
pub proof fn lemma_bad_contents_rejected(v: Json)
    requires
        v is Obj,
        entries_of(v).len() == 1,
        entries_of(v)[0].1 is Obj,
        !(contents_of(v) is Str),
    ensures
        !well_shaped(v),
        decode_err(v) == DecodeError::BadContents,
{
}

/// A single-entry object whose inner object has no `filetypes`, or holds a
/// non-array under it, is always rejected.
pub proof fn lemma_bad_filetypes_rejected(v: Json)
    requires
        v is Obj,
        entries_of(v).len() == 1,
        entries_of(v)[0].1 is Obj,
        contents_of(v) is Str,
        !(filetypes_of(v) is Arr),
    ensures
        !well_shaped(v),
        decode_err(v) == DecodeError::BadFiletypes,
{
}

/// The projected file types are exactly the array's string elements: the
/// sequence obtained by keeping the strings, in their original order, and
/// removing every element that is not a string.
pub proof fn lemma_file_types_are_the_strings(elems: Seq<Json>)
    ensures
        string_values(elems) == elems.filter(|j: Json| j is Str).map_values(
            |j: Json| chars_of(j),
        ),
    decreases elems.len(),
{
    reveal(Seq::filter);
    let pred = |j: Json| j is Str;
    let f = |j: Json| chars_of(j);
    if elems.len() == 0 {
        assert(string_values(elems) =~= elems.filter(pred).map_values(f));
    } else {
        lemma_file_types_are_the_strings(elems.drop_last());
        if pred(elems.last()) {
            assert(elems.filter(pred) == elems.drop_last().filter(pred).push(elems.last()));
            assert(elems.filter(pred).map_values(f) =~= elems.drop_last().filter(pred).map_values(
                f,
            ) + seq![f(elems.last())]);
            assert(string_values(elems) =~= elems.filter(pred).map_values(f));
        } else {
            assert(elems.filter(pred) == elems.drop_last().filter(pred));
            assert(string_values(elems) =~= elems.filter(pred).map_values(f));
        }
    }
}

} // verus!
