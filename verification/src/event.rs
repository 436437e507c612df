use crate::decode::{
    decode, decode_err, found_or_null, record_decoded, well_shaped, DecodeError, FileRecord,
};
use crate::json::{chars_of, entries_of, lookup, lookup_spec, Json};
use vstd::prelude::*;

verus! {

/// The enclosing event notification: a `FileRecord` beside the scalar
/// fields of the record, decoded field by field from one JSON object.
#[derive(Debug)]
pub struct EventRecord {
    pub column_num: i32,
    pub event_name: String,
    pub file_data: FileRecord,
    pub filepath: String,
    pub line_num: i32,
}

/// A structural failure of the enclosing record's decode.
#[derive(Debug, PartialEq, Eq, Structural)]
pub enum EventError {
    /// The document is not an object.
    NotAnObject,
    /// `column_num` is absent, not a number, or not an integer in range.
    BadColumnNum,
    /// `event_name` is absent or not a string.
    BadEventName,
    /// `file_data` does not have the single-entry path-keyed shape.
    FileData(DecodeError),
    /// `filepath` is absent or not a string.
    BadFilepath,
    /// `line_num` is absent, not a number, or not an integer in range.
    BadLineNum,
}

/// The value a field of the object holds, `Null` when the field is absent.
pub open spec fn field_of(v: Json, key: Seq<char>) -> Json {
    found_or_null(lookup_spec(entries_of(v), key))
}

/// Does the field hold a number that is an integer representable in `i32`?
pub open spec fn int_field_ok(v: Json, key: Seq<char>) -> bool {
    field_of(v, key) matches Json::Num(Some(n)) && i32::MIN <= n <= i32::MAX
}

/// The integer a field holds; meaningful only where `int_field_ok`.
pub open spec fn int_field_value(v: Json, key: Seq<char>) -> int {
    match field_of(v, key) {
        Json::Num(Some(n)) => n as int,
        _ => 0,
    }
}

/// The exact shape `decode_event` accepts: an object whose five fields are
/// each present and of the wanted type, with a well-shaped `file_data`.
pub open spec fn event_well_shaped(v: Json) -> bool {
    &&& v is Obj
    &&& int_field_ok(v, "column_num"@)
    &&& field_of(v, "event_name"@) is Str
    &&& well_shaped(field_of(v, "file_data"@))
    &&& field_of(v, "filepath"@) is Str
    &&& int_field_ok(v, "line_num"@)
}

/// Does `ev` hold exactly the fields that a well-shaped `v` decodes to?
pub open spec fn event_decoded(v: Json, ev: EventRecord) -> bool {
    &&& ev.column_num == int_field_value(v, "column_num"@)
    &&& ev.event_name@ == chars_of(field_of(v, "event_name"@))
    &&& record_decoded(field_of(v, "file_data"@), ev.file_data)
    &&& ev.filepath@ == chars_of(field_of(v, "filepath"@))
    &&& ev.line_num == int_field_value(v, "line_num"@)
}

/// The error `decode_event` reports: the first field, in checking order,
/// that violates its expectation.
pub open spec fn event_err(v: Json) -> EventError {
    if !(v is Obj) {
        EventError::NotAnObject
    } else if !int_field_ok(v, "column_num"@) {
        EventError::BadColumnNum
    } else if !(field_of(v, "event_name"@) is Str) {
        EventError::BadEventName
    } else if !well_shaped(field_of(v, "file_data"@)) {
        EventError::FileData(decode_err(field_of(v, "file_data"@)))
    } else if !(field_of(v, "filepath"@) is Str) {
        EventError::BadFilepath
    } else {
        EventError::BadLineNum
    }
}

/// Reads a field that must hold an integer representable in `i32`.
fn int_field(entries: &Vec<(String, Json)>, key: &String) -> (r: Option<i32>)
    ensures
        r is Some <==> (found_or_null(lookup_spec(entries@, key@)) matches Json::Num(Some(n))
            && i32::MIN <= n <= i32::MAX),
        r matches Some(x) ==> (found_or_null(lookup_spec(entries@, key@)) matches Json::Num(
            Some(n),
        ) && x == n),
{
    match lookup(entries, key) {
        Some(Json::Num(Some(n))) => {
            let n = *n;
            if i32::MIN as i64 <= n && n <= i32::MAX as i64 {
                Some(n as i32)
            } else {
                None
            }
        },
        _ => None,
    }
}

/// Reads a field that must hold a string.
fn str_field<'a>(entries: &'a Vec<(String, Json)>, key: &String) -> (r: Option<&'a String>)
    ensures
        r is Some <==> found_or_null(lookup_spec(entries@, key@)) is Str,
        r matches Some(s) ==> chars_of(found_or_null(lookup_spec(entries@, key@))) == s@,
{
    match lookup(entries, key) {
        Some(Json::Str(s)) => Some(s),
        _ => None,
    }
}

/// Decodes a whole event notification from one JSON object.
///
/// The scalar fields are read field by field; the `file_data` field is
/// decoded by [`decode`], and its failure is carried through unchanged.
pub fn decode_event(v: &Json) -> (r: Result<EventRecord, EventError>)
    ensures
        r is Ok <==> event_well_shaped(*v),
        r matches Ok(ev) ==> event_decoded(*v, ev),
        r matches Err(e) ==> e == event_err(*v),
{
    let entries = match v {
        Json::Obj(es) => es,
        _ => {
            return Err(EventError::NotAnObject);
        },
    };
    let column_num = match int_field(entries, &"column_num".to_owned()) {
        Some(n) => n,
        None => {
            return Err(EventError::BadColumnNum);
        },
    };
    let event_name = match str_field(entries, &"event_name".to_owned()) {
        Some(s) => s.clone(),
        None => {
            return Err(EventError::BadEventName);
        },
    };
    let file_data = match lookup(entries, &"file_data".to_owned()) {
        Some(fd) => match decode(fd) {
            Ok(fr) => fr,
            Err(e) => {
                return Err(EventError::FileData(e));
            },
        },
        None => {
            return Err(EventError::FileData(DecodeError::NotAnObject));
        },
    };
    let filepath = match str_field(entries, &"filepath".to_owned()) {
        Some(s) => s.clone(),
        None => {
            return Err(EventError::BadFilepath);
        },
    };
    let line_num = match int_field(entries, &"line_num".to_owned()) {
        Some(n) => n,
        None => {
            return Err(EventError::BadLineNum);
        },
    };
    Ok(EventRecord { column_num, event_name, file_data, filepath, line_num })
}

} // verus!
