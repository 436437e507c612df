use crate::event::{decode_event, event_decoded, event_err, event_well_shaped, EventError, EventRecord};
use crate::json::Json;
use vstd::prelude::*;

verus! {

/// The value tree type of `serde_json`, declared so values of it can pass
/// through the trusted conversion below; opaque to the verifier.
#[verifier::external_type_specification]
#[verifier::external_body]
pub struct ExValue(serde_json::Value);

/// The `Json` tree that a JSON document parses to, `None` for text that is
/// not a JSON document. Parsing depends on the text alone; the name stands
/// for its result, which no short statement could pin down.
pub uninterp spec fn json_of(text: Seq<char>) -> Option<Json>;

/// Relies on `serde_json::from_str`: parses a JSON document into a value
/// tree, deterministically in the text alone, and fails exactly on text
/// that is not a JSON document.
#[verifier::external_body]
pub fn parse_json(text: &str) -> (r: Option<Json>)
    ensures
        r == json_of(text@),
{
    match serde_json::from_str::<serde_json::Value>(text) {
        Ok(v) => Some(to_json(v)),
        Err(_) => None,
    }
}

/// Relies on the variants of `serde_json::Value`: each is carried to the
/// matching `Json` variant, field for field; a number keeps its value
/// exactly where `Number::as_i64` gives one.
#[verifier::external_body]
fn to_json(v: serde_json::Value) -> (r: Json) {
    match v {
        serde_json::Value::Null => Json::Null,
        serde_json::Value::Bool(b) => Json::Bool(b),
        serde_json::Value::Number(n) => Json::Num(n.as_i64()),
        serde_json::Value::String(s) => Json::Str(s),
        serde_json::Value::Array(a) => Json::Arr(a.into_iter().map(to_json).collect()),
        serde_json::Value::Object(m) => Json::Obj(
            m.into_iter().map(|(k, x)| (k, to_json(x))).collect(),
        ),
    }
}

/// A failure of the whole-document decode.
#[derive(Debug, PartialEq, Eq, Structural)]
pub enum ParseError {
    /// The text is not a JSON document.
    Syntax,
    /// The document does not have the event-notification shape.
    Shape(EventError),
}

/// Parses a JSON document and decodes the event notification in it.
///
/// The parse is trusted to `serde_json`; everything after it — the whole
/// shape check and the flattening — is the verified [`decode_event`],
/// applied to whatever tree the parse produced.
pub fn parse_event(text: &str) -> (r: Result<EventRecord, ParseError>)
    ensures
        json_of(text@) is None ==> r == Err::<EventRecord, ParseError>(ParseError::Syntax),
        json_of(text@) matches Some(v) ==> {
            &&& r is Ok <==> event_well_shaped(v)
            &&& r matches Ok(ev) ==> event_decoded(v, ev)
            &&& r matches Err(e) ==> e == ParseError::Shape(event_err(v))
        },
{
    match parse_json(text) {
        Some(v) => match decode_event(&v) {
            Ok(ev) => Ok(ev),
            Err(e) => Err(ParseError::Shape(e)),
        },
        None => Err(ParseError::Syntax),
    }
}

} // verus!
