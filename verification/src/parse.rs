//! Reading JSON text through serde_json.
//!
//! Parsing is the one place where the client leans on an outside crate:
//! `serde_json::from_str` decides whether a text is JSON and what value it
//! holds.  Its outcome depends on the text alone, so it is given the name
//! [`json_parse`]; everything downstream is verified against that name.

use vstd::prelude::*;

use crate::error::ClientError;
use crate::json::{JsonVal, JsonValue};
use serde_json::Value;

verus! {

/// What `serde_json::from_str` makes of a text, carried over into the
/// crate's own model: `None` stands for a parse error.
pub uninterp spec fn json_parse(s: Seq<char>) -> Option<JsonVal>;

/// Declares `serde_json::Value` so the conversion below may handle it;
/// the type stays opaque to the verifier.
#[verifier::external_type_specification]
#[verifier::external_body]
pub struct ExValue(Value);

/// Relies on the variants of `serde_json::Value`: each one moves into the
/// crate's own model, arrays and objects member for member; a number keeps
/// the text serde_json renders it with.
#[verifier::external_body]
fn from_serde(v: Value) -> JsonValue {
    match v {
        Value::Null => JsonValue::Null,
        Value::Bool(b) => JsonValue::Bool(b),
        Value::Number(n) => JsonValue::Num(n.to_string()),
        Value::String(s) => JsonValue::Str(s),
        Value::Array(a) => JsonValue::Arr(a.into_iter().map(from_serde).collect()),
        Value::Object(m) => JsonValue::Obj(
            m.into_iter().map(|(k, w)| (k, from_serde(w))).collect(),
        ),
    }
}

/// Relies on `serde_json::from_str::<serde_json::Value>`: it parses JSON
/// text, accepting or rejecting on the text alone, and `json_parse` names
/// its outcome in the crate's model.  The error text is serde_json's own.
#[verifier::external_body]
pub(crate) fn parse_json(s: &str) -> (r: Result<JsonValue, String>)
    ensures
        match r {
            Ok(v) => json_parse(s@) == Some(v@),
            Err(_) => json_parse(s@) is None,
        },
{
    match serde_json::from_str::<Value>(s) {
        Ok(v) => Ok(from_serde(v)),
        Err(e) => Err(e.to_string()),
    }
}

/// Reads one textual input into a value; anything that is not JSON is a
/// parse error carrying serde_json's complaint.
pub fn parse_input(s: &str) -> (r: Result<JsonValue, ClientError>)
    ensures
        match r {
            Ok(v) => json_parse(s@) == Some(v@),
            Err(e) => json_parse(s@) is None && e@ is Parse,
        },
{
    match parse_json(s) {
        Ok(v) => Ok(v),
        Err(m) => Err(ClientError::Parse(m)),
    }
}

} // verus!
