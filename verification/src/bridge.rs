//! The trusted boundary to serde_json.
//!
//! The codec's own logic is verified against the `JsonModel` image of a
//! document.  Reading a document from text, and writing one out, is the work
//! of serde_json; the items here carry a document across that boundary and
//! state, without proof, how the result relates to the model:
//!
//! - `json_of_text(s)` names the model (if any) that serde_json parses out of
//!   the text `s`; parsing is a function of the text alone.
//! - `value_model(v)` names the model a `serde_json::Value` holds.  A JSON
//!   object is a map, so the model of an object collapses member order and
//!   repeated keys (later wins), exactly as serde_json's `Map` does.  A number
//!   outside the unsigned 64-bit range — the only native number the protocol
//!   carries — is modelled as `Null`, and so is rejected wherever the decoder
//!   requires a number.
//! - `json_text_of(j)` names the text serde_json writes for a value holding
//!   the model `j`; the text depends on the model alone, because serde_json's
//!   map is ordered by key and prints in that order.

use vstd::prelude::*;

use crate::json::{model_of, JsonModel, JsonValue};

verus! {

#[verifier::external_type_specification]
#[verifier::external_body]
pub struct ExValue(serde_json::Value);

pub uninterp spec fn value_model(v: serde_json::Value) -> JsonModel;

pub uninterp spec fn json_of_text(s: Seq<char>) -> Option<JsonModel>;

pub uninterp spec fn json_text_of(j: JsonModel) -> Seq<char>;

/// Relies on `serde_json::from_str::<serde_json::Value>`: the parse is a
/// function of the text alone, and fails exactly where the text is not a
/// JSON document (or is nested beyond serde_json's depth limit).
#[verifier::external_body]
pub(crate) fn from_str_value(s: &str) -> (r: Option<serde_json::Value>)
    ensures
        r matches Some(v) ==> json_of_text(s@) == Some(value_model(v)),
        r is None ==> json_of_text(s@) is None,
{
    serde_json::from_str(s).ok()
}

/// Relies on the public shape of `serde_json::Value` and on
/// `serde_json::Number::as_u64`: each variant of the document is carried over
/// to the codec's own tree, numbers outside the unsigned 64-bit range
/// becoming `Null` as `value_model` describes.
#[verifier::external_body]
pub(crate) fn value_to_json(v: serde_json::Value) -> (r: JsonValue)
    ensures
        model_of(r) == value_model(v),
{
    match v {
        serde_json::Value::Null => JsonValue::Null,
        serde_json::Value::Bool(b) => JsonValue::Bool(b),
        serde_json::Value::Number(n) => match n.as_u64() {
            Some(u) => JsonValue::Num(u),
            None => JsonValue::Null,
        },
        serde_json::Value::String(s) => JsonValue::Str(s),
        serde_json::Value::Array(a) => JsonValue::Arr(a.into_iter().map(value_to_json).collect()),
        serde_json::Value::Object(m) => JsonValue::Obj(
            m.into_iter().map(|e| (e.0, value_to_json(e.1))).collect(),
        ),
    }
}

/// Relies on constructing `serde_json::Value` from its public parts; members
/// of an object are inserted in list order, so a repeated key keeps the last
/// value, as the model does.
#[verifier::external_body]
pub(crate) fn json_to_value(j: &JsonValue) -> (r: serde_json::Value)
    ensures
        value_model(r) == model_of(*j),
{
    match j {
        JsonValue::Null => serde_json::Value::Null,
        JsonValue::Bool(b) => serde_json::Value::Bool(*b),
        JsonValue::Num(n) => serde_json::Value::Number(serde_json::Number::from(*n)),
        JsonValue::Str(s) => serde_json::Value::String(s.clone()),
        JsonValue::Arr(a) => serde_json::Value::Array(a.iter().map(json_to_value).collect()),
        JsonValue::Obj(members) => serde_json::Value::Object(
            members.iter().map(|e| (e.0.clone(), json_to_value(&e.1))).collect(),
        ),
    }
}

/// Relies on `serde_json::to_string`: the compact text written for a value is
/// a function of the model the value holds (serde_json's map iterates in key
/// order), and writing a `serde_json::Value` to a string cannot fail.
#[verifier::external_body]
pub(crate) fn json_to_string(j: &JsonValue) -> (r: String)
    ensures
        r@ == json_text_of(model_of(*j)),
{
    match serde_json::to_string(&json_to_value(j)) {
        Ok(t) => t,
        Err(_) => String::new(),
    }
}

} // verus!
