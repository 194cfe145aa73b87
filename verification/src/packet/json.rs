//! JSON text read into parameter values, through `serde_json`.

use vstd::prelude::*;
use crate::packet::parameters::{ParamModel, ParamValue};

verus! {

#[verifier::external_type_specification]
#[verifier::external_body]
pub struct ExJsonValue(serde_json::Value);

/// The value that `serde_json` reads from a JSON text, if the text is JSON.
pub uninterp spec fn json_text_value(text: Seq<char>) -> Option<ParamModel>;

/// Carries a `serde_json` value over into a parameter value of the same
/// shape: numbers as their JSON text, objects as their fields in order.
#[verifier::external_body]
fn from_json_value(v: serde_json::Value) -> ParamValue {
    match v {
        serde_json::Value::Null => ParamValue::Null,
        serde_json::Value::Bool(b) => ParamValue::Bool(b),
        serde_json::Value::Number(n) => ParamValue::Number(n.to_string()),
        serde_json::Value::String(s) => ParamValue::Str(s),
        serde_json::Value::Array(a) => ParamValue::Array(a.into_iter().map(from_json_value).collect()),
        serde_json::Value::Object(m) => ParamValue::Object(
            m.into_iter().map(|(k, x)| (k, from_json_value(x))).collect(),
        ),
    }
}

/// Reads JSON text with `serde_json::from_str::<serde_json::Value>`.
/// Trusted: the result is `None` exactly when `serde_json` rejects the text,
/// and otherwise the value it reads, which depends on the text alone (named
/// [`json_text_value`]); the shape of that value is not stated here.
#[verifier::external_body]
pub fn parse_json(text: &str) -> (r: Option<ParamValue>)
    ensures
        match r {
            Some(v) => json_text_value(text@) == Some(v.model()),
            None => json_text_value(text@) is None,
        },
{
    serde_json::from_str::<serde_json::Value>(text).ok().map(from_json_value)
}

} // verus!
