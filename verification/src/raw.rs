//! The trusted boundary to serde_json: the one place where the library
//! believes, rather than proves, what outside code returns.
//!
//! A `serde_json::Value` stays opaque to the verifier.  The name `json_view`
//! stands for the JSON tree such a value holds, and `spec_parse_json` for
//! what parsing a text yields; the wrappers below say, over those names, what
//! each accessor returns, as serde_json's source shows.

use vstd::prelude::*;
use crate::json::{json_field, JVal};

verus! {

#[verifier::external_type_specification]
#[verifier::external_body]
pub struct ExValue(serde_json::Value);

/// The JSON tree that a `serde_json::Value` holds.
pub uninterp spec fn json_view(v: serde_json::Value) -> JVal;

/// What parsing a text as JSON yields: `None` where the text is not a JSON
/// document.  The result depends on the text alone.
pub uninterp spec fn spec_parse_json(s: Seq<char>) -> Option<JVal>;

/// Relies on `serde_json::from_str::<Value>`: parses a JSON text, or fails.
#[verifier::external_body]
pub fn parse_json(s: &str) -> (r: Option<serde_json::Value>)
    ensures
        match r {
            Some(v) => spec_parse_json(s@) == Some(json_view(v)),
            None => spec_parse_json(s@) is None,
        },
{
    serde_json::from_str::<serde_json::Value>(s).ok()
}

/// Relies on `serde_json::Value::get` with a string index: the field under
/// `name` when the value is an object that has one, `None` otherwise.
#[verifier::external_body]
pub fn value_field<'a>(v: &'a serde_json::Value, name: &str) -> (r: Option<
    &'a serde_json::Value,
>)
    ensures
        match r {
            Some(f) => json_field(json_view(*v), name@) == Some(json_view(*f)),
            None => json_field(json_view(*v), name@) is None,
        },
{
    v.get(name)
}

/// Relies on `serde_json::Value::as_str`: the text a string value holds.
#[verifier::external_body]
pub fn value_str(v: &serde_json::Value) -> (r: Option<String>)
    ensures
        match r {
            Some(s) => json_view(*v) == JVal::Str(s@),
            None => !(json_view(*v) is Str),
        },
{
    v.as_str().map(str::to_owned)
}

/// Relies on `serde_json::Value::as_bool`.
#[verifier::external_body]
pub fn value_bool(v: &serde_json::Value) -> (r: Option<bool>)
    ensures
        match r {
            Some(b) => json_view(*v) == JVal::Bool(b),
            None => !(json_view(*v) is Bool),
        },
{
    v.as_bool()
}

/// Relies on `serde_json::Value::as_number` and on `Number`'s `Display`,
/// which writes the number's decimal text.
#[verifier::external_body]
pub fn value_num_text(v: &serde_json::Value) -> (r: Option<String>)
    ensures
        match r {
            Some(t) => json_view(*v) == JVal::Num(t@),
            None => !(json_view(*v) is Num),
        },
{
    v.as_number().map(|n| n.to_string())
}

/// Relies on `serde_json::Value::as_array`.
#[verifier::external_body]
pub fn value_array<'a>(v: &'a serde_json::Value) -> (r: Option<&'a Vec<serde_json::Value>>)
    ensures
        match r {
            Some(a) => json_view(*v) == JVal::Arr(
                a@.map_values(|e: serde_json::Value| json_view(e)),
            ),
            None => !(json_view(*v) is Arr),
        },
{
    v.as_array()
}

/// Relies on `serde_json::Value::is_null`.
#[verifier::external_body]
pub fn value_is_null(v: &serde_json::Value) -> (r: bool)
    ensures
        r == (json_view(*v) is Null),
{
    v.is_null()
}

} // verus!
