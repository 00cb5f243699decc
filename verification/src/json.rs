//! Trusted boundary to serde_json's document model. A parsed document is
//! carried as an opaque `serde_json::Value`; each accessor's result is a
//! function of its arguments alone and carries a name, so the verified
//! decoders in `decode` can state exactly which texts they accept.

use vstd::prelude::*;
use serde_json::Number;
use serde_json::Value;

verus! {

#[verifier::external_type_specification]
#[verifier::external_body]
pub struct ExValue(Value);

#[verifier::external_type_specification]
#[verifier::external_body]
pub struct ExNumber(Number);

/// Relies on serde_json::Number's derived Clone: the copy equals the
/// original.
pub assume_specification[ <Number as Clone>::clone ](n: &Number) -> (r: Number)
    ensures
        r == *n,
;

/// The integer JSON number that `serde_json::Number::from` builds from a u64.
pub uninterp spec fn num_of_u64(n: u64) -> Number;

/// Relies on serde_json::Number::from for u64: the result depends on the
/// argument alone.
#[verifier::external_body]
pub fn number_from_u64(n: u64) -> (r: Number)
    ensures
        r == num_of_u64(n),
{
    Number::from(n)
}

/// The document that `serde_json::from_str` parses a text into, or `None`
/// where the text is not JSON; a function of the text alone.
pub uninterp spec fn doc_of(text: Seq<char>) -> Option<Value>;

/// Relies on serde_json::from_str: parses a text as one JSON document.
#[verifier::external_body]
pub fn parse_value(text: &str) -> (r: Option<Value>)
    ensures
        r == doc_of(text@),
{
    serde_json::from_str(text).ok()
}

/// What `serde_json::Value::get` finds under a key: the field of an object,
/// `None` on a missing key or a non-object.
pub uninterp spec fn field_of(v: Value, key: Seq<char>) -> Option<Value>;

/// Relies on serde_json::Value::get: looks a key up in a JSON object.
#[verifier::external_body]
pub fn get_field(v: &Value, key: &str) -> (r: Option<Value>)
    ensures
        r == field_of(*v, key@),
{
    v.get(key).cloned()
}

/// The text of a JSON string value, `None` for the other variants.
pub uninterp spec fn str_variant(v: Value) -> Option<Seq<char>>;

/// Relies on serde_json::Value's String variant: the text of a JSON string.
#[verifier::external_body]
pub fn as_text(v: &Value) -> (r: Option<String>)
    ensures
        (r is Some <==> str_variant(*v) is Some),
        (r matches Some(s) ==> Some(s@) == str_variant(*v)),
{
    match v {
        Value::String(s) => Some(s.clone()),
        _ => None,
    }
}

/// What `serde_json::Value::as_i64` reads: the value of a JSON integer that
/// fits in an i64, `None` otherwise.
pub uninterp spec fn int_of(v: Value) -> Option<i64>;

/// Relies on serde_json::Value::as_i64.
#[verifier::external_body]
pub fn as_int(v: &Value) -> (r: Option<i64>)
    ensures
        r == int_of(*v),
{
    v.as_i64()
}

/// What `serde_json::Value::as_bool` reads: the value of a JSON bool.
pub uninterp spec fn bool_of(v: Value) -> Option<bool>;

/// Relies on serde_json::Value::as_bool.
#[verifier::external_body]
pub fn as_flag(v: &Value) -> (r: Option<bool>)
    ensures
        r == bool_of(*v),
{
    v.as_bool()
}

/// Whether the value is JSON null.
pub uninterp spec fn is_null_of(v: Value) -> bool;

/// Relies on serde_json::Value::is_null.
#[verifier::external_body]
pub fn is_null(v: &Value) -> (r: bool)
    ensures
        r == is_null_of(*v),
{
    v.is_null()
}

/// The numeric value of a JSON number, carried exactly; `None` for the
/// other variants.
pub uninterp spec fn number_of(v: Value) -> Option<Number>;

/// Relies on serde_json::Value's Number variant: the numeric value of a JSON
/// number, carried exactly.
#[verifier::external_body]
pub fn as_number(v: &Value) -> (r: Option<Number>)
    ensures
        r == number_of(*v),
{
    match v {
        Value::Number(n) => Some(n.clone()),
        _ => None,
    }
}

} // verus!
