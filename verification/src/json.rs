//! The boundary to `serde_json`.
//!
//! The outer JSON parse is the one piece of work this crate does not do
//! itself.  A parsed `serde_json::Value` is opaque to the verifier, so the
//! module gives its contents a mathematical name, [`JsonModel`], and a small
//! set of trusted accessors whose contracts say — over that name — exactly
//! what the corresponding `serde_json` methods return.  All decoding logic
//! above this module is verified against those contracts.

use vstd::prelude::*;

verus! {

/// The mathematical value of a parsed JSON tree.
///
/// `serde_json` stores a number either as an integer (any value of `i64` or
/// `u64`) or as a finite `f64`; `IntNum` covers the former, and `FloatNum`
/// holds the decimal rendering that `serde_json` itself would print for the
/// latter, so that no floating-point value appears in the model.
pub enum JsonModel {
    Null,
    Bool(bool),
    IntNum(int),
    FloatNum(Seq<char>),
    StrVal(Seq<char>),
    ArrVal(Seq<JsonModel>),
    ObjVal(Map<Seq<char>, JsonModel>),
}

#[verifier::external_type_specification]
#[verifier::external_body]
pub struct ExJsonValue(serde_json::Value);

/// What a `serde_json::Value` holds, as a [`JsonModel`] tree.
pub uninterp spec fn value_model(v: serde_json::Value) -> JsonModel;

/// What parsing a text as JSON yields: `None` where the text is not valid
/// JSON, otherwise the model of the parsed tree.
pub uninterp spec fn spec_parse_json(s: Seq<char>) -> Option<JsonModel>;

/// Relies on `serde_json::from_str::<serde_json::Value>`: the parse result
/// is a function of the text alone.
#[verifier::external_body]
pub fn parse_json(s: &str) -> (r: Option<serde_json::Value>)
    ensures
        r is Some <==> spec_parse_json(s@) is Some,
        r matches Some(v) ==> spec_parse_json(s@) == Some(value_model(v)),
{
    serde_json::from_str::<serde_json::Value>(s).ok()
}

/// Relies on `serde_json::Value::get` with a string index: a key lookup in
/// an object's map, `None` on every other shape.
#[verifier::external_body]
pub fn json_get<'a>(v: &'a serde_json::Value, key: &str) -> (r: Option<&'a serde_json::Value>)
    ensures
        match value_model(*v) {
            JsonModel::ObjVal(m) => {
                &&& m.contains_key(key@) ==> (r matches Some(w) && value_model(*w) == m[key@])
                &&& !m.contains_key(key@) ==> r is None
            },
            _ => r is None,
        },
{
    v.get(key)
}

/// Relies on `serde_json::Value::as_str`: the borrowed string of a string
/// value, `None` on every other shape.
#[verifier::external_body]
pub fn json_as_str<'a>(v: &'a serde_json::Value) -> (r: Option<&'a str>)
    ensures
        match value_model(*v) {
            JsonModel::StrVal(s) => r matches Some(t) && t@ == s,
            _ => r is None,
        },
{
    v.as_str()
}

/// Relies on `serde_json::Value::as_i64`: the value of an integer number
/// when it fits in `i64`, `None` otherwise.
#[verifier::external_body]
pub fn json_as_i64(v: &serde_json::Value) -> (r: Option<i64>)
    ensures
        r == match value_model(*v) {
            JsonModel::IntNum(i) => if i64::MIN <= i <= i64::MAX {
                Some(i as i64)
            } else {
                None::<i64>
            },
            _ => None::<i64>,
        },
{
    v.as_i64()
}

/// Relies on `serde_json::Value::as_u64`: the value of an integer number
/// when it fits in `u64`, `None` otherwise.
#[verifier::external_body]
pub fn json_as_u64(v: &serde_json::Value) -> (r: Option<u64>)
    ensures
        r == match value_model(*v) {
            JsonModel::IntNum(i) => if 0 <= i <= u64::MAX {
                Some(i as u64)
            } else {
                None::<u64>
            },
            _ => None::<u64>,
        },
{
    v.as_u64()
}

/// Relies on `serde_json::Value::as_bool`.
#[verifier::external_body]
pub fn json_as_bool(v: &serde_json::Value) -> (r: Option<bool>)
    ensures
        r == match value_model(*v) {
            JsonModel::Bool(b) => Some(b),
            _ => None::<bool>,
        },
{
    v.as_bool()
}

/// Relies on `serde_json::Value::is_null`.
#[verifier::external_body]
pub fn json_is_null(v: &serde_json::Value) -> (r: bool)
    ensures
        r == (value_model(*v) is Null),
{
    v.is_null()
}

/// Relies on `serde_json::Value::as_array`: the length of an array value,
/// `None` on every other shape.
#[verifier::external_body]
pub fn json_arr_len(v: &serde_json::Value) -> (r: Option<usize>)
    ensures
        match value_model(*v) {
            JsonModel::ArrVal(a) => r matches Some(n) && n == a.len(),
            _ => r is None,
        },
{
    match v.as_array() {
        Some(a) => Some(a.len()),
        None => None,
    }
}

/// Relies on `serde_json::Value::get` with a `usize` index: the `i`-th
/// element of an array value, `None` out of bounds and on every other shape.
#[verifier::external_body]
pub fn json_arr_get<'a>(v: &'a serde_json::Value, i: usize) -> (r: Option<&'a serde_json::Value>)
    ensures
        match value_model(*v) {
            JsonModel::ArrVal(a) => {
                &&& i < a.len() ==> (r matches Some(w) && value_model(*w) == a[i as int])
                &&& i >= a.len() ==> r is None
            },
            _ => r is None,
        },
{
    v.get(i)
}

/// Relies on `serde_json::Value::is_f64` and the `Display` of `Value`: a
/// number that `serde_json` holds as a float prints as its decimal
/// rendering, which is a function of the stored value alone.
#[verifier::external_body]
pub fn json_float_text(v: &serde_json::Value) -> (r: Option<String>)
    ensures
        match value_model(*v) {
            JsonModel::FloatNum(t) => r matches Some(s) && s@ == t,
            _ => r is None,
        },
{
    if v.is_f64() {
        Some(v.to_string())
    } else {
        None
    }
}

} // verus!
