//! The parts of `serde_json` that the library reads gateway bodies with.
//!
//! A `serde_json::Value` is opaque to the verifier. Every function here
//! makes one call into `serde_json`, and nothing is proved of it: its
//! contract only gives the call's result a name, as a function of the
//! call's arguments. What the library makes of those results is proved in
//! `reply`, over the names.

use serde_json::Value;
use vstd::prelude::*;

verus! {

/// `serde_json::Value`, carried through as it is.
#[verifier::external_type_specification]
#[verifier::external_body]
pub struct ExValue(serde_json::Value);

/// The document that `serde_json::from_str` reads from a text, if it reads one.
pub uninterp spec fn parsed(text: Seq<char>) -> Option<Value>;

/// The node that `Value::pointer` finds under a JSON pointer.
pub uninterp spec fn value_at(v: Value, pointer: Seq<char>) -> Option<Value>;

/// The text that `Value::as_str` reads from a node.
pub uninterp spec fn value_str(v: Value) -> Option<Seq<char>>;

/// The elements that `Value::as_array` reads from a node.
pub uninterp spec fn value_items(v: Value) -> Option<Seq<Value>>;

/// The member that `Value::get` finds under a key.
pub uninterp spec fn value_field(v: Value, key: Seq<char>) -> Option<Value>;

/// The integer that `Value::as_i64` reads from a node.
pub uninterp spec fn value_i64(v: Value) -> Option<i64>;

/// The bit pattern of the double that `Value::as_f64` reads from a node.
pub uninterp spec fn value_f64_bits(v: Value) -> Option<u64>;

/// Calls `serde_json::from_str` for a `Value`; a text that it refuses gives
/// `None`. Claims only that the outcome is a function of the text.
#[verifier::external_body]
pub(crate) fn parse(text: &str) -> (r: Option<Value>)
    ensures
        r == parsed(text@),
{
    serde_json::from_str::<Value>(text).ok()
}

/// Calls `Value::pointer`. Claims only that the outcome is a function of the
/// document and the pointer.
#[verifier::external_body]
pub(crate) fn at<'a>(v: &'a Value, pointer: &str) -> (r: Option<&'a Value>)
    ensures
        r.is_some() == value_at(*v, pointer@).is_some(),
        r.is_some() ==> *r.unwrap() == value_at(*v, pointer@).unwrap(),
{
    v.pointer(pointer)
}

/// Calls `Value::as_str`. Claims only that the outcome is a function of the
/// node.
#[verifier::external_body]
pub(crate) fn str_of<'a>(v: &'a Value) -> (r: Option<&'a str>)
    ensures
        r.is_some() == value_str(*v).is_some(),
        r.is_some() ==> r.unwrap()@ == value_str(*v).unwrap(),
{
    v.as_str()
}

/// Calls `Value::as_array`. Claims only that the outcome is a function of
/// the node.
#[verifier::external_body]
pub(crate) fn items_of<'a>(v: &'a Value) -> (r: Option<&'a Vec<Value>>)
    ensures
        r.is_some() == value_items(*v).is_some(),
        r.is_some() ==> r.unwrap()@ == value_items(*v).unwrap(),
{
    v.as_array()
}

/// Calls `Value::get` with a string key. Claims only that the outcome is a
/// function of the node and the key.
#[verifier::external_body]
pub(crate) fn field<'a>(v: &'a Value, key: &str) -> (r: Option<&'a Value>)
    ensures
        r.is_some() == value_field(*v, key@).is_some(),
        r.is_some() ==> *r.unwrap() == value_field(*v, key@).unwrap(),
{
    v.get(key)
}

/// Calls `Value::as_i64`. Claims only that the outcome is a function of the
/// node.
#[verifier::external_body]
pub(crate) fn i64_of(v: &Value) -> (r: Option<i64>)
    ensures
        r == value_i64(*v),
{
    v.as_i64()
}

/// Calls `Value::as_f64` and hands the double out as its bit pattern
/// (`f64::to_bits`). Claims only that the outcome is a function of the node.
#[verifier::external_body]
pub(crate) fn f64_bits_of(v: &Value) -> (r: Option<u64>)
    ensures
        r == value_f64_bits(*v),
{
    v.as_f64().map(|x| x.to_bits())
}

} // verus!
