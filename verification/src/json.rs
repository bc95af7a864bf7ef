//! JSON values as `serde_json` parses and holds them.
//!
//! A `serde_json::Value` is opaque here. What is known of one is what its
//! methods answer, and each answer has a name below. Nothing in this file is
//! proved: it states what the rest of the crate takes from `serde_json`.

use vstd::prelude::*;

verus! {

#[verifier::external_type_specification]
#[verifier::external_body]
pub struct ExValue(serde_json::Value);

#[verifier::external_type_specification]
#[verifier::external_body]
pub struct ExError(serde_json::Error);

/// The value that `serde_json::from_str` reads from `text`, if it reads one.
pub uninterp spec fn json_parse(text: Seq<char>) -> Option<serde_json::Value>;

/// The member of `v` under `name`, if `v` is an object that has one.
pub uninterp spec fn json_member(v: serde_json::Value, name: Seq<char>) -> Option<
    serde_json::Value,
>;

/// The items of `v`, if `v` is an array.
pub uninterp spec fn json_items(v: serde_json::Value) -> Option<Seq<serde_json::Value>>;

/// The characters of `v`, if `v` is a string.
pub uninterp spec fn json_string(v: serde_json::Value) -> Option<Seq<char>>;

/// The number `v`, if `v` is an integer from 0 to 2^64 - 1.
pub uninterp spec fn json_u64(v: serde_json::Value) -> Option<u64>;

/// Whether `v` is `null`.
pub uninterp spec fn json_null(v: serde_json::Value) -> bool;

/// `serde_json::from_str` at the type `Value`: the whole of `text` parsed as
/// one JSON value. The result depends on the text alone, so it has a name;
/// nothing more is claimed of it.
#[verifier::external_body]
pub(crate) fn parse(text: &str) -> (r: Result<serde_json::Value, serde_json::Error>)
    ensures
        match r {
            Ok(v) => json_parse(text@) == Some(v),
            Err(_) => json_parse(text@) is None,
        },
{
    serde_json::from_str::<serde_json::Value>(text)
}

/// `Value::get` with a string for its index: the member under that key where
/// the value is an object that has it, `None` for every other value.
#[verifier::external_body]
pub(crate) fn member<'a>(v: &'a serde_json::Value, name: &str) -> (r: Option<
    &'a serde_json::Value,
>)
    ensures
        match r {
            Some(m) => json_member(*v, name@) == Some(*m),
            None => json_member(*v, name@) is None,
        },
{
    v.get(name)
}

/// `Value::as_array`: the vector that an array holds, `None` for every other
/// value.
pub assume_specification<'a>[ serde_json::Value::as_array ](v: &'a serde_json::Value) -> (r:
    Option<&'a Vec<serde_json::Value>>)
    ensures
        match r {
            Some(items) => json_items(*v) == Some(items@),
            None => json_items(*v) is None,
        },
;

/// `Value::as_str`: the text that a string holds, `None` for every other
/// value.
pub assume_specification<'a>[ serde_json::Value::as_str ](v: &'a serde_json::Value) -> (r: Option<
    &'a str,
>)
    ensures
        match r {
            Some(s) => json_string(*v) == Some(s@),
            None => json_string(*v) is None,
        },
;

/// `Value::as_u64`: the number where the value is an integer that fits in a
/// `u64`, `None` for every other value.
pub assume_specification[ serde_json::Value::as_u64 ](v: &serde_json::Value) -> (r: Option<u64>)
    ensures
        r == json_u64(*v),
;

/// `Value::is_null`.
pub assume_specification[ serde_json::Value::is_null ](v: &serde_json::Value) -> (r: bool)
    ensures
        r == json_null(*v),
;

} // verus!
