//! Reading typed values out of JSON.
//!
//! Each type that an endpoint answers with says, as a function of a JSON
//! value, what it decodes to and whether it decodes at all. A record is read
//! out of an object, field by field, each under its wire name; members that
//! the record has no field for are passed over. Decoding is all or nothing:
//! a list with one item of the wrong shape is no list.

use vstd::prelude::*;
use serde_json::Value;
use crate::error::DecodeError;
use crate::json::{json_items, json_member, json_null, json_parse, json_string, json_u64, member, parse};
use crate::naming::{camel_case, wire_name};

verus! {

/// A type that can be read out of a JSON value.
pub trait Decode: Sized + DeepView {
    /// What `v` decodes to, or `None` where it has not the shape of `Self`.
    spec fn decoded(v: Value) -> Option<Self::V>;

    /// Decodes `v`.
    fn decode(v: &Value) -> (r: Result<Self, DecodeError>)
        ensures
            match r {
                Ok(t) => Self::decoded(*v) == Some(t.deep_view()),
                Err(e) => Self::decoded(*v) is None && e == DecodeError::UnexpectedShape,
            },
    ;
}

/// An integer from 0 to 2^32 - 1.
impl Decode for u32 {
    open spec fn decoded(v: Value) -> Option<u32> {
        match json_u64(v) {
            Some(n) => if n <= u32::MAX {
                Some(n as u32)
            } else {
                None
            },
            None => None,
        }
    }

    fn decode(v: &Value) -> (r: Result<u32, DecodeError>) {
        match v.as_u64() {
            Some(n) => if n <= 0xffff_ffff {
                Ok(n as u32)
            } else {
                Err(DecodeError::UnexpectedShape)
            },
            None => Err(DecodeError::UnexpectedShape),
        }
    }
}

/// A JSON string.
impl Decode for String {
    open spec fn decoded(v: Value) -> Option<Seq<char>> {
        json_string(v)
    }

    fn decode(v: &Value) -> (r: Result<String, DecodeError>) {
        match v.as_str() {
            Some(s) => Ok(s.to_owned()),
            None => Err(DecodeError::UnexpectedShape),
        }
    }
}

/// `null` for no value, or else a value of `T`.
impl<T: Decode> Decode for Option<T> {
    open spec fn decoded(v: Value) -> Option<Option<T::V>> {
        if json_null(v) {
            Some(None)
        } else {
            match T::decoded(v) {
                Some(t) => Some(Some(t)),
                None => None,
            }
        }
    }

    fn decode(v: &Value) -> (r: Result<Option<T>, DecodeError>) {
        if v.is_null() {
            Ok(None)
        } else {
            match T::decode(v) {
                Ok(t) => Ok(Some(t)),
                Err(e) => Err(e),
            }
        }
    }
}

/// A JSON array, each item of which decodes as a `T`.
impl<T: Decode> Decode for Vec<T> {
    open spec fn decoded(v: Value) -> Option<Seq<T::V>> {
        match json_items(v) {
            Some(items) => if forall|i: int|
                0 <= i < items.len() ==> (#[trigger] T::decoded(items[i])) is Some {
                Some(Seq::new(items.len(), |i: int| T::decoded(items[i])->0))
            } else {
                None
            },
            None => None,
        }
    }

    fn decode(v: &Value) -> (r: Result<Vec<T>, DecodeError>) {
        match v.as_array() {
            Some(items) => {
                let mut out: Vec<T> = Vec::new();
                for k in 0..items.len()
                    invariant
                        json_items(*v) == Some(items@),
                        out@.len() == k,
                        forall|i: int|
                            0 <= i < k ==> (#[trigger] T::decoded(items@[i])) == Some(
                                out@[i].deep_view(),
                            ),
                {
                    match T::decode(&items[k]) {
                        Ok(t) => out.push(t),
                        Err(e) => {
                            return Err(e);
                        },
                    }
                }
                assert(out.deep_view() =~= Seq::new(
                    items@.len(),
                    |i: int| T::decoded(items@[i])->0,
                ));
                Ok(out)
            },
            None => Err(DecodeError::UnexpectedShape),
        }
    }
}

/// What the field `name` of the object `v` decodes to; `None` where `v` is no
/// object, has no such field, or holds a value of another shape in it. The
/// field is looked up under its wire name.
pub open spec fn field<T: Decode>(v: Value, name: Seq<char>) -> Option<T::V> {
    match json_member(v, camel_case(name)) {
        Some(m) => T::decoded(m),
        None => None,
    }
}

/// What the field `name` of `v` decodes to where the field may be left out:
/// a field that is not there, or is `null`, is no value.
pub open spec fn optional_field<T: Decode>(v: Value, name: Seq<char>) -> Option<Option<T::V>> {
    match json_member(v, camel_case(name)) {
        Some(m) => Option::<T>::decoded(m),
        None => Some(None),
    }
}

/// Reads the required field `name` of `v`.
pub fn read_field<T: Decode>(v: &Value, name: &str) -> (r: Result<T, DecodeError>)
    ensures
        match r {
            Ok(t) => field::<T>(*v, name@) == Some(t.deep_view()),
            Err(e) => field::<T>(*v, name@) is None && e == DecodeError::UnexpectedShape,
        },
{
    let key = wire_name(name);
    match member(v, key.as_str()) {
        Some(m) => T::decode(m),
        None => Err(DecodeError::UnexpectedShape),
    }
}

/// Reads the field `name` of `v`, which may be left out.
pub fn read_optional_field<T: Decode>(v: &Value, name: &str) -> (r: Result<
    Option<T>,
    DecodeError,
>)
    ensures
        match r {
            Ok(t) => optional_field::<T>(*v, name@) == Some(t.deep_view()),
            Err(e) => optional_field::<T>(*v, name@) is None && e == DecodeError::UnexpectedShape,
        },
{
    let key = wire_name(name);
    match member(v, key.as_str()) {
        Some(m) => Option::<T>::decode(m),
        None => Ok(None),
    }
}

/// What a text decodes to as a `T`: the value, or which of the two things
/// went wrong.
pub open spec fn text_decoded<T: Decode>(text: Seq<char>) -> Result<T::V, DecodeError> {
    match json_parse(text) {
        Some(v) => match T::decoded(v) {
            Some(t) => Ok(t),
            None => Err(DecodeError::UnexpectedShape),
        },
        None => Err(DecodeError::MalformedJson),
    }
}

/// Whether `r` is the outcome `model`: the same error, or a value with that
/// view.
pub open spec fn outcome_is<T: DeepView, E>(r: Result<T, E>, model: Result<T::V, E>) -> bool {
    match r {
        Ok(t) => model == Ok::<T::V, E>(t.deep_view()),
        Err(e) => model == Err::<T::V, E>(e),
    }
}

/// Parses `text` as JSON and decodes the value as a `T`.
pub fn decode_text<T: Decode>(text: &str) -> (r: Result<T, DecodeError>)
    ensures
        outcome_is(r, text_decoded::<T>(text@)),
{
    match parse(text) {
        Ok(v) => T::decode(&v),
        Err(_) => Err(DecodeError::MalformedJson),
    }
}

/// A field that may be left out and is, or that holds `null`, is no value
/// and no failure.
pub proof fn lemma_absent_field_is_no_value<T: Decode>(v: Value, name: Seq<char>)
    requires
        json_member(v, camel_case(name)) matches Some(m) ==> json_null(m),
    ensures
        optional_field::<T>(v, name) == Some(None::<T::V>),
{
}

/// A list decodes item by item, or not at all: it has as many items as the
/// array, each the decoded form of the item in its place, and one item of
/// the wrong shape leaves no list.
pub proof fn lemma_list_is_whole<T: Decode>(v: Value, items: Seq<Value>)
    requires
        json_items(v) == Some(items),
    ensures
        Vec::<T>::decoded(v) matches Some(list) ==> list.len() == items.len() && forall|i: int|
            0 <= i < items.len() ==> T::decoded(items[i]) == Some(#[trigger] list[i]),
        (exists|i: int| 0 <= i < items.len() && (#[trigger] T::decoded(items[i])) is None)
            ==> Vec::<T>::decoded(v) is None,
{
}

} // verus!
