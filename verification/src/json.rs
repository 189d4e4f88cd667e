//! Reading JSON documents that remote gateways answer with.
//!
//! A document is a `serde_json::Value`, which the verifier cannot look into.
//! What a document holds is therefore named by the functions below, each for
//! one accessor of `serde_json`, and the readers built on them state their
//! results over those names.

use vstd::prelude::*;

verus! {

#[verifier::external_type_specification]
#[verifier::external_body]
pub struct ExJsonValue(serde_json::Value);

/// The member of `value` under `key`: what `serde_json::Value::get` returns
/// for a string index.
pub uninterp spec fn json_get(value: serde_json::Value, key: Seq<char>) -> Option<
    serde_json::Value,
>;

/// The number that `value` is, where it is one that fits in 64 bits
/// unsigned: what `serde_json::Value::as_u64` returns.
pub uninterp spec fn json_as_u64(value: serde_json::Value) -> Option<u64>;

/// The text that `value` is, where it is a string: what
/// `serde_json::Value::as_str` returns.
pub uninterp spec fn json_as_str(value: serde_json::Value) -> Option<Seq<char>>;

/// The elements of `value`, where it is an array: what
/// `serde_json::Value::as_array` returns.
pub uninterp spec fn json_as_array(value: serde_json::Value) -> Option<Seq<serde_json::Value>>;

/// `value` is the JSON `null`: what `serde_json::Value::is_null` returns.
pub uninterp spec fn json_is_null(value: serde_json::Value) -> bool;

/// What went wrong in reading a document.
#[derive(Debug, Copy, Clone, PartialEq, Eq)]
pub enum JsonError {
    /// The document is no object, or has no member under this key.
    MissingKey(&'static str),
    NotAString,
    NotAU64,
    NotAnArray,
}

/// `serde_json::Value::get` with a string index: the member under `key`
/// where `value` is an object that has one, and `None` otherwise. The
/// contract names the result and says no more of it.
#[verifier::external_body]
pub(crate) fn get<'a>(value: &'a serde_json::Value, key: &str) -> (member: Option<
    &'a serde_json::Value,
>)
    ensures
        member == match json_get(*value, key@) {
            Some(found) => Some(&found),
            None => None,
        },
{
    value.get(key)
}

/// `serde_json::Value::as_u64`: the number where `value` is a non-negative
/// integer below 2^64, and `None` otherwise. The contract names the result.
#[verifier::external_body]
pub(crate) fn as_u64(value: &serde_json::Value) -> (number: Option<u64>)
    ensures
        number == json_as_u64(*value),
{
    value.as_u64()
}

/// `serde_json::Value::as_str`: the text where `value` is a string, and
/// `None` otherwise. The contract names the text by its characters.
#[verifier::external_body]
pub(crate) fn as_str<'a>(value: &'a serde_json::Value) -> (text: Option<&'a str>)
    ensures
        match text {
            Some(text) => json_as_str(*value) == Some(text@),
            None => json_as_str(*value) is None,
        },
{
    value.as_str()
}

/// `serde_json::Value::as_array`: the elements where `value` is an array,
/// and `None` otherwise. The contract names the elements.
#[verifier::external_body]
pub(crate) fn as_array<'a>(value: &'a serde_json::Value) -> (items: Option<
    &'a Vec<serde_json::Value>,
>)
    ensures
        match items {
            Some(items) => json_as_array(*value) == Some(items@),
            None => json_as_array(*value) is None,
        },
{
    value.as_array()
}

/// `serde_json::Value::is_null`: whether `value` is the JSON `null`.
#[verifier::external_body]
pub(crate) fn is_null(value: &serde_json::Value) -> (null: bool)
    ensures
        null == json_is_null(*value),
{
    value.is_null()
}

/// The member under `key`, which the document must have.
pub open spec fn member_of(value: serde_json::Value, key: &'static str) -> Result<
    serde_json::Value,
    JsonError,
> {
    match json_get(value, key@) {
        Some(member) => Ok(member),
        None => Err(JsonError::MissingKey(key)),
    }
}

/// The number under `key`, which must be there and fit in 64 bits unsigned.
pub open spec fn u64_member_of(value: serde_json::Value, key: &'static str) -> Result<
    u64,
    JsonError,
> {
    match member_of(value, key) {
        Ok(member) => match json_as_u64(member) {
            Some(number) => Ok(number),
            None => Err(JsonError::NotAU64),
        },
        Err(error) => Err(error),
    }
}

/// The text under `key`, which must be there and be a string.
pub open spec fn str_member_of(value: serde_json::Value, key: &'static str) -> Result<
    Seq<char>,
    JsonError,
> {
    match member_of(value, key) {
        Ok(member) => match json_as_str(member) {
            Some(text) => Ok(text),
            None => Err(JsonError::NotAString),
        },
        Err(error) => Err(error),
    }
}

/// The length of the array under `key`, which must be there and be one.
pub open spec fn array_len_of(value: serde_json::Value, key: &'static str) -> Result<
    nat,
    JsonError,
> {
    match member_of(value, key) {
        Ok(member) => match json_as_array(member) {
            Some(items) => Ok(items.len()),
            None => Err(JsonError::NotAnArray),
        },
        Err(error) => Err(error),
    }
}

pub fn member<'a>(value: &'a serde_json::Value, key: &'static str) -> (found: Result<
    &'a serde_json::Value,
    JsonError,
>)
    ensures
        match found {
            Ok(member) => member_of(*value, key) == Ok::<serde_json::Value, JsonError>(*member),
            Err(error) => member_of(*value, key) == Err::<serde_json::Value, JsonError>(error),
        },
{
    match get(value, key) {
        Some(member) => Ok(member),
        None => Err(JsonError::MissingKey(key)),
    }
}

pub fn u64_member(value: &serde_json::Value, key: &'static str) -> (found: Result<u64, JsonError>)
    ensures
        found == u64_member_of(*value, key),
{
    match member(value, key) {
        Ok(member) => match as_u64(member) {
            Some(number) => Ok(number),
            None => Err(JsonError::NotAU64),
        },
        Err(error) => Err(error),
    }
}

pub fn str_member(value: &serde_json::Value, key: &'static str) -> (found: Result<
    String,
    JsonError,
>)
    ensures
        match found {
            Ok(text) => str_member_of(*value, key) == Ok::<Seq<char>, JsonError>(text@),
            Err(error) => str_member_of(*value, key) == Err::<Seq<char>, JsonError>(error),
        },
{
    match member(value, key) {
        Ok(member) => match as_str(member) {
            Some(text) => Ok(text.to_owned()),
            None => Err(JsonError::NotAString),
        },
        Err(error) => Err(error),
    }
}

pub fn array_len(value: &serde_json::Value, key: &'static str) -> (found: Result<usize, JsonError>)
    ensures
        match found {
            Ok(len) => array_len_of(*value, key) == Ok::<nat, JsonError>(len as nat),
            Err(error) => array_len_of(*value, key) == Err::<nat, JsonError>(error),
        },
{
    match member(value, key) {
        Ok(member) => match as_array(member) {
            Some(items) => Ok(items.len()),
            None => Err(JsonError::NotAnArray),
        },
        Err(error) => Err(error),
    }
}

} // verus!
