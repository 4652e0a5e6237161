//! The serde_json bridge: JSON values are the intermediate elements one
//! decode call buffers, and per-field conversion turns the element a field
//! reads into the field's typed value.
//!
//! What a JSON value converts to depends on the value alone, so the library
//! gives each conversion's result a name and states every outcome against
//! it: a value that converts passes through unchanged, and one that does
//! not is reported against the field's name and declared position.

use vstd::prelude::*;
use crate::decode::DecodeError;

verus! {

#[verifier::external_type_specification]
#[verifier::external_body]
pub struct ExValue(serde_json::Value);

/// The i64 a JSON value converts to, if it is a number that fits one.
pub uninterp spec fn spec_json_i64(v: serde_json::Value) -> Option<i64>;

/// The string a JSON value converts to, if it is one.
pub uninterp spec fn spec_json_string(v: serde_json::Value) -> Option<Seq<char>>;

/// Relies on serde_json::from_value::<i64>: interprets a JSON value as an
/// i64, failing when the value is not a number that fits one. The result
/// depends on the value alone; the error describes the mismatch.
#[verifier::external_body]
fn json_to_i64(v: &serde_json::Value) -> (r: Result<i64, String>)
    ensures
        match r {
            Ok(x) => spec_json_i64(*v) == Some(x),
            Err(_) => spec_json_i64(*v) is None,
        },
{
    match serde_json::from_value::<i64>(v.clone()) {
        Ok(x) => Ok(x),
        Err(e) => Err(e.to_string()),
    }
}

/// Relies on serde_json::from_value::<String>: interprets a JSON value as
/// a string, failing when the value is not one. The result depends on the
/// value alone; the error describes the mismatch.
#[verifier::external_body]
fn json_to_string(v: &serde_json::Value) -> (r: Result<String, String>)
    ensures
        match r {
            Ok(x) => spec_json_string(*v) == Some(x@),
            Err(_) => spec_json_string(*v) is None,
        },
{
    match serde_json::from_value::<String>(v.clone()) {
        Ok(x) => Ok(x),
        Err(e) => Err(e.to_string()),
    }
}

/// Reports one field's conversion outcome: a converted value passes
/// through unchanged, and a conversion failure becomes the decode error
/// that names the field and the position it read from, with the
/// conversion's own description as the cause.
pub fn field_result<T>(name: &String, position: usize, conv: Result<T, String>) -> (out: Result<
    T,
    DecodeError,
>)
    ensures
        match conv {
            Ok(v) => out == Result::<T, DecodeError>::Ok(v),
            Err(c) => out == Result::<T, DecodeError>::Err(
                (DecodeError::FieldConversionError { field: *name, position, cause: c }),
            ),
        },
{
    match conv {
        Ok(v) => Ok(v),
        Err(c) => Err(
            DecodeError::FieldConversionError { field: name.clone(), position, cause: c },
        ),
    }
}

/// Converts the JSON element a field reads into an i64: exactly the named
/// conversion of the value. A failure is always reported against exactly
/// this field's name and position.
pub fn convert_i64_field(name: &String, position: usize, v: &serde_json::Value) -> (out: Result<
    i64,
    DecodeError,
>)
    ensures
        match out {
            Ok(x) => spec_json_i64(*v) == Some(x),
            Err(e) => spec_json_i64(*v) is None && (e matches DecodeError::FieldConversionError {
                field,
                position: p,
                cause,
            } && field == *name && p == position),
        },
{
    field_result(name, position, json_to_i64(v))
}

/// Converts the JSON element a field reads into a String: exactly the
/// named conversion of the value. A failure is always reported against
/// exactly this field's name and position.
pub fn convert_string_field(name: &String, position: usize, v: &serde_json::Value) -> (out: Result<
    String,
    DecodeError,
>)
    ensures
        match out {
            Ok(x) => spec_json_string(*v) == Some(x@),
            Err(e) => spec_json_string(*v) is None && (e
                matches DecodeError::FieldConversionError {
                field,
                position: p,
                cause,
            } && field == *name && p == position),
        },
{
    field_result(name, position, json_to_string(v))
}

} // verus!
