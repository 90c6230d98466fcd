//! JSON values, which the library carries without looking inside.
use serde_json::Error as JsonError;
use vstd::prelude::*;

use crate::message::{RequestId, RequestIdView};

verus! {

/// [`serde_json::Value`], carried as an opaque value.
#[verifier::external_type_specification]
#[verifier::external_body]
pub struct ExValue(serde_json::Value);

/// [`serde_json::Error`], carried as an opaque value.
#[verifier::external_type_specification]
#[verifier::external_body]
pub struct ExJsonError(JsonError);

/// A JSON value.
pub type JsonValue = serde_json::Value;

/// What [`serde_json::Value::is_null`] answers.
pub uninterp spec fn json_is_null(value: serde_json::Value) -> bool;

/// What [`serde_json::Value::get`] finds under a string key.
pub uninterp spec fn json_member(value: serde_json::Value, key: Seq<char>) -> Option<
    serde_json::Value,
>;

/// What [`serde_json::Value::as_i64`] answers.
pub uninterp spec fn json_integer(value: serde_json::Value) -> Option<i64>;

/// The identifier in the parameters of a `$/cancelRequest` notification, where
/// [`serde_json::from_value`] reads them as [`lsp_types::CancelParams`].
pub uninterp spec fn json_cancel_id(params: serde_json::Value) -> Option<RequestIdView>;

/// The [`Default`] of [`serde_json::Value`], which is `null`.
pub assume_specification[ <serde_json::Value as Default>::default ]() -> (value: serde_json::Value)
    ensures
        json_is_null(value),
;

/// The [`Clone`] of [`serde_json::Value`], which gives an equal value.
pub assume_specification[ <serde_json::Value as Clone>::clone ](
    value: &serde_json::Value,
) -> (copy: serde_json::Value)
    ensures
        copy == *value,
;

/// [`serde_json::Value::is_null`], whose answer is [`json_is_null`].
pub assume_specification[ serde_json::Value::is_null ](value: &serde_json::Value) -> (null: bool)
    ensures
        null == json_is_null(*value),
;

/// [`serde_json::Value::as_i64`], whose answer is [`json_integer`].
pub assume_specification[ serde_json::Value::as_i64 ](value: &serde_json::Value) -> (integer:
    Option<i64>)
    ensures
        integer == json_integer(*value),
;

/// [`serde_json::Value::get`] with a string key, whose answer is [`json_member`].
#[verifier::external_body]
pub(crate) fn member<'a>(value: &'a JsonValue, key: &str) -> (member: Option<&'a JsonValue>)
    ensures
        match member {
            Some(found) => json_member(*value, key@) == Some(*found),
            None => json_member(*value, key@) is None,
        },
{
    value.get(key)
}

/// [`serde_json::from_value`] for [`lsp_types::CancelParams`]: the identifier that it reads is
/// [`json_cancel_id`], and there is none where it fails.
#[verifier::external_body]
pub(crate) fn cancel_id(params: JsonValue) -> (id: Option<RequestId>)
    ensures
        match id {
            Some(id) => json_cancel_id(params) == Some(id@),
            None => json_cancel_id(params) is None,
        },
{
    match serde_json::from_value::<lsp_types::CancelParams>(params) {
        Ok(lsp_types::CancelParams { id: lsp_types::NumberOrString::Number(n) }) => Some(
            RequestId::Number(n),
        ),
        Ok(lsp_types::CancelParams { id: lsp_types::NumberOrString::String(s) }) => Some(
            RequestId::String(s),
        ),
        Err(_) => None,
    }
}

} // verus!
