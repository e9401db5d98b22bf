//! Reading a JSON document: `serde_json` parses the text, and the members
//! of the document are read through its accessors.

use vstd::prelude::*;

verus! {

/// A parsed JSON document, or a part of one.
#[verifier::external_type_specification]
#[verifier::external_body]
pub struct ExJsonValue(serde_json::Value);

/// Why a text is no JSON document.
#[verifier::external_type_specification]
#[verifier::external_body]
pub struct ExJsonError(serde_json::Error);

/// The document that `serde_json::from_str` reads from `text`; `None`
/// where it reports an error.
pub uninterp spec fn json_document(text: Seq<char>) -> Option<serde_json::Value>;

/// The member `key` of `value`; `None` where `value` is no object or has no
/// such member.
pub uninterp spec fn json_member(value: serde_json::Value, key: Seq<char>) -> Option<
    serde_json::Value,
>;

/// The string that `value` is; `None` where it is anything else.
pub uninterp spec fn json_string(value: serde_json::Value) -> Option<Seq<char>>;

/// The integer that `value` is, where it is one from 0 to `u64::MAX`;
/// `None` where it is anything else.
pub uninterp spec fn json_unsigned(value: serde_json::Value) -> Option<u64>;

/// `serde_json::from_str` at `serde_json::Value`: the parsed document, or
/// the error of the parser.
#[verifier::external_body]
pub(crate) fn json_parse(text: &str) -> (r: Result<serde_json::Value, serde_json::Error>)
    ensures
        match r {
            Ok(value) => json_document(text@) == Some(value),
            Err(_) => json_document(text@) is None,
        },
{
    serde_json::from_str::<serde_json::Value>(text)
}

/// `Value::get` with a string key: the member of that name, where `value`
/// is an object that has one.
#[verifier::external_body]
pub(crate) fn json_get<'a>(value: &'a serde_json::Value, key: &str) -> (r: Option<
    &'a serde_json::Value,
>)
    ensures
        match r {
            Some(member) => json_member(*value, key@) == Some(*member),
            None => json_member(*value, key@) is None,
        },
{
    value.get(key)
}

/// `Value::as_str`: the string, where `value` is one.
#[verifier::external_body]
pub(crate) fn json_as_str<'a>(value: &'a serde_json::Value) -> (r: Option<&'a str>)
    ensures
        match r {
            Some(s) => json_string(*value) == Some(s@),
            None => json_string(*value) is None,
        },
{
    value.as_str()
}

/// `Value::as_u64`: the integer, where `value` is one from 0 to `u64::MAX`.
#[verifier::external_body]
pub(crate) fn json_as_u64(value: &serde_json::Value) -> (r: Option<u64>)
    ensures
        r == json_unsigned(*value),
{
    value.as_u64()
}

} // verus!
