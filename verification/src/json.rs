//! Reading members out of JSON text with `serde_json`. Each query parses
//! the text into a `serde_json::Value` and reads one member; the library
//! sees only plain values.

use vstd::prelude::*;

verus! {

/// `serde_json::Error`, carried through unchanged.
#[verifier::external_type_specification]
#[verifier::external_body]
pub struct ExJsonError(serde_json::Error);

/// For the text `text`: `None` when `serde_json::from_str::<Value>` rejects
/// it; otherwise `Some(m)`, where `m` is `value[key].as_u64()`: the member
/// `key` of an object when it is a number that fits in `u64`, else `None`.
pub uninterp spec fn json_u64_member(text: Seq<char>, key: Seq<char>) -> Option<Option<u64>>;

/// For the text `text`: `None` when it is not JSON; otherwise
/// `Some(value[key].as_str())`, the member `key` of an object when it is a
/// JSON string.
pub uninterp spec fn json_str_member(text: Seq<char>, key: Seq<char>) -> Option<Option<Seq<char>>>;

/// For the text `text`: `None` when it is not JSON; otherwise
/// `Some(value.get(outer).and_then(|o| o.get(inner)).and_then(as_str))`, the
/// string member `inner` of the object member `outer`.
pub uninterp spec fn json_nested_str_member(
    text: Seq<char>,
    outer: Seq<char>,
    inner: Seq<char>,
) -> Option<Option<Seq<char>>>;

/// Parses `text` with `serde_json::from_str::<serde_json::Value>` and reads
/// `value[key].as_u64()`. The contract ties the outcome to the name
/// `json_u64_member`; what JSON serde_json accepts is not stated.
#[verifier::external_body]
pub(crate) fn read_u64_member(text: &str, key: &str) -> (r: Result<Option<u64>, serde_json::Error>)
    ensures
        match r {
            Ok(m) => json_u64_member(text@, key@) == Some(m),
            Err(_) => json_u64_member(text@, key@) is None,
        },
{
    match serde_json::from_str::<serde_json::Value>(text) {
        Ok(v) => Ok(v[key].as_u64()),
        Err(e) => Err(e),
    }
}

/// Parses `text` with `serde_json::from_str::<serde_json::Value>` and reads
/// `value[key].as_str()`, tied to the name `json_str_member`.
#[verifier::external_body]
pub(crate) fn read_str_member(text: &str, key: &str) -> (r: Result<Option<String>, serde_json::Error>)
    ensures
        match r {
            Ok(Some(s)) => json_str_member(text@, key@) == Some(Some(s@)),
            Ok(None) => json_str_member(text@, key@) == Some(None::<Seq<char>>),
            Err(_) => json_str_member(text@, key@) is None,
        },
{
    match serde_json::from_str::<serde_json::Value>(text) {
        Ok(v) => Ok(v[key].as_str().map(|s| s.to_string())),
        Err(e) => Err(e),
    }
}

/// Parses `text` with `serde_json::from_str::<serde_json::Value>` and reads
/// `value[outer][inner].as_str()`, tied to the name `json_nested_str_member`.
#[verifier::external_body]
pub(crate) fn read_nested_str_member(text: &str, outer: &str, inner: &str) -> (r: Result<
    Option<String>,
    serde_json::Error,
>)
    ensures
        match r {
            Ok(Some(s)) => json_nested_str_member(text@, outer@, inner@) == Some(Some(s@)),
            Ok(None) => json_nested_str_member(text@, outer@, inner@) == Some(None::<Seq<char>>),
            Err(_) => json_nested_str_member(text@, outer@, inner@) is None,
        },
{
    match serde_json::from_str::<serde_json::Value>(text) {
        Ok(v) => Ok(v[outer][inner].as_str().map(|s| s.to_string())),
        Err(e) => Err(e),
    }
}

} // verus!
