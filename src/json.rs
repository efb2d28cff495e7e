//! The calls into serde_json that the record parser makes, and what is
//! assumed of them.
use vstd::prelude::*;

verus! {

#[verifier::external_type_specification]
#[verifier::external_body]
pub struct ExValue(serde_json::Value);

#[verifier::external_type_specification]
#[verifier::external_body]
pub struct ExJsonError(serde_json::Error);

/// The document that serde_json reads from the given bytes, if they hold one.
pub uninterp spec fn json_parse(b: Seq<u8>) -> Option<serde_json::Value>;

/// The member of an object under the given key, if the value is an object
/// that has one.
pub uninterp spec fn json_field(v: serde_json::Value, key: Seq<char>) -> Option<serde_json::Value>;

/// The text of a JSON string value.
pub uninterp spec fn json_text(v: serde_json::Value) -> Option<Seq<char>>;

/// The value of a JSON number that is an integer in `0..=u64::MAX`.
pub uninterp spec fn json_unsigned(v: serde_json::Value) -> Option<u64>;

/// Relies on `serde_json::from_slice::<serde_json::Value>`: it either reads
/// one JSON document from the bytes or fails, and which depends on the bytes
/// alone.
#[verifier::external_body]
pub(crate) fn decode_value(b: &[u8]) -> (r: Result<serde_json::Value, serde_json::Error>)
    ensures
        match r {
            Ok(v) => json_parse(b@) == Some(v),
            Err(_) => json_parse(b@) is None,
        },
{
    serde_json::from_slice(b)
}

/// Relies on `serde_json::Value::get` with a `&str` key: the member of an
/// object under that key, `None` for a missing key or a value that is no
/// object.
#[verifier::external_body]
pub(crate) fn get_field<'a>(v: &'a serde_json::Value, key: &str) -> (r: Option<&'a serde_json::Value>)
    ensures
        match r {
            Some(x) => json_field(*v, key@) == Some(*x),
            None => json_field(*v, key@) is None,
        },
{
    v.get(key)
}

/// Relies on `serde_json::Value::as_str`: the text of a string value, `None`
/// for any other value.
#[verifier::external_body]
pub(crate) fn get_text(v: &serde_json::Value) -> (r: Option<&str>)
    ensures
        match r {
            Some(s) => json_text(*v) == Some(s@),
            None => json_text(*v) is None,
        },
{
    v.as_str()
}

/// Relies on `PartialEq<&str>` for `serde_json::Value`: true exactly when
/// the value is a string with that text (serde_json compares `as_str()`).
#[verifier::external_body]
pub(crate) fn is_text(v: &serde_json::Value, s: &str) -> (r: bool)
    ensures
        r == (json_text(*v) == Some(s@)),
{
    *v == s
}

/// Relies on `serde_json::Value::as_u64`: the value of a non-negative integer
/// that fits in `u64`, `None` for any other value.
#[verifier::external_body]
pub(crate) fn get_unsigned(v: &serde_json::Value) -> (r: Option<u64>)
    ensures
        r == json_unsigned(*v),
{
    v.as_u64()
}

} // verus!
