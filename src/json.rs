//! The JSON operations the agent takes from `serde_json`, as trusted items.
use vstd::prelude::*;

verus! {

#[verifier::external_type_specification]
#[verifier::external_body]
pub struct ExValue(serde_json::Value);

/// The views of a sequence of strings.
pub open spec fn strings_view(v: Seq<String>) -> Seq<Seq<char>> {
    v.map_values(|s: String| s@)
}

/// Whether `text` is one well-formed JSON value, by `serde_json`'s reading.
pub uninterp spec fn json_valid(text: Seq<char>) -> bool;

/// The string member `key` of the JSON object written in `text`.
pub uninterp spec fn json_string_member(text: Seq<char>, key: Seq<char>) -> Option<Seq<char>>;

/// The member `key` of the JSON object written in `text`, where it is an array of strings.
pub uninterp spec fn json_string_list_member(text: Seq<char>, key: Seq<char>) -> Option<
    Seq<Seq<char>>,
>;

/// The JSON string literal that encodes `s`, quotes and escapes included.
pub uninterp spec fn json_string_of(s: Seq<char>) -> Seq<char>;

/// Relies on `serde_json::from_str::<Value>`: it succeeds exactly on well-formed
/// JSON text, and empty text is not well-formed (it ends before any value).
#[verifier::external_body]
pub(crate) fn parse_json(text: &str) -> (r: Option<serde_json::Value>)
    ensures
        r is Some <==> json_valid(text@),
        text@.len() == 0 ==> r is None,
{
    serde_json::from_str::<serde_json::Value>(text).ok()
}

/// Relies on `serde_json::from_str::<Value>`, `Value::get` and
/// `serde_json::from_value::<String>`: the member `key` of the JSON object in
/// `text`, where that member is a string. Text that does not parse has no members.
#[verifier::external_body]
pub(crate) fn json_member_string(text: &str, key: &str) -> (r: Option<String>)
    ensures
        match r {
            Some(v) => json_string_member(text@, key@) == Some(v@),
            None => json_string_member(text@, key@) is None,
        },
        !json_valid(text@) ==> r is None,
{
    let v: serde_json::Value = serde_json::from_str(text).ok()?;
    serde_json::from_value::<String>(v.get(key)?.clone()).ok()
}

/// Relies on `serde_json::from_str::<Value>`, `Value::get` and
/// `serde_json::from_value::<Vec<String>>`: the member `key` of the JSON object
/// in `text`, where that member is an array of strings. Text that does not
/// parse has no members.
#[verifier::external_body]
pub(crate) fn json_member_string_list(text: &str, key: &str) -> (r: Option<Vec<String>>)
    ensures
        match r {
            Some(v) => json_string_list_member(text@, key@) == Some(strings_view(v@)),
            None => json_string_list_member(text@, key@) is None,
        },
        !json_valid(text@) ==> r is None,
{
    let v: serde_json::Value = serde_json::from_str(text).ok()?;
    serde_json::from_value::<Vec<String>>(v.get(key)?.clone()).ok()
}

/// Relies on `serde_json::to_string` on a `str`: the JSON string literal for
/// `s`. Serialising a string into memory does not fail.
#[verifier::external_body]
pub(crate) fn encode_json_string(s: &str) -> (r: String)
    ensures
        r@ == json_string_of(s@),
{
    match serde_json::to_string(s) {
        Ok(t) => t,
        Err(_) => String::new(),
    }
}

} // verus!
