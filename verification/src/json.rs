//! JSON texts, read and written by `serde_json`.
//!
//! The library keeps JSON as text. What `serde_json` finds in a text is
//! named here and believed; the rules built on it are proved.

use vstd::prelude::*;

verus! {

/// The JSON string literal, quotes and escapes included, that stands for `s`.
pub uninterp spec fn json_string_of(s: Seq<char>) -> Seq<char>;

/// The string held by member `key` of the JSON object that `text` spells.
/// `None` where `text` is no JSON, spells no object, has no such member,
/// or the member is no string.
pub uninterp spec fn json_str_member_of(text: Seq<char>, key: Seq<char>) -> Option<Seq<char>>;

/// The compact JSON text of member `key` of the JSON object that `text`
/// spells. `None` where `text` is no JSON, spells no object or has no such
/// member.
pub uninterp spec fn json_member_text_of(text: Seq<char>, key: Seq<char>) -> Option<Seq<char>>;

/// The unsigned integer held by member `key` of the JSON object that `text`
/// spells. `None` where `text` is no JSON, spells no object, has no such
/// member, or the member is no integer between 0 and `u64::MAX`.
pub uninterp spec fn json_u64_member_of(text: Seq<char>, key: Seq<char>) -> Option<u64>;

/// The compact JSON text of the value that `text` spells, or `None` where
/// `text` is no JSON.
pub uninterp spec fn json_compact_of(text: Seq<char>) -> Option<Seq<char>>;

/// How many items the array holds that is member `key` of the JSON object
/// that `text` spells. `None` where `text` is no JSON, spells no object or
/// has no such array.
pub uninterp spec fn json_array_len_of(text: Seq<char>, key: Seq<char>) -> Option<usize>;

/// The string held by member `item_key` of item `index` of the array that
/// is member `list_key` of the JSON object that `text` spells. `None`
/// where there is no such string.
pub uninterp spec fn json_item_str_of(
    text: Seq<char>,
    list_key: Seq<char>,
    index: usize,
    item_key: Seq<char>,
) -> Option<Seq<char>>;

/// The parser's complaint about `text`, or `None` where `text` is JSON.
pub uninterp spec fn json_error_of(text: Seq<char>) -> Option<Seq<char>>;

/// Whether `text` is JSON.
pub open spec fn is_json(text: Seq<char>) -> bool {
    json_error_of(text) is None
}

/// `serde_json::to_string` on a `str`: the quoted, escaped literal. Writing
/// a string into memory cannot fail, so the fallback is never taken.
#[verifier::external_body]
pub(crate) fn json_string(s: &str) -> (r: String)
    ensures
        r@ == json_string_of(s@),
{
    serde_json::to_string(s).unwrap_or_default()
}

/// `serde_json::from_str` into a `Value`, then `Value::get` with `key` and
/// `Value::as_str` on what it finds.
#[verifier::external_body]
pub(crate) fn json_str_member(text: &str, key: &str) -> (r: Option<String>)
    ensures
        r.deep_view() == json_str_member_of(text@, key@),
{
    let value: serde_json::Value = serde_json::from_str(text).ok()?;
    value.get(key)?.as_str().map(|s| s.to_string())
}

/// `serde_json::from_str` into a `Value`, then `Value::get` with `key` and
/// `serde_json::to_string` on what it finds.
#[verifier::external_body]
pub(crate) fn json_member_text(text: &str, key: &str) -> (r: Option<String>)
    ensures
        r.deep_view() == json_member_text_of(text@, key@),
{
    let value: serde_json::Value = serde_json::from_str(text).ok()?;
    serde_json::to_string(value.get(key)?).ok()
}

/// `serde_json::from_str` into a `Value`, then `Value::get` with `key` and
/// `Value::as_u64` on what it finds.
#[verifier::external_body]
pub(crate) fn json_u64_member(text: &str, key: &str) -> (r: Option<u64>)
    ensures
        r == json_u64_member_of(text@, key@),
{
    let value: serde_json::Value = serde_json::from_str(text).ok()?;
    value.get(key)?.as_u64()
}

/// `serde_json::from_str` into a `Value`, then `serde_json::to_string` on
/// it.
#[verifier::external_body]
pub(crate) fn json_compact(text: &str) -> (r: Option<String>)
    ensures
        r.deep_view() == json_compact_of(text@),
{
    let value: serde_json::Value = serde_json::from_str(text).ok()?;
    serde_json::to_string(&value).ok()
}

/// `serde_json::from_str` into a `Value`, then `Value::get` with `key`,
/// `Value::as_array` and the length of what it finds.
#[verifier::external_body]
pub(crate) fn json_array_len(text: &str, key: &str) -> (r: Option<usize>)
    ensures
        r == json_array_len_of(text@, key@),
{
    let value: serde_json::Value = serde_json::from_str(text).ok()?;
    Some(value.get(key)?.as_array()?.len())
}

/// `serde_json::from_str` into a `Value`, then `Value::get` with
/// `list_key`, with `index` and with `item_key`, and `Value::as_str` on
/// what it finds.
#[verifier::external_body]
pub(crate) fn json_item_str(text: &str, list_key: &str, index: usize, item_key: &str) -> (r:
    Option<String>)
    ensures
        r.deep_view() == json_item_str_of(text@, list_key@, index, item_key@),
{
    let value: serde_json::Value = serde_json::from_str(text).ok()?;
    value.get(list_key)?.get(index)?.get(item_key)?.as_str().map(|s| s.to_string())
}

/// `serde_json::from_str` into a `Value`: the error's `Display` text where
/// it fails, nothing where it succeeds.
#[verifier::external_body]
pub(crate) fn json_error(text: &str) -> (r: Option<String>)
    ensures
        r.deep_view() == json_error_of(text@),
{
    serde_json::from_str::<serde_json::Value>(text).err().map(|e| e.to_string())
}

/// Why `text` is no JSON, in the parser's words, or nothing where it is.
pub fn parse_error(text: &str) -> (r: Option<String>)
    ensures
        r.deep_view() == json_error_of(text@),
        r is None <==> is_json(text@),
{
    json_error(text)
}

/// `s` as a JSON string literal, quotes and escapes included.
pub fn quote(s: &str) -> (r: String)
    ensures
        r@ == json_string_of(s@),
{
    json_string(s)
}

} // verus!
