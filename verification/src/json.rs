//! JSON text, read and written by `serde_json`.
//!
//! The codec needs four readings of a text (as an object, as a string, as a
//! list of strings, as a string or `null`) and one writing (a string as a
//! JSON string literal). Each is one call into `serde_json`. What a call
//! gives is a function of the text alone; the library gives each result a
//! name and proves nothing about it.

use vstd::prelude::*;

verus! {

/// The members of the JSON object that `text` spells: each member's name
/// with its value as compact JSON text, in the order `serde_json::Map` walks
/// them. `None` where `text` is not one JSON object.
pub uninterp spec fn json_object(text: Seq<char>) -> Option<Seq<(Seq<char>, Seq<char>)>>;

/// The string that `text` spells as a JSON string literal. `None` where
/// `text` is not one JSON string.
pub uninterp spec fn json_string(text: Seq<char>) -> Option<Seq<char>>;

/// The strings that `text` spells as a JSON array of strings. `None` where
/// `text` is not one such array.
pub uninterp spec fn json_string_list(text: Seq<char>) -> Option<Seq<Seq<char>>>;

/// What `text` spells as JSON `null` (`Some(None)`) or as a JSON string
/// (`Some(Some(..))`). `None` where `text` is neither.
pub uninterp spec fn json_optional_string(text: Seq<char>) -> Option<Option<Seq<char>>>;

/// The JSON string literal that `serde_json` writes for `text`, quotes and
/// escapes included.
pub uninterp spec fn json_quoted(text: Seq<char>) -> Seq<char>;

/// Reads `text` with `serde_json::from_str` as a `serde_json::Map` and gives
/// each member's name with its value printed by `serde_json::Value`'s
/// `Display`. The contract only names the result.
#[verifier::external_body]
pub(crate) fn read_object(text: &str) -> (members: Option<Vec<(String, String)>>)
    ensures
        members.deep_view() == json_object(text@),
{
    let object: serde_json::Map<String, serde_json::Value> = serde_json::from_str(text).ok()?;
    Some(object.into_iter().map(|(name, value)| (name, value.to_string())).collect())
}

/// Reads `text` with `serde_json::from_str` as a `String`. The contract only
/// names the result.
#[verifier::external_body]
pub(crate) fn read_string(text: &str) -> (value: Option<String>)
    ensures
        value.deep_view() == json_string(text@),
{
    serde_json::from_str::<String>(text).ok()
}

/// Reads `text` with `serde_json::from_str` as a `Vec<String>`. The contract
/// only names the result.
#[verifier::external_body]
pub(crate) fn read_string_list(text: &str) -> (value: Option<Vec<String>>)
    ensures
        value.deep_view() == json_string_list(text@),
{
    serde_json::from_str::<Vec<String>>(text).ok()
}

/// Reads `text` with `serde_json::from_str` as an `Option<String>`. The
/// contract only names the result.
#[verifier::external_body]
pub(crate) fn read_optional_string(text: &str) -> (value: Option<Option<String>>)
    ensures
        value.deep_view() == json_optional_string(text@),
{
    serde_json::from_str::<Option<String>>(text).ok()
}

/// Writes `text` with `serde_json::to_string` as a JSON string literal.
/// Writing a string into memory cannot fail, so the result is always there;
/// the contract only names it.
#[verifier::external_body]
pub(crate) fn quote(text: &str) -> (literal: String)
    ensures
        literal@ == json_quoted(text@),
{
    serde_json::to_string(text).unwrap_or_default()
}

} // verus!
